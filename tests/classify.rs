use deno_ops::options::{MacroArgs, MacroArgsError};
use deno_ops::shape::{classify_return, is_future, is_result, is_unit_result, is_void, ReturnShape};
use deno_ops::signature::{
    describe, is_handle_scope, is_mut_ref_opstate, is_rc_refcell_opstate, special_kind, special_kind_from,
    ParamKind, ParamText, SignatureText,
};

fn param(text: &str, is_wild: bool) -> ParamText {
    ParamText { text: text.to_string(), is_wild }
}

fn names(list: &[&str]) -> Vec<String> {
    list.iter().map(|s| s.to_string()).collect()
}

#[test]
fn void_return_is_empty_text() {
    assert!(is_void(""));
    assert!(!is_void("-> ()"));
}

#[test]
fn result_detected_directly() {
    assert!(is_result("-> Result < u32 , AnyError >"));
    assert!(is_result("-> -> Result < u32 , AnyError >"));
    assert!(!is_result("-> u32"));
    assert!(!is_result(""));
}

#[test]
fn result_detected_through_alias_path() {
    assert!(is_result("-> io :: Result < u32 >"));
    assert!(is_result("-> anyhow :: Result < () >"));
    assert!(!is_result("-> Vec < io :: Result < u32 > >"));
    assert!(!is_result("-> Option < u8 >"));
}

#[test]
fn unit_result_detection() {
    assert!(is_unit_result("-> Result < () , AnyError >"));
    assert!(!is_unit_result("-> Result < u32 , AnyError >"));
    assert!(!is_unit_result("-> Vec < Result < () , E > >"));
}

#[test]
fn future_detection() {
    assert!(is_future("-> impl Future < Output = u32 >"));
    assert!(!is_future("-> Pin < Box < dyn Future < Output = u32 > > >"));
}

#[test]
fn return_shapes() {
    assert_eq!(classify_return(""), ReturnShape::Void);
    assert_eq!(classify_return("-> Result < () , AnyError >"), ReturnShape::UnitResult);
    assert_eq!(classify_return("-> Result < String , AnyError >"), ReturnShape::ValueResult);
    assert_eq!(classify_return("-> String"), ReturnShape::PlainValue);
}

#[test]
fn state_parameter_shapes() {
    assert!(is_mut_ref_opstate("state : & mut OpState"));
    assert!(is_mut_ref_opstate("state : & mut deno_core :: OpState"));
    assert!(!is_mut_ref_opstate("state : & OpState"));
    assert!(is_rc_refcell_opstate("state : Rc < RefCell < OpState > >"));
    assert!(!is_rc_refcell_opstate("state : Rc < OpState >"));
    assert!(is_handle_scope("scope : & mut v8 :: HandleScope"));
    assert!(is_handle_scope("scope : & mut deno_core :: v8 :: HandleScope < 'a >"));
    assert!(!is_handle_scope("scope : & v8 :: HandleScope"));
}

#[test]
fn special_kind_needs_v8_for_scope() {
    assert_eq!(special_kind("scope : & mut v8 :: HandleScope", false), None);
    assert_eq!(special_kind("scope : & mut v8 :: HandleScope", true), Some(ParamKind::ExecutionScope));
    assert_eq!(special_kind("s : Rc < RefCell < OpState > >", false), Some(ParamKind::SharedStateShared));
    assert_eq!(special_kind("s : & mut OpState", true), Some(ParamKind::SharedStateExclusive));
    assert_eq!(special_kind("x : u32", true), None);
    assert_eq!(special_kind_from(true, true, true, true), Some(ParamKind::ExecutionScope));
    assert_eq!(special_kind_from(true, true, true, false), Some(ParamKind::SharedStateShared));
    assert_eq!(special_kind_from(false, false, true, false), Some(ParamKind::SharedStateExclusive));
    assert_eq!(special_kind_from(true, false, false, false), None);
}

#[test]
fn describe_splits_special_prefix() {
    let sig = SignatureText {
        params: vec![
            param("state : & mut OpState", false),
            param("a : u32", false),
            param("_ : ()", true),
            param("other : & mut OpState", false),
        ],
        output: "-> Result < u32 , AnyError >".to_string(),
        asyncness: false,
    };
    let d = describe(&sig, MacroArgs { is_unstable: false, is_v8: false });
    assert_eq!(d.special_prefix, 1);
    assert_eq!(
        d.params,
        vec![ParamKind::SharedStateExclusive, ParamKind::Serialized, ParamKind::Ignored, ParamKind::Serialized]
    );
    assert_eq!(d.ret, ReturnShape::ValueResult);
    assert!(!d.is_async);
}

#[test]
fn describe_scope_only_with_v8() {
    let sig = SignatureText {
        params: vec![param("scope : & mut v8 :: HandleScope", false), param("s : Rc < RefCell < OpState > >", false)],
        output: String::new(),
        asyncness: false,
    };
    let without = describe(&sig, MacroArgs { is_unstable: false, is_v8: false });
    assert_eq!(without.special_prefix, 0);
    assert_eq!(without.params, vec![ParamKind::Serialized, ParamKind::Serialized]);
    let with = describe(&sig, MacroArgs { is_unstable: false, is_v8: true });
    assert_eq!(with.special_prefix, 2);
    assert_eq!(with.params, vec![ParamKind::ExecutionScope, ParamKind::SharedStateShared]);
    assert_eq!(with.ret, ReturnShape::Void);
}

#[test]
fn describe_async_verdict() {
    let declared = SignatureText { params: vec![], output: "-> Result < () , AnyError >".to_string(), asyncness: true };
    let d = describe(&declared, MacroArgs { is_unstable: false, is_v8: false });
    assert!(d.is_async && d.asyncness);
    let returns_future = SignatureText {
        params: vec![],
        output: "-> Result < impl Future < Output = Result < u32 , AnyError > > , AnyError >".to_string(),
        asyncness: false,
    };
    let d = describe(&returns_future, MacroArgs { is_unstable: false, is_v8: false });
    assert!(d.is_async && !d.asyncness);
}

#[test]
fn describe_twice_is_identical() {
    let sig = SignatureText {
        params: vec![param("s : Rc < RefCell < OpState > >", false), param("a : String", false), param("_ : u8", true)],
        output: "-> io :: Result < () >".to_string(),
        asyncness: true,
    };
    let m = MacroArgs { is_unstable: true, is_v8: true };
    let a = describe(&sig, m);
    let b = describe(&sig, m);
    assert_eq!(a.params, b.params);
    assert_eq!(a.special_prefix, b.special_prefix);
    assert_eq!(a.ret, b.ret);
    assert_eq!(a.is_async, b.is_async);
    assert_eq!(a.asyncness, b.asyncness);
}

#[test]
fn macro_args_accepts_known_options() {
    assert_eq!(MacroArgs::parse(&names(&[])), Ok(MacroArgs { is_unstable: false, is_v8: false }));
    assert_eq!(MacroArgs::parse(&names(&["unstable"])), Ok(MacroArgs { is_unstable: true, is_v8: false }));
    assert_eq!(MacroArgs::parse(&names(&["v8", "unstable"])), Ok(MacroArgs { is_unstable: true, is_v8: true }));
}

#[test]
fn macro_args_rejects_unknown_option() {
    assert_eq!(MacroArgs::parse(&names(&["v8", "fast"])), Err(MacroArgsError::UnknownOption(1)));
    let e = MacroArgs::parse(&names(&["Unstable"])).unwrap_err();
    assert_eq!(e, MacroArgsError::UnknownOption(0));
    assert_eq!(e.message(), "Ops expect no-argument form or one/both of the recognized options");
}
