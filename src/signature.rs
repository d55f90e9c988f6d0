use vstd::prelude::*;
use crate::shape::{classify_return, is_future, names_future, shape_of, ReturnShape};
use crate::options::MacroArgs;

verus! {

/// What a regular expression search gives: `None` where `pattern` does not
/// compile, else whether the pattern matches somewhere in `text`.
pub uninterp spec fn regex_finds(pattern: Seq<char>, text: Seq<char>) -> Option<bool>;

/// Relies on `regex::Regex::new`, which compiles `pattern` or refuses it, and on
/// `regex::Regex::is_match`, which tells whether the compiled pattern matches
/// somewhere in `text`; both depend on their arguments alone.
#[verifier::external_body]
fn regex_search(pattern: &str, text: &str) -> (r: Option<bool>)
    ensures
        r == regex_finds(pattern@, text@),
{
    regex::Regex::new(pattern).ok().map(|re| re.is_match(text))
}

/// A parameter taking the shared state by exclusive mutable reference.
pub const MUT_REF_STATE_PATTERN: &'static str = ": & mut (?:deno_core :: )?OpState$";

/// A parameter taking a shared, interior-mutable handle to the shared state.
pub const SHARED_STATE_PATTERN: &'static str = ": Rc < RefCell < (?:deno_core :: )?OpState > >$";

/// A parameter taking the execution scope by exclusive mutable reference.
pub const HANDLE_SCOPE_PATTERN: &'static str = ": & mut (?:deno_core :: )?v8 :: HandleScope(?: < '\\w+ >)?$";

/// The parameter text is matched by the given pattern.
pub open spec fn matched(pattern: Seq<char>, text: Seq<char>) -> bool {
    regex_finds(pattern, text) == Some(true)
}

/// Whether a parameter's text takes the shared state by exclusive mutable reference.
pub fn is_mut_ref_opstate(arg: &str) -> (r: bool)
    ensures
        r == matched(MUT_REF_STATE_PATTERN@, arg@),
{
    match regex_search(MUT_REF_STATE_PATTERN, arg) {
        Some(found) => found,
        None => false,
    }
}

/// Whether a parameter's text takes a shared handle to the shared state.
pub fn is_rc_refcell_opstate(arg: &str) -> (r: bool)
    ensures
        r == matched(SHARED_STATE_PATTERN@, arg@),
{
    match regex_search(SHARED_STATE_PATTERN, arg) {
        Some(found) => found,
        None => false,
    }
}

/// Whether a parameter's text takes the execution scope.
pub fn is_handle_scope(arg: &str) -> (r: bool)
    ensures
        r == matched(HANDLE_SCOPE_PATTERN@, arg@),
{
    match regex_search(HANDLE_SCOPE_PATTERN, arg) {
        Some(found) => found,
        None => false,
    }
}

/// How one parameter of the native function is supplied.
#[derive(Clone, Copy, Debug, PartialEq, Eq, Structural)]
pub enum ParamKind {
    /// The call's execution scope.
    ExecutionScope,
    /// Exclusive access to the shared state, for the duration of the call.
    SharedStateExclusive,
    /// A shared handle to the shared state, which may outlive the call.
    SharedStateShared,
    /// A wildcard parameter: it takes a dynamic argument slot and reads nothing.
    Ignored,
    /// Decoded from a dynamic argument.
    Serialized,
}

/// The kinds bound from ambient context rather than from arguments.
pub open spec fn is_special(k: ParamKind) -> bool {
    k is ExecutionScope || k is SharedStateExclusive || k is SharedStateShared
}

/// The special kind given by the three shape tests, in the order they are tried:
/// the execution scope (only with `v8`), then the shared handle, then the
/// exclusive reference.
pub open spec fn special_rule(scope: bool, shared: bool, exclusive: bool, v8: bool) -> Option<ParamKind> {
    if v8 && scope {
        Some(ParamKind::ExecutionScope)
    } else if shared {
        Some(ParamKind::SharedStateShared)
    } else if exclusive {
        Some(ParamKind::SharedStateExclusive)
    } else {
        None
    }
}

/// The special kind that a parameter's text asks for, if any.
pub open spec fn special_kind_of(arg: Seq<char>, v8: bool) -> Option<ParamKind> {
    special_rule(
        matched(HANDLE_SCOPE_PATTERN@, arg),
        matched(SHARED_STATE_PATTERN@, arg),
        matched(MUT_REF_STATE_PATTERN@, arg),
        v8,
    )
}

/// Picks the special kind from the outcomes of the three shape tests.
pub fn special_kind_from(scope: bool, shared: bool, exclusive: bool, v8: bool) -> (r: Option<ParamKind>)
    ensures
        r == special_rule(scope, shared, exclusive, v8),
{
    if v8 && scope {
        Some(ParamKind::ExecutionScope)
    } else if shared {
        Some(ParamKind::SharedStateShared)
    } else if exclusive {
        Some(ParamKind::SharedStateExclusive)
    } else {
        None
    }
}

/// The special kind that a parameter's text asks for, if any.
pub fn special_kind(arg: &str, v8: bool) -> (r: Option<ParamKind>)
    ensures
        r == special_kind_of(arg@, v8),
{
    let scope = v8 && is_handle_scope(arg);
    let shared = is_rc_refcell_opstate(arg);
    let exclusive = is_mut_ref_opstate(arg);
    special_kind_from(scope, shared, exclusive, v8)
}

/// One declared parameter, as token text.
#[derive(Clone, Debug)]
pub struct ParamText {
    /// The tokens of `pattern: Type`.
    pub text: String,
    /// The binding pattern is the wildcard `_`.
    pub is_wild: bool,
}

/// A function's declared shape, as token text.
#[derive(Clone, Debug)]
pub struct SignatureText {
    /// The parameters, in order.
    pub params: Vec<ParamText>,
    /// The tokens of the return type, empty where none is declared.
    pub output: String,
    /// The function is declared `async`.
    pub asyncness: bool,
}

/// The analysed shape of one function.
#[derive(Clone, Debug)]
pub struct FunctionDescriptor {
    /// The kind of each parameter, in order.
    pub params: Vec<ParamKind>,
    /// How many leading parameters are bound from ambient context.
    pub special_prefix: usize,
    /// The shape of the return type.
    pub ret: ReturnShape,
    /// The function is declared `async`.
    pub asyncness: bool,
    /// The function is called through the asynchronous trampoline.
    pub is_async: bool,
}

impl FunctionDescriptor {
    /// The special kinds form the leading `special_prefix` parameters, and only those.
    pub open spec fn wf(&self) -> bool {
        &&& self.special_prefix <= self.params@.len()
        &&& forall|j: int| 0 <= j < self.special_prefix ==> is_special(#[trigger] self.params@[j])
        &&& forall|j: int| self.special_prefix <= j < self.params@.len() ==> !is_special(#[trigger] self.params@[j])
    }
}

/// The kind of a parameter past the special prefix.
pub open spec fn plain_kind(p: ParamText) -> ParamKind {
    if p.is_wild {
        ParamKind::Ignored
    } else {
        ParamKind::Serialized
    }
}

/// `d` is the analysis of `sig` under the `v8` option: the special prefix runs
/// up to the first parameter that asks for no special kind, and every later
/// parameter is ignored or decoded whatever its shape.
pub open spec fn describes(sig: SignatureText, v8: bool, d: FunctionDescriptor) -> bool {
    let ps = sig.params@;
    let k = d.special_prefix as int;
    &&& d.params@.len() == ps.len()
    &&& k <= ps.len()
    &&& forall|i: int| 0 <= i < k ==> special_kind_of(#[trigger] ps[i].text@, v8) == Some(d.params@[i])
    &&& (k == ps.len() || special_kind_of(ps[k].text@, v8) is None)
    &&& forall|i: int| k <= i < ps.len() ==> d.params@[i] == plain_kind(#[trigger] ps[i])
    &&& d.ret == shape_of(sig.output@)
    &&& d.asyncness == sig.asyncness
    &&& d.is_async == (sig.asyncness || names_future(sig.output@))
}

/// Analyses a function's declared shape: the kind of each parameter, the
/// return shape and the calling convention.
pub fn describe(sig: &SignatureText, margs: MacroArgs) -> (d: FunctionDescriptor)
    ensures
        describes(*sig, margs.is_v8, d),
        d.wf(),
{
    let v8 = margs.is_v8;
    let n = sig.params.len();
    let mut kinds: Vec<ParamKind> = Vec::new();
    let mut prefix: usize = 0;
    let mut in_prefix = true;
    let mut i: usize = 0;
    while i < n
        invariant
            n == sig.params@.len(),
            i <= n,
            kinds@.len() == i,
            prefix <= i,
            in_prefix ==> prefix == i,
            !in_prefix ==> prefix < i && special_kind_of(sig.params@[prefix as int].text@, v8) is None,
            forall|j: int| 0 <= j < prefix ==> special_kind_of(#[trigger] sig.params@[j].text@, v8) == Some(kinds@[j]),
            forall|j: int| 0 <= j < prefix ==> is_special(#[trigger] kinds@[j]),
            forall|j: int| prefix <= j < i ==> kinds@[j] == plain_kind(#[trigger] sig.params@[j]),
            forall|j: int| prefix <= j < i ==> !is_special(#[trigger] kinds@[j]),
        decreases n - i,
    {
        let p = &sig.params[i];
        let special = if in_prefix {
            special_kind(p.text.as_str(), v8)
        } else {
            None
        };
        match special {
            Some(k) => {
                kinds.push(k);
                prefix = i + 1;
            },
            None => {
                in_prefix = false;
                if p.is_wild {
                    kinds.push(ParamKind::Ignored);
                } else {
                    kinds.push(ParamKind::Serialized);
                }
            },
        }
        i = i + 1;
    }
    let ret = classify_return(sig.output.as_str());
    let asyncness = sig.asyncness;
    let is_async = asyncness || is_future(sig.output.as_str());
    FunctionDescriptor { params: kinds, special_prefix: prefix, ret, asyncness, is_async }
}

/// Classification is a function of the signature: two analyses of one
/// signature under one option set give the same descriptor.
pub proof fn lemma_describe_deterministic(sig: SignatureText, v8: bool, d1: FunctionDescriptor, d2: FunctionDescriptor)
    requires
        describes(sig, v8, d1),
        describes(sig, v8, d2),
    ensures
        d1.params@ == d2.params@,
        d1.special_prefix == d2.special_prefix,
        d1.ret == d2.ret,
        d1.asyncness == d2.asyncness,
        d1.is_async == d2.is_async,
{
    let ps = sig.params@;
    let k1 = d1.special_prefix as int;
    let k2 = d2.special_prefix as int;
    if k1 < k2 {
        assert(special_kind_of(ps[k1].text@, v8) == Some(d2.params@[k1]));
    }
    if k2 < k1 {
        assert(special_kind_of(ps[k2].text@, v8) == Some(d1.params@[k2]));
    }
    assert forall|i: int| 0 <= i < ps.len() implies d1.params@[i] == d2.params@[i] by {
        if i < k1 {
            assert(special_kind_of(ps[i].text@, v8) == Some(d1.params@[i]));
            assert(special_kind_of(ps[i].text@, v8) == Some(d2.params@[i]));
        } else {
            assert(d1.params@[i] == plain_kind(ps[i]));
        }
    }
    assert(d1.params@ =~= d2.params@);
}

} // verus!
