use deno_ops::options::MacroArgs;
use deno_ops::plan::{
    call_args, exclude_lifetime_params, launch_mode, needs_scope_lifetime, op_decl, wraps_ok, ArgSource,
    LaunchMode,
};
use deno_ops::shape::ReturnShape;
use deno_ops::signature::{FunctionDescriptor, ParamKind};
use deno_ops::trampoline::{
    async_step, complete_async, encode_outcome, first_decode_failure, settle_async, sync_slot_write, sync_step, AsyncStep,
    Completion, Delivery, ReturnOutcome, SlotWrite, SyncStep,
};

fn desc(params: Vec<ParamKind>, special_prefix: usize, ret: ReturnShape, asyncness: bool, is_async: bool) -> FunctionDescriptor {
    FunctionDescriptor { params, special_prefix, ret, asyncness, is_async }
}

fn texts(list: &[&str]) -> Vec<String> {
    list.iter().map(|s| s.to_string()).collect()
}

#[test]
fn sync_args_count_from_zero_after_prefix() {
    let d = desc(
        vec![ParamKind::SharedStateExclusive, ParamKind::Serialized, ParamKind::Ignored, ParamKind::Serialized],
        1,
        ReturnShape::PlainValue,
        false,
        false,
    );
    assert_eq!(
        call_args(&d),
        vec![ArgSource::StateExclusive, ArgSource::Decode(0), ArgSource::Unit, ArgSource::Decode(2)]
    );
}

#[test]
fn async_args_count_from_one() {
    let d = desc(
        vec![ParamKind::SharedStateShared, ParamKind::Serialized, ParamKind::Serialized],
        1,
        ReturnShape::ValueResult,
        true,
        true,
    );
    assert_eq!(call_args(&d), vec![ArgSource::StateShared, ArgSource::Decode(1), ArgSource::Decode(2)]);
}

#[test]
fn scope_argument_bound_from_context() {
    let d = desc(vec![ParamKind::ExecutionScope, ParamKind::Serialized], 1, ReturnShape::Void, false, false);
    assert_eq!(call_args(&d), vec![ArgSource::Scope, ArgSource::Decode(0)]);
}

#[test]
fn plain_function_passes_arguments_through() {
    let d = desc(vec![ParamKind::Serialized, ParamKind::Serialized, ParamKind::Serialized], 0, ReturnShape::PlainValue, false, false);
    assert_eq!(call_args(&d), vec![ArgSource::Decode(0), ArgSource::Decode(1), ArgSource::Decode(2)]);
    assert_eq!(sync_step(&d, &vec![true, true, true]), SyncStep::Invoke);
    assert_eq!(sync_slot_write(d.ret, false), SlotWrite::EncodeValue);
}

#[test]
fn decode_failure_names_first_failing_position() {
    let d = desc(
        vec![ParamKind::SharedStateExclusive, ParamKind::Ignored, ParamKind::Serialized, ParamKind::Serialized],
        1,
        ReturnShape::PlainValue,
        false,
        false,
    );
    assert_eq!(sync_step(&d, &vec![true, false, false, false]), SyncStep::ArgError(1));
    assert_eq!(sync_step(&d, &vec![true, false, true, false]), SyncStep::ArgError(2));
    assert_eq!(sync_step(&d, &vec![false, false, true, true]), SyncStep::Invoke);
    assert_eq!(first_decode_failure(&d, &vec![true, true, true, true]), None);
}

#[test]
fn unit_result_success_writes_nothing() {
    assert_eq!(sync_slot_write(ReturnShape::UnitResult, false), SlotWrite::Nothing);
    assert_eq!(sync_slot_write(ReturnShape::UnitResult, true), SlotWrite::EncodeError);
    assert_eq!(sync_slot_write(ReturnShape::ValueResult, false), SlotWrite::EncodeValue);
    assert_eq!(sync_slot_write(ReturnShape::ValueResult, true), SlotWrite::EncodeError);
    assert_eq!(sync_slot_write(ReturnShape::Void, false), SlotWrite::Nothing);
}

#[test]
fn invalid_promise_id_launches_nothing() {
    let d = desc(vec![ParamKind::Serialized], 0, ReturnShape::ValueResult, true, true);
    assert_eq!(async_step(&d, false, &vec![true]), AsyncStep::InvalidPromiseId);
    assert_eq!(async_step(&d, false, &vec![false]), AsyncStep::InvalidPromiseId);
    assert_eq!(async_step(&d, true, &vec![false]), AsyncStep::ArgError(1));
    assert_eq!(async_step(&d, true, &vec![true]), AsyncStep::Launch);
}

#[test]
fn fallible_launch_delivers_error_without_scheduling() {
    let d = desc(vec![], 0, ReturnShape::ValueResult, false, true);
    assert_eq!(launch_mode(&d), LaunchMode::FallibleCall);
    assert_eq!(complete_async(&d, true, false), Completion { scheduled: false, structured_error: true });
    assert_eq!(complete_async(&d, false, true), Completion { scheduled: true, structured_error: true });
    assert_eq!(complete_async(&d, false, false), Completion { scheduled: true, structured_error: false });
}

#[test]
fn launch_modes() {
    assert_eq!(launch_mode(&desc(vec![], 0, ReturnShape::ValueResult, true, true)), LaunchMode::AwaitCall);
    assert_eq!(launch_mode(&desc(vec![], 0, ReturnShape::PlainValue, false, true)), LaunchMode::CallThenAwait);
    assert!(wraps_ok(&desc(vec![], 0, ReturnShape::PlainValue, true, true)));
    assert!(!wraps_ok(&desc(vec![], 0, ReturnShape::UnitResult, true, true)));
}

#[test]
fn lifetimes_are_left_out_of_type_params() {
    assert_eq!(exclude_lifetime_params(&texts(&["'a", "T", "'b", "U : Clone"])), vec![1, 3]);
    assert_eq!(exclude_lifetime_params(&texts(&[])), Vec::<usize>::new());
}

#[test]
fn scope_lifetime_added_once() {
    assert!(needs_scope_lifetime(&texts(&["'a"])));
    assert!(!needs_scope_lifetime(&texts(&["'a", "'scope"])));
}

#[test]
fn declaration_carries_flags() {
    let d = desc(vec![], 0, ReturnShape::Void, true, true);
    let decl = op_decl("op_sleep".to_string(), MacroArgs { is_unstable: true, is_v8: false }, &d);
    assert_eq!(decl.name, "op_sleep");
    assert!(decl.enabled && decl.is_async && decl.is_unstable && !decl.is_v8);
}

#[test]
fn dynamic_positions_counted() {
    let sync = desc(vec![ParamKind::SharedStateExclusive, ParamKind::Serialized, ParamKind::Ignored], 1, ReturnShape::Void, false, false);
    assert_eq!(deno_ops::plan::dynamic_arg_count(&sync), 2);
    let asynchronous = desc(vec![ParamKind::SharedStateShared, ParamKind::Serialized], 1, ReturnShape::Void, true, true);
    assert_eq!(deno_ops::plan::dynamic_arg_count(&asynchronous), 2);
    assert_eq!(deno_ops::plan::dynamic_arg_count(&desc(vec![], 0, ReturnShape::Void, false, false)), 0);
}

#[test]
fn failed_encoding_raises_instead_of_writing() {
    assert_eq!(encode_outcome(ReturnShape::PlainValue, false, false), ReturnOutcome::SerializeError);
    assert_eq!(encode_outcome(ReturnShape::PlainValue, false, true), ReturnOutcome::WriteValue);
    assert_eq!(encode_outcome(ReturnShape::ValueResult, false, false), ReturnOutcome::SerializeError);
    assert_eq!(encode_outcome(ReturnShape::ValueResult, true, false), ReturnOutcome::WriteStructuredError);
    assert_eq!(encode_outcome(ReturnShape::UnitResult, false, false), ReturnOutcome::NoWrite);
    assert_eq!(encode_outcome(ReturnShape::Void, false, false), ReturnOutcome::NoWrite);
}

#[test]
fn async_settlement_deliveries() {
    let d = desc(vec![], 0, ReturnShape::ValueResult, true, true);
    assert_eq!(settle_async(&d, false, true), Delivery::Value);
    assert_eq!(settle_async(&d, false, false), Delivery::SerializeError);
    assert_eq!(settle_async(&d, true, false), Delivery::StructuredError);
}

#[test]
fn result_return_shapes() {
    assert!(deno_ops::plan::is_result_return(ReturnShape::UnitResult));
    assert!(deno_ops::plan::is_result_return(ReturnShape::ValueResult));
    assert!(!deno_ops::plan::is_result_return(ReturnShape::PlainValue));
    assert!(!deno_ops::plan::is_result_return(ReturnShape::Void));
}
