use vstd::prelude::*;
use crate::plan::{call_args, is_result_shape, launch_mode_of, slot_of, source_of, ArgSource};
use crate::shape::ReturnShape;
use crate::signature::FunctionDescriptor;

verus! {

/// Every decoded parameter before `j` decoded successfully.
pub open spec fn decoded_before(d: FunctionDescriptor, decoded: Seq<bool>, j: int) -> bool {
    forall|i: int| 0 <= i < j && d.params@[i] is Serialized ==> #[trigger] decoded[i]
}

/// The parameter at `j` is the first decoded one whose argument failed to decode.
pub open spec fn first_failure(d: FunctionDescriptor, decoded: Seq<bool>, j: int) -> bool {
    &&& 0 <= j < d.params@.len()
    &&& d.params@[j] is Serialized
    &&& !decoded[j]
    &&& decoded_before(d, decoded, j)
}

/// At most one parameter is the first to fail.
proof fn lemma_first_failure_unique(d: FunctionDescriptor, decoded: Seq<bool>, j: int, k: int)
    requires
        first_failure(d, decoded, j),
        first_failure(d, decoded, k),
    ensures
        j == k,
{
    if k < j {
        assert(decoded[k]);
    }
    if j < k {
        assert(decoded[j]);
    }
}

/// The dynamic position reported when decoding fails.
pub open spec fn failed_slot(d: FunctionDescriptor, decoded: Seq<bool>) -> int {
    slot_of(d, choose|j: int| first_failure(d, decoded, j))
}

/// Runs the decoding of the arguments: `decoded[j]` tells whether the dynamic
/// argument of the parameter at `j` decoded (it is not read for other kinds).
/// Gives the dynamic position of the first failure, or `None` when all decoded.
pub fn first_decode_failure(d: &FunctionDescriptor, decoded: &Vec<bool>) -> (r: Option<usize>)
    requires
        d.wf(),
        decoded@.len() == d.params@.len(),
    ensures
        r is None <==> decoded_before(*d, decoded@, d.params@.len() as int),
        r matches Some(p) ==> p == failed_slot(*d, decoded@),
{
    let srcs = call_args(d);
    let n = d.params.len();
    let mut j: usize = 0;
    while j < n
        invariant
            n == d.params@.len(),
            decoded@.len() == n,
            srcs@.len() == n,
            forall|i: int| 0 <= i < n ==> srcs@[i] == source_of(*d, i),
            j <= n,
            decoded_before(*d, decoded@, j as int),
            d.wf(),
        decreases n - j,
    {
        match srcs[j] {
            ArgSource::Decode(p) => {
                if !decoded[j] {
                    proof {
                        assert(srcs@[j as int] == source_of(*d, j as int));
                        assert(d.params@[j as int] is Serialized);
                        assert(first_failure(*d, decoded@, j as int));
                        let k = choose|k: int| first_failure(*d, decoded@, k);
                        lemma_first_failure_unique(*d, decoded@, j as int, k);
                    }
                    return Some(p);
                }
            },
            _ => {},
        }
        j = j + 1;
    }
    None
}

/// A step of the synchronous wrapper once its arguments are read.
#[derive(Clone, Copy, Debug, PartialEq, Eq, Structural)]
pub enum SyncStep {
    /// A type error naming this dynamic position is raised; the function is not called.
    ArgError(usize),
    /// The function is called.
    Invoke,
}

/// The synchronous wrapper's decision for given decoding outcomes.
pub open spec fn sync_step_of(d: FunctionDescriptor, decoded: Seq<bool>) -> SyncStep {
    if decoded_before(d, decoded, d.params@.len() as int) {
        SyncStep::Invoke
    } else {
        SyncStep::ArgError(failed_slot(d, decoded) as usize)
    }
}

/// The synchronous wrapper's decision after decoding: call the function when
/// every argument decoded, else raise a type error at the first failing position.
pub fn sync_step(d: &FunctionDescriptor, decoded: &Vec<bool>) -> (r: SyncStep)
    requires
        d.wf(),
        !d.is_async,
        decoded@.len() == d.params@.len(),
    ensures
        r == sync_step_of(*d, decoded@),
{
    match first_decode_failure(d, decoded) {
        Some(p) => SyncStep::ArgError(p),
        None => SyncStep::Invoke,
    }
}

/// What the synchronous wrapper writes to the host's return slot.
#[derive(Clone, Copy, Debug, PartialEq, Eq, Structural)]
pub enum SlotWrite {
    /// Nothing is encoded or written.
    Nothing,
    /// The returned value, or the success payload, is encoded and written.
    EncodeValue,
    /// The error is wrapped in a structured error object, encoded and written.
    EncodeError,
}

/// The slot write for a return shape and the call's outcome (`failed`: the
/// function returned an error).
pub open spec fn slot_write_of(shape: ReturnShape, failed: bool) -> SlotWrite {
    match shape {
        ReturnShape::Void => SlotWrite::Nothing,
        ReturnShape::PlainValue => SlotWrite::EncodeValue,
        ReturnShape::UnitResult => if failed {
            SlotWrite::EncodeError
        } else {
            SlotWrite::Nothing
        },
        ReturnShape::ValueResult => if failed {
            SlotWrite::EncodeError
        } else {
            SlotWrite::EncodeValue
        },
    }
}

/// How many values the serializer encodes for a slot write.
pub open spec fn encode_count(w: SlotWrite) -> nat {
    if w is Nothing {
        0
    } else {
        1
    }
}

/// Encodes the native outcome into the return slot: nothing for a void
/// function or a unit success, the value for a plain return or a value success,
/// a structured error for an error.
pub fn sync_slot_write(shape: ReturnShape, failed: bool) -> (r: SlotWrite)
    requires
        failed ==> is_result_shape(shape),
    ensures
        r == slot_write_of(shape, failed),
{
    match shape {
        ReturnShape::Void => SlotWrite::Nothing,
        ReturnShape::PlainValue => SlotWrite::EncodeValue,
        ReturnShape::UnitResult => if failed {
            SlotWrite::EncodeError
        } else {
            SlotWrite::Nothing
        },
        ReturnShape::ValueResult => if failed {
            SlotWrite::EncodeError
        } else {
            SlotWrite::EncodeValue
        },
    }
}

/// What the synchronous wrapper does with the native outcome once encoding has
/// been tried.
#[derive(Clone, Copy, Debug, PartialEq, Eq, Structural)]
pub enum ReturnOutcome {
    /// Nothing is written to the return slot.
    NoWrite,
    /// The encoded value is written to the return slot.
    WriteValue,
    /// The encoded structured error is written to the return slot.
    WriteStructuredError,
    /// The value failed to encode: a type error is raised and nothing is written.
    SerializeError,
}

/// The outcome for a return shape, the call's outcome (`failed`: it returned an
/// error) and, where a value is encoded, whether its encoding succeeded.
pub open spec fn return_outcome_of(shape: ReturnShape, failed: bool, encoded: bool) -> ReturnOutcome {
    match slot_write_of(shape, failed) {
        SlotWrite::Nothing => ReturnOutcome::NoWrite,
        SlotWrite::EncodeValue => if encoded {
            ReturnOutcome::WriteValue
        } else {
            ReturnOutcome::SerializeError
        },
        SlotWrite::EncodeError => ReturnOutcome::WriteStructuredError,
    }
}

/// Finishes the synchronous wrapper: a value whose encoding fails raises a
/// type error instead of being written, and never becomes a structured error;
/// an error returned by the function is written as a structured error.
pub fn encode_outcome(shape: ReturnShape, failed: bool, encoded: bool) -> (r: ReturnOutcome)
    requires
        failed ==> is_result_shape(shape),
    ensures
        r == return_outcome_of(shape, failed, encoded),
{
    match sync_slot_write(shape, failed) {
        SlotWrite::Nothing => ReturnOutcome::NoWrite,
        SlotWrite::EncodeValue => if encoded {
            ReturnOutcome::WriteValue
        } else {
            ReturnOutcome::SerializeError
        },
        SlotWrite::EncodeError => ReturnOutcome::WriteStructuredError,
    }
}

/// A step of the asynchronous wrapper's prologue.
#[derive(Clone, Copy, Debug, PartialEq, Eq, Structural)]
pub enum AsyncStep {
    /// Position 0 is not an integer: a type error is raised and nothing is scheduled.
    InvalidPromiseId,
    /// A type error naming this dynamic position is raised and nothing is scheduled.
    ArgError(usize),
    /// The function is launched.
    Launch,
}

/// The asynchronous wrapper's prologue decision for given decoding outcomes.
pub open spec fn async_step_of(d: FunctionDescriptor, promise_id_ok: bool, decoded: Seq<bool>) -> AsyncStep {
    if !promise_id_ok {
        AsyncStep::InvalidPromiseId
    } else if decoded_before(d, decoded, d.params@.len() as int) {
        AsyncStep::Launch
    } else {
        AsyncStep::ArgError(failed_slot(d, decoded) as usize)
    }
}

/// The asynchronous wrapper's prologue: the promise id at position 0 is read
/// first, then the arguments from position 1.
pub fn async_step(d: &FunctionDescriptor, promise_id_ok: bool, decoded: &Vec<bool>) -> (r: AsyncStep)
    requires
        d.wf(),
        d.is_async,
        decoded@.len() == d.params@.len(),
    ensures
        r == async_step_of(*d, promise_id_ok, decoded@),
{
    if !promise_id_ok {
        return AsyncStep::InvalidPromiseId;
    }
    match first_decode_failure(d, decoded) {
        Some(p) => AsyncStep::ArgError(p),
        None => AsyncStep::Launch,
    }
}

/// How an asynchronous call settles.
#[derive(Clone, Copy, Debug, PartialEq, Eq, Structural)]
pub struct Completion {
    /// A computation was handed to the task queue.
    pub scheduled: bool,
    /// The delivered result is a structured error.
    pub structured_error: bool,
}

/// The completion of a launched asynchronous call: `launch_failed` is an error
/// from the immediate call of a function that returns a result holding a
/// future; `settled_failed` is an error from the awaited computation.
pub open spec fn completion_of(launch_failed: bool, settled_failed: bool) -> Completion {
    if launch_failed {
        Completion { scheduled: false, structured_error: true }
    } else {
        Completion { scheduled: true, structured_error: settled_failed }
    }
}

/// Settles a launched asynchronous call: an error from the launch itself is
/// delivered at once without scheduling; otherwise the computation is scheduled
/// and its outcome delivered, an error as a structured error.
pub fn complete_async(d: &FunctionDescriptor, launch_failed: bool, settled_failed: bool) -> (r: Completion)
    requires
        d.is_async,
        launch_failed ==> launch_mode_of(*d) is FallibleCall,
        settled_failed ==> is_result_shape(d.ret),
    ensures
        r == completion_of(launch_failed, settled_failed),
{
    if launch_failed {
        Completion { scheduled: false, structured_error: true }
    } else {
        Completion { scheduled: true, structured_error: settled_failed }
    }
}

/// What is delivered through the completion channel once a scheduled
/// computation settles.
#[derive(Clone, Copy, Debug, PartialEq, Eq, Structural)]
pub enum Delivery {
    /// The encoded value.
    Value,
    /// The encoded structured error.
    StructuredError,
    /// The value failed to encode: a type error is raised on the computation's
    /// own context, outside the structured-error channel.
    SerializeError,
}

/// The delivery for a settled computation: `failed` is an error from it;
/// `encoded` tells whether its value encoded.
pub open spec fn delivery_of(failed: bool, encoded: bool) -> Delivery {
    if failed {
        Delivery::StructuredError
    } else if encoded {
        Delivery::Value
    } else {
        Delivery::SerializeError
    }
}

/// Settles a scheduled computation: an error becomes a structured error, a
/// value is delivered when it encodes and raises a type error when it does not.
pub fn settle_async(d: &FunctionDescriptor, failed: bool, encoded: bool) -> (r: Delivery)
    requires
        d.is_async,
        failed ==> is_result_shape(d.ret),
    ensures
        r == delivery_of(failed, encoded),
{
    if failed {
        Delivery::StructuredError
    } else if encoded {
        Delivery::Value
    } else {
        Delivery::SerializeError
    }
}

/// A value that fails to encode raises a type error and is never written or
/// delivered, neither as a value nor as a structured error.
pub proof fn lemma_encode_failure_bypasses_structured_error(shape: ReturnShape)
    requires
        shape is PlainValue || shape is ValueResult,
    ensures
        return_outcome_of(shape, false, false) == ReturnOutcome::SerializeError,
        delivery_of(false, false) == Delivery::SerializeError,
{
}

/// A function whose parameters are all decoded and which returns a plain value
/// is called by the synchronous wrapper with its dynamic arguments in order:
/// parameter `j` from position `j`; once all decode it is called, and its
/// value is encoded into the return slot.
pub proof fn lemma_plain_call_passes_arguments_through(d: FunctionDescriptor, decoded: Seq<bool>)
    requires
        d.wf(),
        !d.is_async,
        d.ret is PlainValue,
        decoded.len() == d.params@.len(),
        forall|j: int| 0 <= j < d.params@.len() ==> #[trigger] d.params@[j] is Serialized,
        forall|j: int| 0 <= j < decoded.len() ==> #[trigger] decoded[j],
    ensures
        d.special_prefix == 0,
        forall|j: int| 0 <= j < d.params@.len() ==> source_of(d, j) == ArgSource::Decode(j as usize),
        sync_step_of(d, decoded) == SyncStep::Invoke,
        slot_write_of(d.ret, false) == SlotWrite::EncodeValue,
{
    if d.special_prefix > 0 {
        assert(d.params@[0] is Serialized);
    }
}

/// A unit result encodes nothing when it succeeds and exactly one value, a
/// structured error, when it fails.
pub proof fn lemma_unit_success_writes_nothing(shape: ReturnShape)
    requires
        shape is UnitResult,
    ensures
        slot_write_of(shape, false) == SlotWrite::Nothing,
        encode_count(slot_write_of(shape, false)) == 0,
        slot_write_of(shape, true) == SlotWrite::EncodeError,
        encode_count(slot_write_of(shape, true)) == 1,
{
}

/// When the argument of parameter `j` is the first to fail to decode, the
/// synchronous wrapper raises a type error naming its dynamic position and does
/// not call the function; the asynchronous one raises the same and launches nothing.
pub proof fn lemma_decode_failure_aborts(d: FunctionDescriptor, decoded: Seq<bool>, j: int)
    requires
        first_failure(d, decoded, j),
    ensures
        sync_step_of(d, decoded) == SyncStep::ArgError(slot_of(d, j) as usize),
        async_step_of(d, true, decoded) == AsyncStep::ArgError(slot_of(d, j) as usize),
{
    assert(!decoded_before(d, decoded, d.params@.len() as int)) by {
        assert(d.params@[j] is Serialized);
    }
    let k = choose|k: int| first_failure(d, decoded, k);
    lemma_first_failure_unique(d, decoded, j, k);
}

/// An asynchronous call whose promise id is not an integer raises at once and
/// launches nothing, whatever its arguments.
pub proof fn lemma_invalid_promise_id_never_launches(d: FunctionDescriptor, decoded: Seq<bool>)
    ensures
        async_step_of(d, false, decoded) == AsyncStep::InvalidPromiseId,
{
}

/// For a function that returns a result holding a future, an error from the
/// call is delivered as a structured error without scheduling; a future that
/// settles with an error is delivered as a structured error after scheduling.
pub proof fn lemma_fallible_launch_delivery(d: FunctionDescriptor)
    requires
        d.is_async,
        launch_mode_of(d) is FallibleCall,
    ensures
        completion_of(true, false) == (Completion { scheduled: false, structured_error: true }),
        completion_of(true, true) == (Completion { scheduled: false, structured_error: true }),
        completion_of(false, true) == (Completion { scheduled: true, structured_error: true }),
        is_result_shape(d.ret),
{
}

} // verus!
