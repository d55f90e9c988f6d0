use vstd::prelude::*;
use crate::options::{same_text, MacroArgs};
use crate::shape::ReturnShape;
use crate::signature::{is_special, FunctionDescriptor, ParamKind};

verus! {

/// Where the wrapper takes one argument of the native call from.
#[derive(Clone, Copy, Debug, PartialEq, Eq, Structural)]
pub enum ArgSource {
    /// The call's execution scope.
    Scope,
    /// An exclusive borrow of the shared state.
    StateExclusive,
    /// A clone of the shared handle to the shared state.
    StateShared,
    /// The unit value, for a wildcard parameter; its slot is not read.
    Unit,
    /// The dynamic argument at this position, decoded.
    Decode(usize),
}

/// The dynamic position of the first argument after the special prefix: the
/// asynchronous wrapper keeps position 0 for the promise id.
pub open spec fn first_slot(d: FunctionDescriptor) -> int {
    if d.is_async {
        1
    } else {
        0
    }
}

/// The dynamic position that the parameter at `j` takes.
pub open spec fn slot_of(d: FunctionDescriptor, j: int) -> int {
    first_slot(d) + j - d.special_prefix
}

/// Where the parameter at `j` is taken from.
pub open spec fn source_of(d: FunctionDescriptor, j: int) -> ArgSource {
    match d.params@[j] {
        ParamKind::ExecutionScope => ArgSource::Scope,
        ParamKind::SharedStateExclusive => ArgSource::StateExclusive,
        ParamKind::SharedStateShared => ArgSource::StateShared,
        ParamKind::Ignored => ArgSource::Unit,
        ParamKind::Serialized => ArgSource::Decode(slot_of(d, j) as usize),
    }
}

/// The arguments of the native call, in parameter order: the special prefix
/// bound from context, then one dynamic position for each later parameter,
/// counted from the first free position.
pub fn call_args(d: &FunctionDescriptor) -> (r: Vec<ArgSource>)
    requires
        d.wf(),
    ensures
        r@.len() == d.params@.len(),
        forall|j: int| 0 <= j < r@.len() ==> r@[j] == source_of(*d, j),
{
    let n = d.params.len();
    let first: usize = if d.is_async { 1 } else { 0 };
    let mut r: Vec<ArgSource> = Vec::new();
    let mut j: usize = 0;
    while j < n
        invariant
            n == d.params@.len(),
            d.wf(),
            first as int == first_slot(*d),
            j <= n,
            r@.len() == j,
            forall|i: int| 0 <= i < j ==> r@[i] == source_of(*d, i),
        decreases n - j,
    {
        let src = match d.params[j] {
            ParamKind::ExecutionScope => ArgSource::Scope,
            ParamKind::SharedStateExclusive => ArgSource::StateExclusive,
            ParamKind::SharedStateShared => ArgSource::StateShared,
            ParamKind::Ignored => ArgSource::Unit,
            ParamKind::Serialized => ArgSource::Decode(j - d.special_prefix + first),
        };
        r.push(src);
        j = j + 1;
    }
    r
}

/// How many dynamic positions the wrapper reads: one for each parameter past
/// the special prefix, and the promise id's position for an asynchronous wrapper.
pub fn dynamic_arg_count(d: &FunctionDescriptor) -> (r: usize)
    requires
        d.wf(),
        d.params@.len() < usize::MAX,
    ensures
        r == d.params@.len() - d.special_prefix + first_slot(*d),
{
    let first: usize = if d.is_async { 1 } else { 0 };
    d.params.len() - d.special_prefix + first
}

/// Each decoded parameter reads its own dynamic position, past the promise
/// id's position and below the count of positions read.
pub proof fn lemma_decode_slots_distinct(d: FunctionDescriptor, i: int, j: int)
    requires
        d.wf(),
        0 <= i < d.params@.len(),
        0 <= j < d.params@.len(),
        !is_special(d.params@[i]),
        !is_special(d.params@[j]),
    ensures
        first_slot(d) <= slot_of(d, i) < d.params@.len() - d.special_prefix + first_slot(d),
        i != j ==> slot_of(d, i) != slot_of(d, j),
{
}

/// How the asynchronous wrapper obtains the computation that it schedules.
#[derive(Clone, Copy, Debug, PartialEq, Eq, Structural)]
pub enum LaunchMode {
    /// The function is declared `async`: its call is the computation.
    AwaitCall,
    /// The function returns a future: it is called at once and the future awaited.
    CallThenAwait,
    /// The function returns a result holding a future: it is called at once, an
    /// error is delivered without scheduling, and a future is awaited.
    FallibleCall,
}

/// The return shape is a result type.
pub open spec fn is_result_shape(s: ReturnShape) -> bool {
    s is UnitResult || s is ValueResult
}

/// How an asynchronous function is launched.
pub open spec fn launch_mode_of(d: FunctionDescriptor) -> LaunchMode {
    if d.asyncness {
        LaunchMode::AwaitCall
    } else if is_result_shape(d.ret) {
        LaunchMode::FallibleCall
    } else {
        LaunchMode::CallThenAwait
    }
}

/// Chooses how an asynchronous function is launched.
pub fn launch_mode(d: &FunctionDescriptor) -> (r: LaunchMode)
    ensures
        r == launch_mode_of(*d),
{
    if d.asyncness {
        LaunchMode::AwaitCall
    } else if is_result_return(d.ret) {
        LaunchMode::FallibleCall
    } else {
        LaunchMode::CallThenAwait
    }
}

/// Whether a return shape is a result type.
pub fn is_result_return(shape: ReturnShape) -> (r: bool)
    ensures
        r == is_result_shape(shape),
{
    match shape {
        ReturnShape::UnitResult | ReturnShape::ValueResult => true,
        _ => false,
    }
}

/// The settled value is wrapped in `Ok` before it is delivered: the function's
/// output is not itself a result.
pub fn wraps_ok(d: &FunctionDescriptor) -> (r: bool)
    ensures
        r == !is_result_shape(d.ret),
{
    !is_result_return(d.ret)
}

/// The text of a generic parameter names a lifetime.
pub open spec fn is_lifetime_text(t: Seq<char>) -> bool {
    t.len() > 0 && t[0] == '\''
}

/// The positions of the generic parameters that are not lifetimes, in order.
pub open spec fn type_param_positions(params: Seq<Seq<char>>) -> Seq<usize>
    decreases params.len(),
{
    if params.len() == 0 {
        Seq::empty()
    } else {
        let rest = type_param_positions(params.drop_last());
        if is_lifetime_text(params.last()) {
            rest
        } else {
            rest.push((params.len() - 1) as usize)
        }
    }
}

/// The positions of the generic parameters that take part in the generated
/// call: all but the lifetimes.
pub fn exclude_lifetime_params(params: &Vec<String>) -> (r: Vec<usize>)
    ensures
        r@ == type_param_positions(params@.map_values(|s: String| s@)),
{
    let ghost texts = params@.map_values(|s: String| s@);
    let mut r: Vec<usize> = Vec::new();
    let mut i: usize = 0;
    while i < params.len()
        invariant
            texts == params@.map_values(|s: String| s@),
            i <= params@.len(),
            r@ == type_param_positions(texts.subrange(0, i as int)),
        decreases params@.len() - i,
    {
        let t = params[i].as_str();
        let lifetime = t.unicode_len() > 0 && t.get_char(0) == '\'';
        proof {
            let pre = texts.subrange(0, i + 1);
            assert(pre.drop_last() =~= texts.subrange(0, i as int));
            assert(pre.last() == params@[i as int]@);
        }
        if !lifetime {
            r.push(i);
        }
        i = i + 1;
    }
    assert(texts.subrange(0, i as int) =~= texts);
    r
}

/// The lifetime that the wrapper's execution scope is declared with.
pub const SCOPE_LIFETIME: &'static str = "'scope";

/// The wrapper's generics must gain the scope lifetime: no lifetime parameter
/// already has its text.
pub fn needs_scope_lifetime(lifetimes: &Vec<String>) -> (r: bool)
    ensures
        r == forall|i: int| 0 <= i < lifetimes@.len() ==> #[trigger] lifetimes@[i]@ != SCOPE_LIFETIME@,
{
    let mut i: usize = 0;
    while i < lifetimes.len()
        invariant
            i <= lifetimes@.len(),
            forall|k: int| 0 <= k < i ==> #[trigger] lifetimes@[k]@ != SCOPE_LIFETIME@,
        decreases lifetimes@.len() - i,
    {
        if same_text(lifetimes[i].as_str(), SCOPE_LIFETIME) {
            return false;
        }
        i = i + 1;
    }
    true
}

/// The declaration handed to the registration table for one operation.
#[derive(Clone, Debug)]
pub struct OpDecl {
    /// The function's declared name, unchanged.
    pub name: String,
    /// The operation is enabled.
    pub enabled: bool,
    /// The operation is called through the asynchronous wrapper.
    pub is_async: bool,
    /// The annotation carried `unstable`.
    pub is_unstable: bool,
    /// The annotation carried `v8`.
    pub is_v8: bool,
}

/// Builds the declaration of an operation from its name, its options and its analysis.
pub fn op_decl(name: String, margs: MacroArgs, d: &FunctionDescriptor) -> (r: OpDecl)
    ensures
        r.name@ == name@,
        r.enabled,
        r.is_async == d.is_async,
        r.is_unstable == margs.is_unstable,
        r.is_v8 == margs.is_v8,
{
    OpDecl { name, enabled: true, is_async: d.is_async, is_unstable: margs.is_unstable, is_v8: margs.is_v8 }
}

} // verus!
