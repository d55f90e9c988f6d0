use vstd::prelude::*;
use crate::text::{contains_text, has_infix, has_prefix, occurs_at, occurs_at_index, trim_leading, trimmed_start};

verus! {

/// How a function's declared return type is handled by the generated wrapper.
#[derive(Clone, Copy, Debug, PartialEq, Eq, Structural)]
pub enum ReturnShape {
    /// No return type is declared.
    Void,
    /// A result type whose success payload is `()`.
    UnitResult,
    /// A result type with a success payload.
    ValueResult,
    /// Any other type.
    PlainValue,
}

/// The return type's text names a result type: it begins with `Result <` once
/// the arrow is skipped, or it holds a path ending in `:: Result <` with no
/// generic bracket opened before that path.
pub open spec fn names_result(t: Seq<char>) -> bool {
    has_prefix(trim_leading(t, "-> "@), "Result <"@) || exists|i: int|
        occurs_at(t, ":: Result <"@, i) && forall|j: int| 0 <= j < i ==> t[j] != '<'
}

/// The return type's text names a result type whose success payload is `()`.
pub open spec fn names_unit_result(t: Seq<char>) -> bool {
    names_result(t) && has_infix(t, "Result < ()"@)
}

/// The return type's text names an anonymous future type.
pub open spec fn names_future(t: Seq<char>) -> bool {
    has_infix(t, "impl Future < Output ="@)
}

/// The shape of a return type, from its token text.
pub open spec fn shape_of(t: Seq<char>) -> ReturnShape {
    if t.len() == 0 {
        ReturnShape::Void
    } else if names_unit_result(t) {
        ReturnShape::UnitResult
    } else if names_result(t) {
        ReturnShape::ValueResult
    } else {
        ReturnShape::PlainValue
    }
}

/// Whether a return type's token text is empty, that is, no type is declared.
pub fn is_void(output: &str) -> (r: bool)
    ensures
        r == (output@.len() == 0),
{
    output.unicode_len() == 0
}

/// Looks for a path ending in `:: Result <` before any `<` of the text.
fn has_result_path(t: &str) -> (r: bool)
    ensures
        r == exists|i: int| occurs_at(t@, ":: Result <"@, i) && forall|j: int| 0 <= j < i ==> t@[j] != '<',
{
    let n = t.unicode_len();
    let mut i: usize = 0;
    while i < n
        invariant
            n == t@.len(),
            i <= n,
            forall|j: int| 0 <= j < i ==> t@[j] != '<',
            forall|j: int| 0 <= j < i ==> !occurs_at(t@, ":: Result <"@, j),
        decreases n - i,
    {
        if occurs_at_index(t, ":: Result <", i) {
            return true;
        }
        if t.get_char(i) == '<' {
            assert forall|k: int| !(occurs_at(t@, ":: Result <"@, k) && forall|j: int| 0 <= j < k ==> t@[j] != '<') by {
                if k > i && occurs_at(t@, ":: Result <"@, k) {
                    assert(t@[i as int] == '<');
                }
            }
            return false;
        }
        i = i + 1;
    }
    assert forall|k: int| !(occurs_at(t@, ":: Result <"@, k) && forall|j: int| 0 <= j < k ==> t@[j] != '<') by {
        if k >= n && occurs_at(t@, ":: Result <"@, k) {
            reveal_strlit(":: Result <");
        }
    }
    false
}

/// Whether the return type's text names a result type, directly or through an alias path.
pub fn is_result(output: &str) -> (r: bool)
    ensures
        r == names_result(output@),
{
    let n = output.unicode_len();
    let start = trimmed_start(output, "-> ");
    let rest = output.substring_char(start, n);
    proof {
        assert(rest@ == trim_leading(output@, "-> "@));
    }
    occurs_at_index(rest, "Result <", 0) || has_result_path(output)
}

/// Whether the return type's text names a result type whose success payload is `()`.
pub fn is_unit_result(output: &str) -> (r: bool)
    ensures
        r == names_unit_result(output@),
{
    is_result(output) && contains_text(output, "Result < ()")
}

/// Whether the return type's text names an anonymous future type.
pub fn is_future(output: &str) -> (r: bool)
    ensures
        r == names_future(output@),
{
    contains_text(output, "impl Future < Output =")
}

/// Classifies a return type from its token text.
pub fn classify_return(output: &str) -> (r: ReturnShape)
    ensures
        r == shape_of(output@),
{
    if is_void(output) {
        ReturnShape::Void
    } else if is_unit_result(output) {
        ReturnShape::UnitResult
    } else if is_result(output) {
        ReturnShape::ValueResult
    } else {
        ReturnShape::PlainValue
    }
}

} // verus!
