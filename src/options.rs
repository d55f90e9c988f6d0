use vstd::prelude::*;
use crate::text::occurs_at_index;

verus! {

/// The options given to the annotation.
#[derive(Clone, Copy, Debug, PartialEq, Eq, Structural)]
pub struct MacroArgs {
    /// `unstable`: the operation is registered as unstable.
    pub is_unstable: bool,
    /// `v8`: a parameter may take the execution scope.
    pub is_v8: bool,
}

/// An annotation option outside the recognised set.
#[derive(Clone, Copy, Debug, PartialEq, Eq, Structural)]
pub enum MacroArgsError {
    /// The option at this position is neither `unstable` nor `v8`.
    UnknownOption(usize),
}

impl MacroArgsError {
    /// The message reported for the error.
    pub fn message(&self) -> (r: &'static str)
        ensures
            r@ == "Ops expect no-argument form or one/both of the recognized options"@,
    {
        "Ops expect no-argument form or one/both of the recognized options"
    }
}

/// The option name is one of the recognised ones.
pub open spec fn is_known_option(name: Seq<char>) -> bool {
    name == "unstable"@ || name == "v8"@
}

/// Whether two texts are equal.
pub(crate) fn same_text(a: &str, b: &str) -> (r: bool)
    ensures
        r == (a@ == b@),
{
    if a.unicode_len() != b.unicode_len() {
        return false;
    }
    let r = occurs_at_index(a, b, 0);
    assert(a@ =~= a@.subrange(0, b@.len() as int));
    r
}

impl MacroArgs {
    /// Reads the annotation's options from their names, in order: every name
    /// must be `unstable` or `v8`, and each flag is set where its name occurs.
    pub fn parse(names: &Vec<String>) -> (r: Result<MacroArgs, MacroArgsError>)
        ensures
            (forall|i: int| 0 <= i < names@.len() ==> is_known_option(#[trigger] names@[i]@)) ==> r == Ok::<MacroArgs, MacroArgsError>(
                MacroArgs {
                    is_unstable: exists|i: int| 0 <= i < names@.len() && #[trigger] names@[i]@ == "unstable"@,
                    is_v8: exists|i: int| 0 <= i < names@.len() && #[trigger] names@[i]@ == "v8"@,
                },
            ),
            r matches Err(MacroArgsError::UnknownOption(k)) ==> k < names@.len() && !is_known_option(names@[k as int]@)
                && forall|i: int| 0 <= i < k ==> is_known_option(#[trigger] names@[i]@),
            r is Err <==> exists|i: int| 0 <= i < names@.len() && !is_known_option(#[trigger] names@[i]@),
    {
        let mut is_unstable = false;
        let mut is_v8 = false;
        let mut i: usize = 0;
        while i < names.len()
            invariant
                i <= names@.len(),
                forall|j: int| 0 <= j < i ==> is_known_option(#[trigger] names@[j]@),
                is_unstable == exists|j: int| 0 <= j < i && #[trigger] names@[j]@ == "unstable"@,
                is_v8 == exists|j: int| 0 <= j < i && #[trigger] names@[j]@ == "v8"@,
            decreases names@.len() - i,
        {
            let name = names[i].as_str();
            let unstable = same_text(name, "unstable");
            let v8 = same_text(name, "v8");
            if !unstable && !v8 {
                return Err(MacroArgsError::UnknownOption(i));
            }
            is_unstable = is_unstable || unstable;
            is_v8 = is_v8 || v8;
            i = i + 1;
        }
        Ok(MacroArgs { is_unstable, is_v8 })
    }
}

} // verus!
