//! Signature analysis and call planning for wrappers that expose native
//! functions to a script engine through its dynamic call protocol.
use vstd::prelude::*;

pub mod options;
pub mod plan;
pub mod shape;
pub mod signature;
pub mod text;
pub mod trampoline;

verus! {

} // verus!
