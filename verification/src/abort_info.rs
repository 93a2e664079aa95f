//! Human-readable information about a named transaction abort.

use vstd::prelude::*;

verus! {

/// The name and description attached to an abort reason.
#[derive(Clone, Debug, PartialEq, Eq, PartialOrd, Ord, Hash)]
pub struct AbortInfo {
    pub reason_name: String,
    pub description: String,
}

} // verus!
