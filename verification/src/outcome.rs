//! Comparisons that may have no outcome.
//!
//! A comparison yields `Some(true)` or `Some(false)`, or `None` where it has no
//! outcome. Parts are compared from left to right, and no further than needed.

use vstd::prelude::*;

verus! {

/// The first comparison and then, if it holds, the second.
pub open spec fn both(first: Option<bool>, second: Option<bool>) -> Option<bool> {
    match first {
        Some(true) => second,
        other => other,
    }
}

/// The first comparison and then, if it does not hold, the second.
pub open spec fn either(first: Option<bool>, second: Option<bool>) -> Option<bool> {
    match first {
        Some(false) => second,
        other => other,
    }
}

/// Two comparisons do not contradict each other: if both have an outcome, it
/// is the same.
pub open spec fn consistent(a: Option<bool>, b: Option<bool>) -> bool {
    a is Some && b is Some ==> a->0 == b->0
}

} // verus!
