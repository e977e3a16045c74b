//! Causes of death, each of which decides for itself whether a bean dies of
//! it.

use crate::bean::Bean;
use vstd::prelude::*;

verus! {

/// A cause of death.
pub trait Cause {
    /// Whether the bean died of this cause.
    fn is_dead(&self, bean: &Bean) -> bool;
}

} // verus!
