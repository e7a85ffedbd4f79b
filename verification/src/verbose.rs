//! The verbosity flag consulted by per-site tasks for optional progress
//! reporting.
//!
//! The flag is an explicit value handed to each task at spawn time. It is
//! monotonic: `enable` turns it on exactly once and later calls change
//! nothing, so a task that ever reads it as on will never read it as off
//! again.

use vstd::prelude::*;

verus! {

/// The verbosity flag, counted as a level that only ever rises from zero.
#[derive(Clone, Copy)]
pub struct Verbosity {
    /// Zero while quiet; raised to one by the first `enable`.
    pub level: usize,
}

impl Verbosity {
    /// The flag reads as enabled.
    pub open spec fn spec_enabled(&self) -> bool {
        self.level != 0
    }

    /// A fresh, quiet flag.
    pub fn new() -> (r: Verbosity)
        ensures
            !r.spec_enabled(),
    {
        Verbosity { level: 0 }
    }
}

/// Turns the flag on. A flag already on is left exactly as it is: the
/// transition happens at most once and is never reversed.
pub fn enable(v: &mut Verbosity)
    ensures
        final(v).spec_enabled(),
        old(v).spec_enabled() ==> *final(v) == *old(v),
        final(v).level == if old(v).level == 0 {
            1usize
        } else {
            old(v).level
        },
{
    if v.level != 0 {
        return ;
    }
    v.level = v.level + 1;
}

/// Reads the flag.
pub fn is_enabled(v: &Verbosity) -> (r: bool)
    ensures
        r == v.spec_enabled(),
{
    if v.level != 0 {
        true
    } else {
        false
    }
}

} // verus!
