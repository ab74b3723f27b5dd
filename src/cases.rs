//! Test cases and what makes something one.

use vstd::prelude::*;

verus! {

/// A test case: invoked with no arguments, it either returns normally (the
/// case passes) or raises a fault, which never returns to the harness.
pub trait Testable {
    fn run(&self);
}

/// The kernel's one registered case: one equals one. The equality is checked
/// when the library is verified, so the case always passes.
pub fn trivial_assertion() {
    let one: u32 = 1;
    assert(one == 1);
}

} // verus!
