//! Interrupt-driven text console core for a bare-metal kernel.
//!
//! The crate models the earliest bring-up layer of a kernel: the interrupt
//! vector table with its exception and device handlers, the chained legacy
//! interrupt-controller bridge, the scancode decoder for the keyboard, and
//! the memory-mapped character framebuffer with its scrolling console
//! writer.  Every hardware protocol (gate-descriptor layout, controller
//! command sequences, scancode set 1) is encoded here as an explicit module
//! contract; the thin platform boundary that performs the actual port and
//! memory-mapped writes lives outside the library.
use vstd::prelude::*;

pub mod interrupts;
pub mod keyboard;
pub mod pic;
pub mod vga_buffer;

verus! {

/// A unit of work the kernel test harness can run.
pub trait Testable {
    fn run(&self);
}

/// Runs every test in the given batch, in order.
pub fn test_runner<T: Testable>(tests: &[T]) {
    let n = tests.len();
    let mut i: usize = 0;
    while i < n
        invariant
            n == tests@.len(),
            i <= n,
        decreases n - i,
    {
        tests[i].run();
        i = i + 1;
    }
}

/// The smallest harness check: the arithmetic the harness itself rests on.
pub fn trivial_assertion() {
    let one: u64 = 1;
    assert(one == 1);
}

} // verus!
