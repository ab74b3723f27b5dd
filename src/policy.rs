//! Panic Policy and Entry Point: what the kernel does on an unrecoverable fault
//! and from the moment it starts, for each of the two build modes.

use vstd::prelude::*;
use crate::exit::QemuExitCode;
use crate::harness::Action;

verus! {

/// The build mode. Exactly one is chosen when the kernel is built.
#[derive(Debug, Clone, Copy, PartialEq, Eq, Structural)]
pub enum Mode {
    /// An operator-facing boot image.
    Normal,
    /// An automated test binary running under the emulator.
    Test,
}

/// What the panic policy of `mode` does once a fault has been raised.
pub open spec fn fault_plan(mode: Mode) -> Seq<Action> {
    match mode {
        Mode::Normal => seq![Action::ShowFault, Action::Park],
        Mode::Test => seq![Action::Failed, Action::Signal(QemuExitCode::Failure), Action::Park],
    }
}

/// What the entry point of `mode` does: greet, run the tests in a test build,
/// then park.
pub open spec fn entry_run(mode: Mode) -> Seq<Action> {
    match mode {
        Mode::Normal => seq![Action::Greet, Action::Park],
        Mode::Test => seq![Action::Greet, Action::RunTests, Action::Park],
    }
}

/// The actions of the panic policy of `mode`. The plan ends in a park, and it
/// invokes no case and hands control nowhere, so handling a fault never runs
/// code that could raise another.
pub fn panic_plan(mode: Mode) -> (r: Vec<Action>)
    ensures
        r@ == fault_plan(mode),
{
    match mode {
        Mode::Normal => vec![Action::ShowFault, Action::Park],
        Mode::Test => vec![Action::Failed, Action::Signal(QemuExitCode::Failure), Action::Park],
    }
}

/// The actions of the entry point of `mode`.
pub fn entry_plan(mode: Mode) -> (r: Vec<Action>)
    ensures
        r@ == entry_run(mode),
{
    match mode {
        Mode::Normal => vec![Action::Greet, Action::Park],
        Mode::Test => vec![Action::Greet, Action::RunTests, Action::Park],
    }
}

/// The panic policy never re-enters itself: its plan invokes no case, starts
/// no test run and greets no one, so the only code it leads to is rendering the
/// fault and writing the exit port (both total); it ends parked. In a test build
/// it writes `Failure` to the exit port exactly once; in a normal build it
/// writes no exit code at all.
pub proof fn lemma_fault_plan_terminal(mode: Mode)
    ensures
        forall|p: int|
            0 <= p < fault_plan(mode).len() ==> {
                let a = #[trigger] fault_plan(mode)[p];
                &&& a !is Invoke
                &&& a !is Begin
                &&& a !is RunTests
                &&& a !is Greet
            },
        fault_plan(mode).last() == Action::Park,
        mode == Mode::Test ==> forall|p: int|
            0 <= p < fault_plan(mode).len() && #[trigger] fault_plan(mode)[p] is Signal ==> p == 1
                && fault_plan(mode)[p] == Action::Signal(QemuExitCode::Failure),
        mode == Mode::Normal ==> forall|p: int|
            0 <= p < fault_plan(mode).len() ==> #[trigger] fault_plan(mode)[p] !is Signal,
{
}

} // verus!
