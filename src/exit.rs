//! Exit Signal: the two status codes a run reports to the host emulator.

use vstd::prelude::*;

verus! {

/// I/O port that the host emulator watches for the exit code.
pub const EXIT_PORT: u16 = 0xf4;

/// Outcome of a test run as written to the exit port.
#[derive(Debug, Clone, Copy, PartialEq, Eq, Structural)]
pub enum QemuExitCode {
    Success,
    Failure,
}

impl QemuExitCode {
    /// The literal value written to the exit port.
    pub open spec fn spec_value(self) -> u32 {
        match self {
            QemuExitCode::Success => 0x10,
            QemuExitCode::Failure => 0x11,
        }
    }

    /// Status of the emulator process once it has seen `value` on the port.
    pub open spec fn spec_host_status(self) -> int {
        2 * self.spec_value() + 1
    }

    /// The value to write to the exit port for this outcome.
    pub fn value(self) -> (r: u32)
        ensures
            r == self.spec_value(),
    {
        match self {
            QemuExitCode::Success => 0x10,
            QemuExitCode::Failure => 0x11,
        }
    }

    /// The exit status the host emulator gives its process on seeing this code:
    /// the code shifted left by one with the low bit set.
    pub fn host_status(self) -> (r: u32)
        ensures
            r == self.spec_host_status(),
            r == (self.spec_value() << 1u32) | 1u32,
    {
        let v = self.value();
        assert((v << 1u32) | 1u32 == 2 * v + 1) by (bit_vector)
            requires
                v == 0x10u32 || v == 0x11u32,
        ;
        2 * v + 1
    }
}

/// The exit port always receives one of the two fixed literals, `0x10` for
/// success and `0x11` for failure, and the two outcomes never share a value.
pub proof fn lemma_exit_values_fixed(code: QemuExitCode)
    ensures
        code == QemuExitCode::Success ==> code.spec_value() == 0x10,
        code == QemuExitCode::Failure ==> code.spec_value() == 0x11,
        QemuExitCode::Success.spec_value() != QemuExitCode::Failure.spec_value(),
        code.spec_host_status() == 33 || code.spec_host_status() == 35,
{
}

} // verus!
