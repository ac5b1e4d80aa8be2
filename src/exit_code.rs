//! The exit codes the kernel reports to the emulator through its debug exit
//! port.
use vstd::prelude::*;

verus! {

/// How a test run of the kernel ended.
#[derive(Debug, Clone, Copy, PartialEq, Eq, Structural)]
pub enum QemuExitCode {
    Success,
    Failed,
}

impl QemuExitCode {
    /// The value written to the exit port: 0x10 for success, 0x11 for failure.
    pub fn code(self) -> (r: u32)
        ensures
            self is Success ==> r == 0x10,
            self is Failed ==> r == 0x11,
    {
        match self {
            QemuExitCode::Success => 0x10,
            QemuExitCode::Failed => 0x11,
        }
    }
}

} // verus!
