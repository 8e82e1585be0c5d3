//! The exit protocol the trap handlers follow: every handler this kernel
//! generation installs writes one diagnostic line and terminates the
//! supervising virtual machine, with the success code on the expected
//! fault paths and the failure code only from the panic sink.

use vstd::prelude::*;

verus! {

/// The two exit values the supervising virtual machine distinguishes.
#[derive(Debug, Clone, Copy, PartialEq, Eq, Structural)]
pub enum QemuExitCode {
    Success,
    Failed,
}

impl QemuExitCode {
    /// The value written to the exit port for this code.
    pub open spec fn value(self) -> u32 {
        match self {
            QemuExitCode::Success => 0x10,
            QemuExitCode::Failed => 0x11,
        }
    }

    /// Reads the value written to the exit port for this code.
    pub fn code(self) -> (r: u32)
        ensures
            r == self.value(),
    {
        match self {
            QemuExitCode::Success => 0x10,
            QemuExitCode::Failed => 0x11,
        }
    }
}

/// Whether the CPU pushes an error code when it enters a vector's gate.
/// The property is fixed per vector: among the vectors this table can
/// hold, double fault (8), invalid TSS (10), segment not present (11),
/// stack fault (12), general protection (13) and page fault (14) push
/// one; every other vector does not. A handler's signature must account
/// for the extra word, or the frame is corrupt on return.
pub fn pushes_error_code(vector: u8) -> (r: bool)
    ensures
        r <==> (vector == 8 || vector == 10 || vector == 11 || vector == 12 || vector == 13
            || vector == 14),
{
    vector == 8 || (10 <= vector && vector <= 14)
}

/// The diagnostic line the installed handler of a vector writes before
/// it terminates the machine: exactly the vectors 0, 3 and 8 have one,
/// every other vector has no handler of its own.
pub fn handler_message(vector: u8) -> (r: Option<&'static str>)
    ensures
        r is Some <==> (vector == 0 || vector == 3 || vector == 8),
        vector == 0 ==> (r matches Some(m) && m@ == "EXCEPTION: DIVIDE BY ZERO"@),
        vector == 3 ==> (r matches Some(m) && m@ == "BREAKPOINT!"@),
        vector == 8 ==> (r matches Some(m) && m@ == "EXCEPTION: Double Fault Handler"@),
{
    if vector == 0 {
        Some("EXCEPTION: DIVIDE BY ZERO")
    } else if vector == 3 {
        Some("BREAKPOINT!")
    } else if vector == 8 {
        Some("EXCEPTION: Double Fault Handler")
    } else {
        None
    }
}

} // verus!
