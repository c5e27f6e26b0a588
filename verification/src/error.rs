//! The failures that the machine reports to its host.

use vstd::prelude::*;

verus! {

/// What can go wrong while a program is loaded or run.
///
/// Every kind but `UnimplementedOpcode` ends the current run: the call that
/// reports it leaves the machine as it found it. `UnimplementedOpcode` is a
/// report only: the instruction was skipped and the run goes on.
#[derive(Clone, Copy, Debug, PartialEq, Eq, Structural)]
pub enum CpuError {
    /// A call was made with all sixteen stack levels in use.
    StackOverflow,
    /// A return was made with no call outstanding.
    StackUnderflow,
    /// No handler matches the instruction word that is carried along.
    UnimplementedOpcode(u16),
    /// The program image does not fit between the program start and the end
    /// of memory.
    RomTooLarge,
    /// An instruction would read or write beyond the end of memory, the
    /// program counter points past the last whole instruction, or the index
    /// register would leave its sixteen bits.
    AddressOutOfRange,
    /// A key instruction names a key beyond the sixteen of the keypad.
    KeyOutOfRange,
}

impl CpuError {
    /// Whether the run can go on after this report.
    pub open spec fn recoverable(self) -> bool {
        self is UnimplementedOpcode
    }

    /// Whether the run can go on after this report.
    pub fn is_recoverable(&self) -> (r: bool)
        ensures
            r == self.recoverable(),
    {
        match self {
            CpuError::UnimplementedOpcode(_) => true,
            _ => false,
        }
    }
}

} // verus!
