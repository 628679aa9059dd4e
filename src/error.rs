use vstd::prelude::*;

verus! {

/// Rejection of a value outside the closed range a bounded type admits.
#[derive(Clone, Copy, Debug, PartialEq, Eq, Structural)]
pub enum FieldError {
    InvalidRange { start: u8, end: u8 },
}

/// Failure to turn a command into an instruction packet.
#[derive(Clone, Copy, Debug, PartialEq, Eq, Structural)]
pub enum CmdError {
    /// Cannot generate instruction for strictly read command.
    StrictlyRead,
}

} // verus!
