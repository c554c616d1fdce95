//! The hypercall command tags and their decoding from the guest's command
//! register.

use vstd::prelude::*;

verus! {

/// Command tag carried in register 1 of a hypercall addressed to the
/// controller. The wire encoding assigns 0 through 7 to the variants in
/// declaration order; every other register value decodes to `Noop`.
#[derive(Copy, Clone, Debug, PartialEq, Eq, Structural)]
pub enum HcCmd {
    /// No action requested.
    Noop,
    /// Start a new action: request the stage-2 stub hook.
    Start,
    /// Stop the action: finish the transfer.
    Stop,
    /// Read a captured runtime pointer from the host.
    Read,
    /// Ask the host to write payload bytes into guest memory.
    Write,
    /// Report an error to the host (reserved, no action here).
    Error,
    /// Ask the host whether an operation should complete (reserved).
    ConditionalOp,
    /// Ask the host to move to the next state machine (reserved).
    NextStateMachine,
}

impl HcCmd {
    /// What a command-register value means: values 0 through 7 name the
    /// variants in order, and every unmapped value is benign `Noop`.
    pub open spec fn spec_parse(value: u64) -> HcCmd {
        if value == 1 {
            HcCmd::Start
        } else if value == 2 {
            HcCmd::Stop
        } else if value == 3 {
            HcCmd::Read
        } else if value == 4 {
            HcCmd::Write
        } else if value == 5 {
            HcCmd::Error
        } else if value == 6 {
            HcCmd::ConditionalOp
        } else if value == 7 {
            HcCmd::NextStateMachine
        } else {
            HcCmd::Noop
        }
    }

    /// Decode a command-register value; unmapped values are not an error,
    /// they decode to `Noop`.
    pub fn parse(value: u64) -> (r: HcCmd)
        ensures
            r == HcCmd::spec_parse(value),
    {
        if value == 1 {
            HcCmd::Start
        } else if value == 2 {
            HcCmd::Stop
        } else if value == 3 {
            HcCmd::Read
        } else if value == 4 {
            HcCmd::Write
        } else if value == 5 {
            HcCmd::Error
        } else if value == 6 {
            HcCmd::ConditionalOp
        } else if value == 7 {
            HcCmd::NextStateMachine
        } else {
            HcCmd::Noop
        }
    }
}

} // verus!
