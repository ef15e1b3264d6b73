pub mod daikin;
pub mod rmt;

pub use daikin::{
    DaikinCommand, DaikinPacket, FanSpeed, OperationMode, BIT_MARK_US, CARRIER_FREQ_HZ,
    DAIKIN_SECTION1_LEN, DAIKIN_SECTION2_LEN, DAIKIN_SECTION3_LEN, DAIKIN_STATE_LENGTH,
    DUTY_PERCENT, FOOTER_MARK_US, FOOTER_SPACE_US, GAP_SPACE_US, HDR_MARK_US, HDR_SPACE_US,
    ONE_SPACE_US, ZERO_SPACE_US,
};

use vstd::prelude::*;
use vstd::string::StringExecFns;

verus! {

/// Something that can send a command to the unit.
///
/// Its state is modelled by how many commands it has sent, the last one it sent, and
/// whether it is able to send the next one.
pub trait IrTransmitter: Send + Sync {
    /// How many commands have been sent.
    spec fn sent_count(&self) -> nat;

    /// The command sent last, if any.
    spec fn last_sent(&self) -> Option<DaikinCommand>;

    /// Whether the next command will be sent.
    spec fn accepts_command(&self) -> bool;

    /// Sends a command: on success it is counted and becomes the last one sent; on
    /// failure nothing was sent.
    fn send_command(&mut self, cmd: &DaikinCommand) -> (r: Result<(), String>)
        ensures
            (r is Ok) == old(self).accepts_command(),
            r is Ok ==> final(self).sent_count() == old(self).sent_count() + 1
                && final(self).last_sent() == Some(*cmd),
            r is Err ==> final(self).sent_count() == old(self).sent_count()
                && final(self).last_sent() == old(self).last_sent(),
    ;
}

/// A transmitter that records what it was asked to send.
#[derive(Debug, Clone, Copy)]
pub struct MockTransmitter {
    pub last_command: Option<DaikinCommand>,
    pub send_count: usize,
}

impl Default for MockTransmitter {
    fn default() -> (t: Self)
        ensures
            t.last_command is None,
            t.send_count == 0,
    {
        MockTransmitter { last_command: None, send_count: 0 }
    }
}

impl MockTransmitter {
    pub fn new() -> (t: Self)
        ensures
            t.last_command is None,
            t.send_count == 0,
    {
        Self::default()
    }
}

impl IrTransmitter for MockTransmitter {
    open spec fn sent_count(&self) -> nat {
        self.send_count as nat
    }

    open spec fn last_sent(&self) -> Option<DaikinCommand> {
        self.last_command
    }

    open spec fn accepts_command(&self) -> bool {
        self.send_count < usize::MAX
    }

    /// Records the command and counts it; fails, recording nothing, once the counter is
    /// full.
    fn send_command(&mut self, cmd: &DaikinCommand) -> (r: Result<(), String>)
        ensures
            old(self).send_count < usize::MAX ==> r is Ok && final(self).last_command == Some(*cmd)
                && final(self).send_count == old(self).send_count + 1,
            old(self).send_count == usize::MAX ==> r is Err && *final(self) == *old(self),
    {
        if self.send_count == usize::MAX {
            return Err(String::from_str("send counter is full"));
        }
        self.last_command = Some(*cmd);
        self.send_count = self.send_count + 1;
        Ok(())
    }
}

} // verus!
