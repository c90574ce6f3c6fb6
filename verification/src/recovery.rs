//! What the core reads from a sent packet.
//!
//! Packets are owned by the loss-detection subsystem; the congestion core
//! only consumes the packet number, the length, the send time and the
//! ack-eliciting flag.

use vstd::prelude::*;
use crate::time::Instant;

verus! {

/// The congestion-relevant record of one sent packet.
#[derive(Debug, Clone, Copy, PartialEq, Eq, Structural)]
pub struct SentPacket {
    pub pn: u64,
    pub len: usize,
    pub time_sent: Instant,
    pub ack_eliciting: bool,
}

impl SentPacket {
    pub fn new(pn: u64, len: usize, time_sent: Instant, ack_eliciting: bool) -> (r: SentPacket)
        ensures
            r == (SentPacket { pn, len, time_sent, ack_eliciting }),
    {
        SentPacket { pn, len, time_sent, ack_eliciting }
    }

    /// The packet number, monotonically increasing per path.
    pub fn pn(&self) -> (r: u64)
        ensures
            r == self.pn,
    {
        self.pn
    }

    /// The length in bytes.
    pub fn len(&self) -> (r: usize)
        ensures
            r == self.len,
    {
        self.len
    }

    /// The time the packet left the sender.
    pub fn time_sent(&self) -> (r: Instant)
        ensures
            r == self.time_sent,
    {
        self.time_sent
    }

    /// Whether the packet elicits an acknowledgment; only such packets spend
    /// pacer credit.
    pub fn ack_eliciting(&self) -> (r: bool)
        ensures
            r == self.ack_eliciting,
    {
        self.ack_eliciting
    }
}

} // verus!
