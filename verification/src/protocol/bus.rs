//! Control-bus delivery outcomes and their counters.

use vstd::prelude::*;

verus! {

/// Delivery result for a typed control-path message.
#[derive(Debug, Clone, Copy, PartialEq, Eq, Structural)]
pub enum DeliveryStatus {
    Delivered,
    TargetUnavailable,
    RejectedByProtocol,
    DeadlineExpired,
    Backpressured,
    RuntimeShuttingDown,
}

impl DeliveryStatus {
    /// Returns true when the target accepted the message for processing.
    pub fn is_delivered(self) -> (b: bool)
        ensures
            b == (self == DeliveryStatus::Delivered),
    {
        match self {
            DeliveryStatus::Delivered => true,
            _ => false,
        }
    }
}

/// Cumulative delivery counters for a bus or channel boundary.
#[derive(Debug, PartialEq, Eq)]
pub struct DeliveryMetrics {
    pub delivered: usize,
    pub target_unavailable: usize,
    pub rejected_by_protocol: usize,
    pub deadline_expired: usize,
    pub backpressured: usize,
    pub runtime_shutting_down: usize,
}

impl Clone for DeliveryMetrics {
    fn clone(&self) -> (r: Self)
        ensures
            r == *self,
    {
        DeliveryMetrics { ..*self }
    }
}

impl Default for DeliveryMetrics {
    fn default() -> (r: Self)
        ensures
            r.total() == 0,
    {
        DeliveryMetrics::zero()
    }
}

impl DeliveryMetrics {
    /// The counter that tallies one status.
    pub open spec fn count(self, status: DeliveryStatus) -> nat {
        match status {
            DeliveryStatus::Delivered => self.delivered as nat,
            DeliveryStatus::TargetUnavailable => self.target_unavailable as nat,
            DeliveryStatus::RejectedByProtocol => self.rejected_by_protocol as nat,
            DeliveryStatus::DeadlineExpired => self.deadline_expired as nat,
            DeliveryStatus::Backpressured => self.backpressured as nat,
            DeliveryStatus::RuntimeShuttingDown => self.runtime_shutting_down as nat,
        }
    }

    /// The sum of all counters.
    pub open spec fn total(self) -> nat {
        (self.delivered + self.target_unavailable + self.rejected_by_protocol
            + self.deadline_expired + self.backpressured + self.runtime_shutting_down) as nat
    }

    /// All counters at zero.
    pub fn zero() -> (r: Self)
        ensures
            r.total() == 0,
            forall|s: DeliveryStatus| r.count(s) == 0,
    {
        DeliveryMetrics {
            delivered: 0,
            target_unavailable: 0,
            rejected_by_protocol: 0,
            deadline_expired: 0,
            backpressured: 0,
            runtime_shutting_down: 0,
        }
    }

    /// Records one delivery status: its counter grows by one, every other counter stays.
    pub fn record(&mut self, status: DeliveryStatus)
        requires
            old(self).count(status) < usize::MAX,
        ensures
            final(self).count(status) == old(self).count(status) + 1,
            forall|s: DeliveryStatus| s != status ==> final(self).count(s) == old(self).count(s),
            final(self).total() == old(self).total() + 1,
    {
        match status {
            DeliveryStatus::Delivered => self.delivered = self.delivered + 1,
            DeliveryStatus::TargetUnavailable => self.target_unavailable = self.target_unavailable + 1,
            DeliveryStatus::RejectedByProtocol => self.rejected_by_protocol = self.rejected_by_protocol + 1,
            DeliveryStatus::DeadlineExpired => self.deadline_expired = self.deadline_expired + 1,
            DeliveryStatus::Backpressured => self.backpressured = self.backpressured + 1,
            DeliveryStatus::RuntimeShuttingDown => self.runtime_shutting_down = self.runtime_shutting_down + 1,
        }
    }
}

} // verus!
