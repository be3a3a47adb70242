//! Connectivity counters shared by every recording session and read by the
//! readiness endpoint.

use crate::text::{decimal, decimal_text};
use vstd::prelude::*;

verus! {

/// What the readiness endpoint answers: `READY` when every camera is
/// connected, else how many of them are.
pub open spec fn readiness_text(connected: nat, total: nat) -> Seq<char> {
    if connected == total {
        "READY"@
    } else {
        "NOT_READY: "@ + decimal_text(connected) + "/"@ + decimal_text(total)
            + " cameras connected"@
    }
}

/// The connected count after a capture process became active: one more,
/// but never more than `total`.
pub open spec fn after_connect(connected: nat, total: nat) -> nat {
    if connected < total {
        connected + 1
    } else {
        connected
    }
}

/// The connected count after a capture process stopped: one fewer, but never
/// fewer than zero.
pub open spec fn after_disconnect(connected: nat) -> nat {
    if connected > 0 {
        (connected - 1) as nat
    } else {
        0
    }
}

/// The connected count of `total` cameras after the events `connects`,
/// oldest first, each `true` for a start and `false` for a stop, beginning
/// with no camera connected.
pub open spec fn connected_after(total: nat, connects: Seq<bool>) -> nat
    decreases connects.len(),
{
    if connects.len() == 0 {
        0
    } else if connects.last() {
        after_connect(connected_after(total, connects.drop_last()), total)
    } else {
        after_disconnect(connected_after(total, connects.drop_last()))
    }
}

/// Whatever starts and stops are counted, in whatever order, the connected
/// count stays between zero and the number of cameras.
pub proof fn lemma_connected_in_range(total: nat, connects: Seq<bool>)
    ensures
        0 <= connected_after(total, connects) <= total,
    decreases connects.len(),
{
    if connects.len() > 0 {
        lemma_connected_in_range(total, connects.drop_last());
    }
}

/// How many cameras are configured and how many of them have a capture
/// process running right now.
///
/// The fields are private so that `connected <= total` holds of every value:
/// the only ways to change a `ServiceState` are the methods below.
#[derive(Debug)]
pub struct ServiceState {
    cameras_connected: usize,
    total_cameras: usize,
}

impl ServiceState {
    #[verifier::type_invariant]
    pub(crate) closed spec fn bounded(self) -> bool {
        self.cameras_connected <= self.total_cameras
    }

    /// What the invariant means in terms of the two counts.
    pub(crate) proof fn lemma_bounded(self)
        requires
            self.bounded(),
        ensures
            self.connected() <= self.total(),
    {
    }

    /// Number of cameras whose capture process is running.
    pub closed spec fn connected(self) -> nat {
        self.cameras_connected as nat
    }

    /// Number of configured cameras, fixed when the state is made.
    pub closed spec fn total(self) -> nat {
        self.total_cameras as nat
    }

    /// A state for `total_cameras` cameras, none of them connected.
    pub fn new(total_cameras: usize) -> (s: Self)
        ensures
            s.connected() == 0,
            s.total() == total_cameras,
    {
        ServiceState { cameras_connected: 0, total_cameras }
    }

    pub fn cameras_connected(&self) -> (n: usize)
        ensures
            n == self.connected(),
            n <= self.total(),
    {
        proof {
            use_type_invariant(self);
        }
        self.cameras_connected
    }

    pub fn total_cameras(&self) -> (n: usize)
        ensures
            n == self.total(),
    {
        self.total_cameras
    }

    /// A capture process became active. The count never passes `total`.
    pub fn mark_connected(&mut self)
        ensures
            final(self).total() == old(self).total(),
            final(self).connected() == after_connect(old(self).connected(), old(self).total()),
            final(self).connected() <= final(self).total(),
    {
        proof {
            use_type_invariant(&*self);
        }
        if self.cameras_connected < self.total_cameras {
            self.cameras_connected += 1;
        }
    }

    /// A capture process stopped. The count never goes below zero.
    pub fn mark_disconnected(&mut self)
        ensures
            final(self).total() == old(self).total(),
            final(self).connected() == after_disconnect(old(self).connected()),
            final(self).connected() <= final(self).total(),
    {
        proof {
            use_type_invariant(&*self);
        }
        if self.cameras_connected > 0 {
            self.cameras_connected -= 1;
        }
    }

    /// The service is ready exactly when every camera is connected.
    pub fn is_ready(&self) -> (ready: bool)
        ensures
            ready == (self.connected() == self.total()),
    {
        self.cameras_connected == self.total_cameras
    }

    /// The answer of the readiness endpoint.
    pub fn readiness_report(&self) -> (report: String)
        ensures
            report@ == readiness_text(self.connected(), self.total()),
    {
        if self.cameras_connected == self.total_cameras {
            String::from_str("READY")
        } else {
            let mut report = String::from_str("NOT_READY: ");
            report.append(decimal(self.cameras_connected as u64).as_str());
            report.append("/");
            report.append(decimal(self.total_cameras as u64).as_str());
            report.append(" cameras connected");
            report
        }
    }
}

} // verus!
