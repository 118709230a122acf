//! The push notification channel: every status transition is offered to
//! whoever is attached.  With nobody attached a transition is simply not
//! delivered — not buffered, and no error — and the most recent status is
//! replayed to a consumer the moment it attaches.

use crate::types::{DownloadProgress, ServiceStatus};
use vstd::prelude::*;

verus! {

/// Observer model of the status channel: the last status offered, and how
/// many consumers are attached.  Zero and many consumers are both fine.
#[derive(Debug, Clone, PartialEq, Eq)]
pub struct StatusChannel {
    pub last: ServiceStatus,
    pub subscribers: u32,
}

impl StatusChannel {
    /// A fresh channel: nothing attached, last status uninitialized.
    pub fn new() -> (r: StatusChannel)
        ensures
            r.last is Uninitialized,
            r.subscribers == 0,
    {
        StatusChannel { last: ServiceStatus::Uninitialized, subscribers: 0 }
    }

    /// Attach a consumer; the most recent status is replayed to it.
    pub fn attach(&mut self) -> (r: ServiceStatus)
        ensures
            final(self).last == old(self).last,
            final(self).subscribers == if old(self).subscribers < u32::MAX {
                old(self).subscribers + 1
            } else {
                old(self).subscribers as int
            },
            r == old(self).last,
    {
        if self.subscribers < u32::MAX {
            self.subscribers = self.subscribers + 1;
        }
        self.last.duplicate()
    }

    /// Detach one consumer; detaching with none attached is a no-op.
    pub fn detach(&mut self)
        ensures
            final(self).last == old(self).last,
            final(self).subscribers == if old(self).subscribers > 0 {
                old(self).subscribers - 1
            } else {
                0int
            },
    {
        if self.subscribers > 0 {
            self.subscribers = self.subscribers - 1;
        }
    }

    /// Offer a status transition: it becomes the last known status and is
    /// delivered to each attached consumer — to none without error.
    pub fn publish(&mut self, status: ServiceStatus) -> (delivered: u32)
        ensures
            final(self).last == status,
            final(self).subscribers == old(self).subscribers,
            delivered == old(self).subscribers,
    {
        let delivered = self.subscribers;
        self.last = status;
        delivered
    }

    /// Offer a download-progress report, the channel's second event kind.
    /// It is delivered to each attached consumer and, unlike the status, is
    /// transient: nothing is kept and nothing is replayed.
    pub fn publish_progress(&mut self, progress: &DownloadProgress) -> (delivered: u32)
        ensures
            *final(self) == *old(self),
            delivered == old(self).subscribers,
    {
        self.subscribers
    }
}

} // verus!
