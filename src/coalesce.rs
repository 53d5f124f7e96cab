//! Per-channel batching of inbound messages before dispatch.

use vstd::prelude::*;
use crate::clock::{elapsed, elapsed_since, sat_add, saturating_add};
use crate::config::CoalesceSection;

verus! {

/// Messages of one channel awaiting dispatch, with the times (in
/// milliseconds) at which the first and the last of them arrived.
pub struct CoalesceBuffer<T> {
    messages: Vec<T>,
    first_seen_ms: u64,
    last_seen_ms: u64,
}

/// Every message is dispatched alone and at once: coalescing is off, or it
/// is reserved for multi-user channels and this one has a single user.
pub open spec fn passes_through(cfg: CoalesceSection, multi_user: bool) -> bool {
    !cfg.enabled || (cfg.multi_user_only && !multi_user)
}

impl<T> CoalesceBuffer<T> {
    /// The buffered messages, oldest first.
    pub closed spec fn pending(&self) -> Seq<T> {
        self.messages@
    }

    pub closed spec fn first_seen(&self) -> u64 {
        self.first_seen_ms
    }

    pub closed spec fn last_seen(&self) -> u64 {
        self.last_seen_ms
    }

    /// An empty buffer.
    pub fn new() -> (r: CoalesceBuffer<T>)
        ensures
            r.pending() == Seq::<T>::empty(),
    {
        CoalesceBuffer { messages: Vec::new(), first_seen_ms: 0, last_seen_ms: 0 }
    }

    /// The number of buffered messages.
    pub fn len(&self) -> (r: usize)
        ensures
            r == self.pending().len(),
    {
        self.messages.len()
    }

    /// Whether a buffer holding `msgs`, first seen at `first` and last seen
    /// at `last`, is due for dispatch at `now`.
    pub open spec fn due(cfg: CoalesceSection, msgs: Seq<T>, first: u64, last: u64, now: u64) -> bool {
        msgs.len() > 0 && (msgs.len() >= cfg.min_messages || elapsed(now, first) >= cfg.max_wait_ms
            || elapsed(now, last) >= cfg.debounce_ms)
    }

    fn take_all(&mut self) -> (r: Vec<T>)
        ensures
            r@ == old(self).pending(),
            final(self).pending() == Seq::<T>::empty(),
    {
        let mut out: Vec<T> = Vec::new();
        std::mem::swap(&mut out, &mut self.messages);
        out
    }

    /// Accepts a message that arrived at `now`.
    ///
    /// Where coalescing does not apply, the message is dispatched at once
    /// (after any messages still buffered, so that order is kept). Otherwise
    /// it is buffered, and the whole buffer is dispatched as one batch as
    /// soon as it holds `min_messages` messages or `max_wait_ms` has passed
    /// since its first message; else `None` is returned and the caller arms
    /// a timer for [`CoalesceBuffer::deadline`].
    pub fn accept(&mut self, cfg: &CoalesceSection, multi_user: bool, msg: T, now: u64) -> (r:
        Option<Vec<T>>)
        ensures
            ({
                let all = old(self).pending().push(msg);
                let first = if old(self).pending().len() == 0 {
                    now
                } else {
                    old(self).first_seen()
                };
                if passes_through(*cfg, multi_user) || all.len() >= cfg.min_messages || elapsed(
                    now,
                    first,
                ) >= cfg.max_wait_ms {
                    r matches Some(batch) && batch@ == all && final(self).pending()
                        == Seq::<T>::empty()
                } else {
                    r is None && final(self).pending() == all && final(self).first_seen() == first
                        && final(self).last_seen() == now
                }
            }),
    {
        if self.messages.len() == 0 {
            self.first_seen_ms = now;
        }
        self.last_seen_ms = now;
        self.messages.push(msg);
        let bypass = !cfg.enabled || (cfg.multi_user_only && !multi_user);
        if bypass || self.messages.len() >= cfg.min_messages || elapsed_since(now, self.first_seen_ms)
            >= cfg.max_wait_ms {
            Some(self.take_all())
        } else {
            None
        }
    }

    /// The time at which the buffer is due if no further message arrives:
    /// `debounce_ms` after the last message or `max_wait_ms` after the first,
    /// whichever is earlier. `None` when nothing is buffered.
    pub fn deadline(&self, cfg: &CoalesceSection) -> (r: Option<u64>)
        ensures
            self.pending().len() == 0 ==> r is None,
            self.pending().len() > 0 ==> r == Some(
                if sat_add(self.last_seen(), cfg.debounce_ms) <= sat_add(self.first_seen(), cfg.max_wait_ms) {
                    sat_add(self.last_seen(), cfg.debounce_ms)
                } else {
                    sat_add(self.first_seen(), cfg.max_wait_ms)
                },
            ),
    {
        if self.messages.len() == 0 {
            return None;
        }
        let by_debounce = saturating_add(self.last_seen_ms, cfg.debounce_ms);
        let by_max_wait = saturating_add(self.first_seen_ms, cfg.max_wait_ms);
        if by_debounce <= by_max_wait {
            Some(by_debounce)
        } else {
            Some(by_max_wait)
        }
    }

    /// Timer check at `now`: dispatches the buffer as one batch when it is
    /// due, and otherwise leaves it as it is.
    pub fn poll(&mut self, cfg: &CoalesceSection, now: u64) -> (r: Option<Vec<T>>)
        ensures
            Self::due(*cfg, old(self).pending(), old(self).first_seen(), old(self).last_seen(), now)
                ==> (r matches Some(batch) && batch@ == old(self).pending() && final(self).pending()
                == Seq::<T>::empty()),
            !Self::due(*cfg, old(self).pending(), old(self).first_seen(), old(self).last_seen(), now)
                ==> (r is None && final(self).pending() == old(self).pending()
                && final(self).first_seen() == old(self).first_seen()
                && final(self).last_seen() == old(self).last_seen()),
    {
        let n = self.messages.len();
        if n > 0 && (n >= cfg.min_messages || elapsed_since(now, self.first_seen_ms) >= cfg.max_wait_ms
            || elapsed_since(now, self.last_seen_ms) >= cfg.debounce_ms) {
            Some(self.take_all())
        } else {
            None
        }
    }
}

} // verus!
