//! Coalescing of scroll events.
//!
//! A scroll event may arrive many times per frame, while reading the scroll
//! position back is asynchronous (a query of the mounted element, or an
//! animation frame). The throttle keeps at most one such read in flight: a
//! scroll event starts a read only when none is pending, and the read's
//! completion re-arms the throttle.
use vstd::prelude::*;

verus! {

/// Whether a scroll event starts a new position read: only when none is
/// pending and a read can be started at all.
pub open spec fn scroll_starts_read(pending: bool, can_read: bool) -> bool {
    !pending && can_read
}

/// Whether a read is pending after a scroll event.
pub open spec fn pending_after_scroll(pending: bool, can_read: bool) -> bool {
    pending || can_read
}

/// Decision state for coalescing scroll events: whether a position read is
/// in flight.
pub struct ScrollThrottle {
    pending: bool,
}

impl View for ScrollThrottle {
    type V = bool;

    /// `true` while a position read is in flight.
    closed spec fn view(&self) -> bool {
        self.pending
    }
}

impl ScrollThrottle {
    /// A throttle with no read in flight.
    pub fn new() -> (throttle: ScrollThrottle)
        ensures
            !throttle@,
    {
        ScrollThrottle { pending: false }
    }

    /// Whether a position read is in flight.
    pub fn is_pending(&self) -> (pending: bool)
        ensures
            pending == self@,
    {
        self.pending
    }

    /// Handles a scroll event. `can_read` tells whether a read can be started
    /// now (the element to query is known). Returns whether the caller is to
    /// start a read; the throttle then counts it as pending.
    pub fn on_scroll(&mut self, can_read: bool) -> (start_read: bool)
        ensures
            start_read == scroll_starts_read(old(self)@, can_read),
            final(self)@ == pending_after_scroll(old(self)@, can_read),
    {
        if self.pending {
            return false;
        }
        if can_read {
            self.pending = true;
            true
        } else {
            false
        }
    }

    /// Records that the pending read has completed (or been abandoned), so
    /// that the next scroll event may start another.
    pub fn settle(&mut self)
        ensures
            !final(self)@,
    {
        self.pending = false;
    }
}

/// At most one read is in flight: while one is pending, no scroll event
/// starts another and the read stays pending; in particular, right after a
/// scroll event started a read, the next scroll event starts none.
pub proof fn lemma_one_read_in_flight(pending: bool, can_read: bool, next_can_read: bool)
    ensures
        pending ==> !scroll_starts_read(pending, can_read),
        pending ==> pending_after_scroll(pending, can_read),
        scroll_starts_read(pending, can_read) ==> !scroll_starts_read(
            pending_after_scroll(pending, can_read),
            next_can_read,
        ),
{
}

/// Scroll events are not lost for good: once the pending read has settled,
/// the next scroll event that can read starts one; a scroll event that cannot
/// read leaves an idle throttle idle, so a later event may still read.
pub proof fn lemma_settled_throttle_reads_again(can_read: bool)
    ensures
        scroll_starts_read(false, can_read) == can_read,
        pending_after_scroll(false, can_read) == can_read,
{
}

/// A scroll event starts a read exactly when none is pending and one can be
/// started; afterwards a read is pending exactly when one already was or one
/// was just started.
pub proof fn lemma_scroll_decision(pending: bool, can_read: bool)
    ensures
        scroll_starts_read(pending, can_read) == (!pending && can_read),
        pending_after_scroll(pending, can_read) == (pending || scroll_starts_read(pending, can_read)),
{
}

} // verus!
