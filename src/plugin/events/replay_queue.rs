use vstd::prelude::*;

use crate::plugin::events::hook_chain::{HostCall, forward, forwarded};

verus! {

/// Shortest pause between two replayed entries, in milliseconds.
pub const MIN_DELAY_MS: u64 = 10;

/// Longest pause between two replayed entries, in milliseconds: the delay formula's
/// upper bound, `pacing_delay(0)`.
pub const MAX_DELAY_MS: u64 = 50;

/// A host event caught by a hook, waiting to be handed on.
pub struct Captured<H> {
    pub forward_handler: Option<H>,
    pub payload: Vec<u8>,
}

/// The pause after taking an entry from a backlog of `backlog` entries:
/// `max(10, 50 - backlog)` milliseconds.
pub open spec fn pacing_delay_spec(backlog: nat) -> nat {
    if backlog + MIN_DELAY_MS >= MAX_DELAY_MS {
        MIN_DELAY_MS as nat
    } else {
        (MAX_DELAY_MS - backlog) as nat
    }
}

/// `now + delay`, saturated at the largest timestamp.
pub open spec fn deadline(now: u64, delay: nat) -> u64 {
    if now + delay > u64::MAX {
        u64::MAX
    } else {
        (now + delay) as u64
    }
}

/// The entries after `e` is appended to `pending` in a queue of `capacity` entries:
/// when full, the oldest entry makes room.
pub open spec fn pushed<E>(pending: Seq<E>, capacity: nat, e: E) -> Seq<E> {
    if pending.len() < capacity {
        pending.push(e)
    } else {
        pending.drop_first().push(e)
    }
}

/// Whether a tick at `now` may take an entry.
pub open spec fn eligible_at(next: Option<u64>, now: u64) -> bool {
    match next {
        Some(t) => t <= now,
        None => true,
    }
}

/// The pause after taking an entry from a backlog of `backlog` entries.
pub fn pacing_delay(backlog: usize) -> (r: u64)
    ensures
        r as nat == pacing_delay_spec(backlog as nat),
{
    if backlog >= (MAX_DELAY_MS - MIN_DELAY_MS) as usize {
        MIN_DELAY_MS
    } else {
        MAX_DELAY_MS - backlog as u64
    }
}

/// A first-in first-out queue of captured events, handed on at most one per
/// tick, with a pause that shrinks as the backlog grows.
pub struct ReplayQueue<H> {
    entries: std::collections::VecDeque<Captured<H>>,
    next_time: Option<u64>,
    capacity: usize,
    dropped: u64,
}

impl<H> ReplayQueue<H> {
    /// The entries waiting, oldest first.
    pub closed spec fn pending(&self) -> Seq<Captured<H>> {
        self.entries@
    }

    /// The earliest time at which the next entry may go; none means at once.
    pub closed spec fn next_eligible(&self) -> Option<u64> {
        self.next_time
    }

    /// The most entries the queue holds.
    pub closed spec fn capacity(&self) -> nat {
        self.capacity as nat
    }

    /// How many entries were dropped to make room, saturated at `u64::MAX`.
    pub closed spec fn dropped(&self) -> nat {
        self.dropped as nat
    }

    pub closed spec fn wf(&self) -> bool {
        1 <= self.capacity && self.entries@.len() <= self.capacity
    }

    /// An empty queue with no bound but the machine's.
    pub fn new() -> (r: Self)
        ensures
            r.wf(),
            r.pending() == Seq::<Captured<H>>::empty(),
            r.next_eligible() is None,
            r.capacity() == usize::MAX as nat,
            r.dropped() == 0,
    {
        ReplayQueue {
            entries: std::collections::VecDeque::new(),
            next_time: None,
            capacity: usize::MAX,
            dropped: 0,
        }
    }

    /// An empty queue that holds at most `capacity` entries.
    pub fn bounded(capacity: usize) -> (r: Self)
        requires
            capacity >= 1,
        ensures
            r.wf(),
            r.pending() == Seq::<Captured<H>>::empty(),
            r.next_eligible() is None,
            r.capacity() == capacity as nat,
            r.dropped() == 0,
    {
        ReplayQueue {
            entries: std::collections::VecDeque::new(),
            next_time: None,
            capacity,
            dropped: 0,
        }
    }

    /// Number of entries waiting.
    pub fn len(&self) -> (r: usize)
        ensures
            r as nat == self.pending().len(),
    {
        self.entries.len()
    }

    /// Number of entries dropped to make room.
    pub fn dropped_count(&self) -> (r: u64)
        ensures
            r as nat == self.dropped(),
    {
        self.dropped
    }

    /// The earliest time at which the next entry may go; `None` means at once.
    pub fn next_eligible_time(&self) -> (r: Option<u64>)
        ensures
            r == self.next_eligible(),
    {
        self.next_time
    }

    /// Appends a captured event. When the queue is full its oldest entry is
    /// dropped, counted and returned.
    pub fn enqueue(&mut self, forward_handler: Option<H>, payload: Vec<u8>) -> (r: Option<
        Captured<H>,
    >)
        requires
            old(self).wf(),
        ensures
            final(self).wf(),
            final(self).pending() == pushed(
                old(self).pending(),
                old(self).capacity(),
                Captured { forward_handler, payload },
            ),
            final(self).capacity() == old(self).capacity(),
            final(self).next_eligible() == old(self).next_eligible(),
            old(self).pending().len() < old(self).capacity() ==> {
                &&& r is None
                &&& final(self).dropped() == old(self).dropped()
            },
            old(self).pending().len() >= old(self).capacity() ==> {
                &&& r == Some(old(self).pending()[0])
                &&& final(self).dropped() == if old(self).dropped() < u64::MAX {
                    old(self).dropped() + 1
                } else {
                    old(self).dropped()
                }
            },
    {
        let mut evicted: Option<Captured<H>> = None;
        if self.entries.len() >= self.capacity {
            evicted = self.entries.pop_front();
            if self.dropped < u64::MAX {
                self.dropped = self.dropped + 1;
            }
        }
        self.entries.push_back(Captured { forward_handler, payload });
        evicted
    }

    /// Whether a tick at `now` may take an entry.
    pub fn is_eligible(&self, now: u64) -> (r: bool)
        ensures
            r == eligible_at(self.next_eligible(), now),
    {
        match self.next_time {
            Some(t) => t <= now,
            None => true,
        }
    }

    /// One scheduler tick at `now` (milliseconds). Before the next eligible time
    /// nothing happens. Otherwise the oldest entry, if any, is taken and forwarded,
    /// and the next entry may go `pacing_delay(backlog)` later, where `backlog` is
    /// the number of entries the tick found; once the queue is empty the next tick
    /// is eligible at once.
    pub fn drain_tick(&mut self, now: u64) -> (r: Option<HostCall<H>>)
        requires
            old(self).wf(),
        ensures
            final(self).wf(),
            final(self).capacity() == old(self).capacity(),
            final(self).dropped() == old(self).dropped(),
            !eligible_at(old(self).next_eligible(), now) ==> {
                &&& r is None
                &&& final(self).pending() == old(self).pending()
                &&& final(self).next_eligible() == old(self).next_eligible()
            },
            eligible_at(old(self).next_eligible(), now) && old(self).pending().len() == 0 ==> {
                &&& r is None
                &&& final(self).pending() == old(self).pending()
                &&& final(self).next_eligible() is None
            },
            eligible_at(old(self).next_eligible(), now) && old(self).pending().len() > 0 ==> {
                &&& r == forwarded(
                    old(self).pending()[0].forward_handler,
                    old(self).pending()[0].payload,
                )
                &&& final(self).pending() == old(self).pending().drop_first()
                &&& final(self).next_eligible() == if old(self).pending().len() == 1 {
                    None
                } else {
                    Some(deadline(now, pacing_delay_spec(old(self).pending().len())))
                }
            },
    {
        if !self.is_eligible(now) {
            return None;
        }
        let backlog = self.entries.len();
        match self.entries.pop_front() {
            Some(entry) => {
                if backlog == 1 {
                    self.next_time = None;
                } else {
                    let delay = pacing_delay(backlog);
                    if now > u64::MAX - delay {
                        self.next_time = Some(u64::MAX);
                    } else {
                        self.next_time = Some(now + delay);
                    }
                }
                forward(entry.forward_handler, entry.payload)
            },
            None => {
                self.next_time = None;
                None
            },
        }
    }

    /// Drops every waiting entry without forwarding it, and makes the next tick
    /// eligible at once.
    pub fn clear(&mut self)
        requires
            old(self).wf(),
        ensures
            final(self).wf(),
            final(self).pending() == Seq::<Captured<H>>::empty(),
            final(self).next_eligible() is None,
            final(self).capacity() == old(self).capacity(),
            final(self).dropped() == old(self).dropped(),
    {
        self.entries.clear();
        self.next_time = None;
    }
}

/// The entries after each of `incoming` is appended in turn.
pub open spec fn enqueue_all<E>(pending: Seq<E>, capacity: nat, incoming: Seq<E>) -> Seq<E>
    decreases incoming.len(),
{
    if incoming.len() == 0 {
        pending
    } else {
        pushed(enqueue_all(pending, capacity, incoming.drop_last()), capacity, incoming.last())
    }
}

/// The entries left after `n` ticks that each took one entry.
pub open spec fn drain_times<E>(pending: Seq<E>, n: nat) -> Seq<E>
    decreases n,
{
    if n == 0 || pending.len() == 0 {
        pending
    } else {
        drain_times(pending.drop_first(), (n - 1) as nat)
    }
}

proof fn lemma_enqueue_all_appends<E>(pending: Seq<E>, capacity: nat, incoming: Seq<E>)
    requires
        pending.len() + incoming.len() <= capacity,
    ensures
        enqueue_all(pending, capacity, incoming) == pending + incoming,
    decreases incoming.len(),
{
    if incoming.len() > 0 {
        lemma_enqueue_all_appends(pending, capacity, incoming.drop_last());
        assert(pending + incoming.drop_last() + seq![incoming.last()] =~= pending + incoming);
    } else {
        assert(pending + incoming =~= pending);
    }
}

proof fn lemma_drain_times_skips<E>(pending: Seq<E>, n: nat)
    requires
        n <= pending.len(),
    ensures
        drain_times(pending, n) == pending.skip(n as int),
    decreases n,
{
    if n == 0 {
        assert(pending.skip(0) =~= pending);
    } else {
        lemma_drain_times_skips(pending.drop_first(), (n - 1) as nat);
        assert(pending.drop_first().skip(n - 1) =~= pending.skip(n as int));
    }
}

/// Events appended to a queue with room for them are handed on in the order in
/// which they arrived, after the entries already waiting: the tick that finds
/// `pending.len() + k` entries already taken forwards `incoming[k]`.
pub proof fn lemma_fifo_order<E>(pending: Seq<E>, capacity: nat, incoming: Seq<E>, k: nat)
    requires
        pending.len() + incoming.len() <= capacity,
        k < incoming.len(),
    ensures
        drain_times(enqueue_all(pending, capacity, incoming), pending.len() + k).len() > 0,
        drain_times(enqueue_all(pending, capacity, incoming), pending.len() + k)[0] == incoming[k as int],
{
    lemma_enqueue_all_appends(pending, capacity, incoming);
    lemma_drain_times_skips(pending + incoming, pending.len() + k);
}

/// The pause is `max(10, 50 - n)`: never under 10 ms, never growing with the
/// backlog, and strictly shrinking while it is above 10 ms.
pub proof fn lemma_pacing_monotonic(n: nat, m: nat)
    requires
        n < m,
    ensures
        pacing_delay_spec(n) >= MIN_DELAY_MS,
        pacing_delay_spec(m) <= pacing_delay_spec(n),
        pacing_delay_spec(n) > MIN_DELAY_MS ==> pacing_delay_spec(m) < pacing_delay_spec(n),
        pacing_delay_spec(n) == if 50 - n >= 10 { 50 - n } else { 10 },
{
}

} // verus!
