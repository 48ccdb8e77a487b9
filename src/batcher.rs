use vstd::prelude::*;

verus! {

/// Milliseconds from `opened` to `now`; zero for a `now` before `opened`.
pub open spec fn elapsed(opened: u64, now: u64) -> int {
    if now >= opened { now - opened } else { 0 }
}

/// Whether a batch of `len` records, opened at `opened`, is flushed at `now`:
/// it is full, or it has waited `max_wait` or longer.
pub open spec fn flush_due(len: int, opened: u64, now: u64, max_size: int, max_wait: u64) -> bool {
    len == max_size || elapsed(opened, now) >= max_wait
}

/// What `push` of `item` at `now` does: the item joins the batch, which is
/// handed back when full or when it has waited `max_wait` since its first
/// item; no batch handed back exceeds the size bound.
pub open spec fn pushed<T>(b0: Batcher<T>, item: T, now: u64, b1: Batcher<T>, r: Option<Vec<T>>) -> bool {
    let s = b0.pending().push(item);
    let opened = match b0.opened_at() {
        Some(t) => t,
        None => now,
    };
    &&& b1.wf()
    &&& b1.size_bound() == b0.size_bound()
    &&& b1.wait_bound() == b0.wait_bound()
    &&& r matches Some(v) ==> 1 <= v@.len() <= b0.size_bound()
    &&& if flush_due(s.len() as int, opened, now, b0.size_bound(), b0.wait_bound()) {
        &&& r matches Some(v) && v@ == s
        &&& b1.pending() == Seq::<T>::empty()
        &&& b1.opened_at() is None
    } else {
        &&& r is None
        &&& b1.pending() == s
        &&& b1.opened_at() == Some(opened)
    }
}

/// What `poll` at `now` does: the open batch is handed back when it has
/// waited `max_wait` or longer; otherwise nothing changes.
pub open spec fn polled<T>(b0: Batcher<T>, now: u64, b1: Batcher<T>, r: Option<Vec<T>>) -> bool {
    &&& b1.wf()
    &&& b1.size_bound() == b0.size_bound()
    &&& b1.wait_bound() == b0.wait_bound()
    &&& match b0.opened_at() {
        Some(t) if elapsed(t, now) >= b0.wait_bound() => {
            &&& r matches Some(v) && v@ == b0.pending()
            &&& b1.pending() == Seq::<T>::empty()
            &&& b1.opened_at() is None
        },
        _ => {
            &&& r is None
            &&& b1.pending() == b0.pending()
            &&& b1.opened_at() == b0.opened_at()
        },
    }
}

/// What `close` does: the open batch, if any, is handed back.
pub open spec fn closed_out<T>(b0: Batcher<T>, b1: Batcher<T>, r: Option<Vec<T>>) -> bool {
    &&& b1.wf()
    &&& b1.pending() == Seq::<T>::empty()
    &&& b1.opened_at() is None
    &&& b1.size_bound() == b0.size_bound()
    &&& b1.wait_bound() == b0.wait_bound()
    &&& b0.pending().len() == 0 ==> r is None
    &&& b0.pending().len() > 0 ==> (r matches Some(v) && v@ == b0.pending())
}

/// What the consumer of the queue learns while it waits.
pub enum Event<T> {
    /// A record arrived.
    Received(T),
    /// Every producer is gone: no record will arrive.
    Closed,
    /// The wait for the open batch's deadline ran out.
    TimedOut,
}

/// Groups items into batches bounded by a count and by the time since the
/// first item of the batch arrived. Times are milliseconds on a clock of the
/// caller's choice.
pub struct Batcher<T> {
    items: Vec<T>,
    opened: Option<u64>,
    max_size: usize,
    max_wait: u64,
}

impl<T> Batcher<T> {
    /// The items of the batch being filled.
    pub closed spec fn pending(&self) -> Seq<T> {
        self.items@
    }

    /// When the first item of the open batch arrived; `None` when no batch
    /// is open.
    pub closed spec fn opened_at(&self) -> Option<u64> {
        self.opened
    }

    pub closed spec fn size_bound(&self) -> int {
        self.max_size as int
    }

    pub closed spec fn wait_bound(&self) -> u64 {
        self.max_wait
    }

    /// The open batch is below the size bound, and a batch is open exactly
    /// when it holds an item.
    pub closed spec fn wf(&self) -> bool {
        &&& self.max_size > 0
        &&& self.items@.len() < self.max_size
        &&& (self.items@.len() == 0 <==> self.opened is None)
    }

    /// A batcher with no batch open.
    pub fn new(max_size: usize, max_wait: u64) -> (r: Batcher<T>)
        requires
            max_size > 0,
        ensures
            r.wf(),
            r.pending() == Seq::<T>::empty(),
            r.opened_at() is None,
            r.size_bound() == max_size as int,
            r.wait_bound() == max_wait,
    {
        Batcher { items: Vec::new(), opened: None, max_size, max_wait }
    }

    pub fn max_size(&self) -> (r: usize)
        ensures
            r as int == self.size_bound(),
    {
        self.max_size
    }

    pub fn max_wait(&self) -> (r: u64)
        ensures
            r == self.wait_bound(),
    {
        self.max_wait
    }

    /// How many items wait in the open batch.
    pub fn len(&self) -> (r: usize)
        ensures
            r as int == self.pending().len(),
    {
        self.items.len()
    }

    fn take_batch(&mut self) -> (r: Vec<T>)
        ensures
            r@ == old(self).items@,
            final(self).items@ == Seq::<T>::empty(),
            final(self).opened is None,
            final(self).max_size == old(self).max_size,
            final(self).max_wait == old(self).max_wait,
    {
        let mut out: Vec<T> = Vec::new();
        std::mem::swap(&mut out, &mut self.items);
        self.opened = None;
        out
    }

    /// Adds `item`, received at `now`. The batch is handed back when it is
    /// full or has waited `max_wait` since its first item.
    pub fn push(&mut self, item: T, now: u64) -> (r: Option<Vec<T>>)
        requires
            old(self).wf(),
        ensures
            pushed(*old(self), item, now, *final(self), r),
    {
        let opened: u64 = match self.opened {
            Some(t) => t,
            None => now,
        };
        self.items.push(item);
        self.opened = Some(opened);
        let waited: u64 = if now >= opened { now - opened } else { 0 };
        if self.items.len() == self.max_size || waited >= self.max_wait {
            Some(self.take_batch())
        } else {
            None
        }
    }

    /// Hands back the open batch when it has waited `max_wait` or longer at
    /// `now`.
    pub fn poll(&mut self, now: u64) -> (r: Option<Vec<T>>)
        requires
            old(self).wf(),
        ensures
            polled(*old(self), now, *final(self), r),
    {
        match self.opened {
            Some(t) => {
                let waited: u64 = if now >= t { now - t } else { 0 };
                if waited >= self.max_wait {
                    Some(self.take_batch())
                } else {
                    None
                }
            },
            None => None,
        }
    }

    /// How long, from `now`, the open batch may still wait; `None` when no
    /// batch is open, so that the caller may wait for the next item without
    /// a bound.
    pub fn remaining(&self, now: u64) -> (r: Option<u64>)
        requires
            self.wf(),
        ensures
            match self.opened_at() {
                Some(t) => r == Some(
                    (if elapsed(t, now) >= self.wait_bound() { 0 } else { self.wait_bound() - elapsed(t, now) }) as u64,
                ),
                None => r is None,
            },
            r matches Some(w) ==> w <= self.wait_bound(),
    {
        match self.opened {
            Some(t) => {
                let waited: u64 = if now >= t { now - t } else { 0 };
                if waited >= self.max_wait {
                    Some(0)
                } else {
                    Some(self.max_wait - waited)
                }
            },
            None => None,
        }
    }

    /// Handles one event at `now`: returns the batch to deliver, if any, and
    /// whether the consumer stops.
    pub fn step(&mut self, event: Event<T>, now: u64) -> (r: (Option<Vec<T>>, bool))
        requires
            old(self).wf(),
        ensures
            match event {
                Event::Received(item) => pushed(*old(self), item, now, *final(self), r.0) && !r.1,
                Event::Closed => closed_out(*old(self), *final(self), r.0) && r.1,
                Event::TimedOut => polled(*old(self), now, *final(self), r.0) && !r.1,
            },
    {
        match event {
            Event::Received(item) => (self.push(item, now), false),
            Event::Closed => (self.close(), true),
            Event::TimedOut => (self.poll(now), false),
        }
    }

    /// Hands back the open batch, if any, for a last delivery.
    pub fn close(&mut self) -> (r: Option<Vec<T>>)
        requires
            old(self).wf(),
        ensures
            closed_out(*old(self), *final(self), r),
    {
        if self.items.len() == 0 {
            assert(self.items@ =~= Seq::<T>::empty());
            None
        } else {
            Some(self.take_batch())
        }
    }
}

/// The batch a batcher holds stays below its size bound, and is open
/// exactly while it holds an item; so no batch handed back exceeds the bound.
pub proof fn lemma_batch_bounds<T>(b: &Batcher<T>)
    requires
        b.wf(),
    ensures
        b.pending().len() < b.size_bound(),
        b.pending().len() > 0 <==> b.opened_at() is Some,
{
}

/// A batch opened at `t` is handed back by a poll at any time `now` at least
/// `max_wait` after `t`: no batch waits longer than that.
pub proof fn lemma_no_batch_waits_past_bound(len: int, t: u64, now: u64, max_size: int, max_wait: u64)
    requires
        0 < len <= max_size,
        now >= t,
        now - t >= max_wait,
    ensures
        flush_due(len, t, now, max_size, max_wait),
{
}

/// Once a batch is handed back, the batcher keeps nothing of it: it is left
/// as a new batcher with the same bounds. Whether that batch is delivered,
/// or fails and is dropped, has no bearing on the next batch, which is
/// assembled from later items alone.
pub proof fn lemma_handed_back_batch_is_released<T>(b0: Batcher<T>, item: T, now: u64, b1: Batcher<T>, v: Vec<T>)
    requires
        b0.wf(),
        pushed(b0, item, now, b1, Some(v)) || polled(b0, now, b1, Some(v)),
    ensures
        b1.wf(),
        b1.pending() == Seq::<T>::empty(),
        b1.opened_at() is None,
        b1.size_bound() == b0.size_bound(),
        b1.wait_bound() == b0.wait_bound(),
{
}

/// Two batchers in the same state that receive the same item at the same
/// time hand back the same batch and stay in the same state: the next batch
/// depends only on the state and the items, never on deliveries.
pub proof fn lemma_push_determined<T>(
    b0: Batcher<T>,
    c0: Batcher<T>,
    item: T,
    now: u64,
    b1: Batcher<T>,
    c1: Batcher<T>,
    r: Option<Vec<T>>,
    s: Option<Vec<T>>,
)
    requires
        b0.pending() == c0.pending(),
        b0.opened_at() == c0.opened_at(),
        b0.size_bound() == c0.size_bound(),
        b0.wait_bound() == c0.wait_bound(),
        pushed(b0, item, now, b1, r),
        pushed(c0, item, now, c1, s),
    ensures
        b1.pending() == c1.pending(),
        b1.opened_at() == c1.opened_at(),
        r is Some <==> s is Some,
        r matches Some(x) ==> (s matches Some(y) && x@ == y@),
{
}

} // verus!
