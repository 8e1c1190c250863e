//! Fixed-size ring buffer of events. The size `N` is fixed at compile time and
//! must be a power of two; the buffer holds at most `N - 1` items and, when full,
//! discards the oldest to make room for the newest.

use vstd::prelude::*;
use crate::error::VtrError;
use crate::event::kind::EventKind;
use crate::event::record::{checksum_invalid_error, EventRecord, SourceId, TsDelta};

verus! {

/// `n` is a power of two.
pub open spec fn is_pow2(n: usize) -> bool {
    n > 0 && n & ((n - 1) as usize) == 0
}

/// Masking with `n - 1` wraps an index below `2 * n` back below `n`.
proof fn lemma_mask_wraps(x: usize, n: usize)
    requires
        is_pow2(n),
        x < 2 * n,
    ensures
        x & ((n - 1) as usize) == (if x < n { x } else { (x - n) as usize }),
{
    assert(x & ((n - 1) as usize) == (if x < n { x } else { (x - n) as usize })) by (bit_vector)
        requires
            n > 0,
            n & ((n - 1) as usize) == 0,
            x < 2 * n,
    ;
}

/// A power of two fits twice into the index range, less one.
proof fn lemma_pow2_bound(n: usize)
    requires
        is_pow2(n),
    ensures
        2 * n - 1 <= usize::MAX,
{
    let m = (n - 1) as usize;
    assert(n + m == n | m) by (bit_vector)
        requires
            n > 0,
            m == (n - 1) as usize,
            n & m == 0,
    ;
}

/// The index `x` wrapped once around a ring of size `n`.
pub open spec fn wrap(x: int, n: int) -> int {
    if x < n {
        x
    } else {
        x - n
    }
}

/// The items after pushing `item` onto `items` in a buffer of capacity `cap`:
/// when full, the oldest item makes room.
pub open spec fn spec_push<T>(items: Seq<T>, item: T, cap: nat) -> Seq<T> {
    if items.len() == cap {
        items.drop_first().push(item)
    } else {
        items.push(item)
    }
}

/// The items after pushing each of `items`, in order, onto `start`.
pub open spec fn spec_push_all<T>(start: Seq<T>, items: Seq<T>, cap: nat) -> Seq<T>
    decreases items.len(),
{
    if items.len() == 0 {
        start
    } else {
        spec_push(spec_push_all(start, items.drop_last(), cap), items.last(), cap)
    }
}

/// Law: a buffer that starts empty always holds the newest `cap` items that
/// were pushed, oldest first; while no more than `cap` were pushed it holds
/// them all, in the order they arrived.
pub proof fn lemma_keeps_newest_in_order<T>(items: Seq<T>, cap: nat)
    requires
        cap > 0,
    ensures
        items.len() <= cap ==> spec_push_all(Seq::<T>::empty(), items, cap) == items,
        items.len() > cap ==> spec_push_all(Seq::<T>::empty(), items, cap) == items.skip(
            items.len() - cap,
        ),
    decreases items.len(),
{
    if items.len() > 0 {
        let prefix = items.drop_last();
        lemma_keeps_newest_in_order(prefix, cap);
        let before = spec_push_all(Seq::<T>::empty(), prefix, cap);
        if prefix.len() < cap {
            assert(before.push(items.last()) =~= items);
        } else {
            assert(before.len() == cap);
            assert(before.drop_first().push(items.last()) =~= items.skip(items.len() - cap));
        }
    }
}

/// Law: a push never lets the buffer grow past its capacity, always stores the
/// new item last, and discards at most the single oldest item.
pub proof fn lemma_push_bounded<T>(items: Seq<T>, item: T, cap: nat)
    requires
        items.len() <= cap,
        cap > 0,
    ensures
        spec_push(items, item, cap).len() <= cap,
        spec_push(items, item, cap).last() == item,
        spec_push(items, item, cap) == items.push(item).skip(
            items.len() + 1 - spec_push(items, item, cap).len(),
        ),
{
    let r = spec_push(items, item, cap);
    assert(r =~= items.push(item).skip(items.len() + 1 - r.len()));
}

/// The oldest of `items`, if any, and what remains once it is removed.
pub open spec fn spec_pop<T>(items: Seq<T>) -> (Option<T>, Seq<T>) {
    if items.len() == 0 {
        (None, items)
    } else {
        (Some(items[0]), items.drop_first())
    }
}

/// The items that `k` pops take out of `items`, in the order they come out,
/// and what remains.
pub open spec fn spec_pops<T>(items: Seq<T>, k: nat) -> (Seq<T>, Seq<T>)
    decreases k,
{
    if k == 0 {
        (Seq::empty(), items)
    } else {
        let (taken, rest) = spec_pops(items, (k - 1) as nat);
        match spec_pop(rest).0 {
            Some(x) => (taken.push(x), spec_pop(rest).1),
            None => (taken, rest),
        }
    }
}

/// Law: the buffer is a queue. Popping what was pushed onto an empty buffer
/// gives it back; pushing onto a buffer that holds items and has room does
/// not change which item pops next, and pushing and popping then commute.
pub proof fn lemma_queue_laws<T>(items: Seq<T>, x: T, cap: nat)
    requires
        cap > 0,
        items.len() < cap,
    ensures
        spec_pop(spec_push(Seq::<T>::empty(), x, cap)) == (Some(x), Seq::<T>::empty()),
        items.len() > 0 ==> spec_pop(spec_push(items, x, cap)).0 == spec_pop(items).0,
        items.len() > 0 ==> spec_pop(spec_push(items, x, cap)).1 == spec_push(spec_pop(items).1, x, cap),
{
    assert(Seq::<T>::empty().push(x).drop_first() =~= Seq::<T>::empty());
    if items.len() > 0 {
        assert(items.push(x).drop_first() =~= items.drop_first().push(x));
    }
}

/// Law: taking `k` items out at once gives what `k` pops give, oldest first.
pub proof fn lemma_pops_take_oldest<T>(items: Seq<T>, k: nat)
    requires
        k <= items.len(),
    ensures
        spec_pops(items, k).0 == items.take(k as int),
        spec_pops(items, k).1 == items.skip(k as int),
    decreases k,
{
    if k > 0 {
        lemma_pops_take_oldest(items, (k - 1) as nat);
        let rest = items.skip(k - 1);
        assert(rest[0] == items[k - 1]);
        assert(items.take(k - 1).push(items[k - 1]) =~= items.take(k as int));
        assert(rest.drop_first() =~= items.skip(k as int));
    } else {
        assert(items.take(0) =~= Seq::<T>::empty());
        assert(items.skip(0) =~= items);
    }
}

/// What `push` reports.
#[derive(Debug, Clone, Copy, PartialEq, Eq, Structural)]
pub enum PushResult {
    /// The item was stored and nothing was lost.
    Stored,
    /// The buffer was full: the oldest item was discarded to store the new one.
    OldestDiscarded,
}

/// What `pop` returns.
#[derive(Debug, Clone, Copy, PartialEq, Eq)]
pub enum PopResult<T> {
    /// The oldest item, now removed.
    Record(T),
    /// The buffer held nothing.
    Empty,
}

/// A ring buffer of `N` slots holding at most `N - 1` items.
pub struct RingBuffer<T, const N: usize> where T: Copy {
    buf: [T; N],
    head: usize,
    tail: usize,
    count: usize,
}

impl<T, const N: usize> View for RingBuffer<T, N> where T: Copy {
    type V = Seq<T>;

    /// The items, oldest first.
    closed spec fn view(&self) -> Seq<T> {
        Seq::new(self.count as nat, |i: int| self.buf@[wrap(self.head + i, N as int)])
    }
}

impl<T, const N: usize> RingBuffer<T, N> where T: Copy {
    /// The buffer's internal invariant.
    pub closed spec fn wf(self) -> bool {
        &&& is_pow2(N)
        &&& self.head < N
        &&& self.tail < N
        &&& self.count < N
        &&& self.tail == wrap(self.head + self.count, N as int)
    }

    /// Law: a well-formed buffer never holds more than its capacity.
    pub proof fn lemma_within_capacity(self)
        requires
            self.wf(),
        ensures
            self@.len() <= Self::spec_capacity(),
    {
    }

    /// A well-formed buffer has a power-of-two size, at least 1.
    pub proof fn lemma_size_is_pow2(self)
        requires
            self.wf(),
        ensures
            is_pow2(N),
            N >= 1,
    {
    }

    /// The most items the buffer holds.
    pub open spec fn spec_capacity() -> nat {
        (N - 1) as nat
    }

    /// An empty buffer whose slots all hold `initial`.
    pub fn new(initial: T) -> (r: Self)
        requires
            is_pow2(N),
        ensures
            r.wf(),
            r@ == Seq::<T>::empty(),
    {
        let r = Self { buf: [initial;N], head: 0, tail: 0, count: 0 };
        assert(r@ =~= Seq::<T>::empty());
        r
    }

    pub fn capacity(&self) -> (c: usize)
        requires
            self.wf(),
        ensures
            c == Self::spec_capacity(),
    {
        N - 1
    }

    pub fn len(&self) -> (n: usize)
        requires
            self.wf(),
        ensures
            n == self@.len(),
    {
        self.count
    }

    pub fn is_empty(&self) -> (b: bool)
        requires
            self.wf(),
        ensures
            b == (self@.len() == 0),
    {
        self.count == 0
    }

    pub fn is_full(&self) -> (b: bool)
        requires
            self.wf(),
        ensures
            b == (self@.len() == Self::spec_capacity()),
    {
        self.count == N - 1
    }

    /// How full the buffer is, in percent of its capacity (100 when it has none).
    pub fn usage_pct(&self) -> (p: u8)
        requires
            self.wf(),
            self@.len() * 100 <= usize::MAX,
        ensures
            p == (if N == 1 { 100 } else { (self@.len() * 100) as int / (N - 1) as int }),
            p <= 100,
            self@.len() == Self::spec_capacity() ==> p == 100,
            self@.len() == 0 && N > 1 ==> p == 0,
    {
        if N == 1 {
            return 100;
        }
        let pct = (self.count * 100) / (N - 1);
        assert(pct <= 100) by (nonlinear_arith)
            requires
                pct == (self.count * 100) / (N - 1) as int,
                self.count <= N - 1,
                N > 1,
        ;
        assert(self.count == N - 1 ==> pct == 100) by (nonlinear_arith)
            requires
                pct == (self.count * 100) / (N - 1) as int,
                N > 1,
        ;
        let pct = if pct < 100 { pct } else { 100 };
        pct as u8
    }

    /// Appends `item`. When the buffer is full the oldest item is discarded first.
    pub fn push(&mut self, item: T) -> (res: PushResult)
        requires
            old(self).wf(),
            N > 1,
        ensures
            final(self).wf(),
            final(self)@ == spec_push(old(self)@, item, Self::spec_capacity()),
            res == (if old(self)@.len() == Self::spec_capacity() {
                PushResult::OldestDiscarded
            } else {
                PushResult::Stored
            }),
    {
        if self.is_full() {
            proof {
                lemma_mask_wraps((self.head + 1) as usize, N);
            }
            self.head = (self.head + 1) & (N - 1);
            self.count = self.count - 1;
            let ghost mid = *self;
            assert(mid@ =~= old(self)@.drop_first());
            self.buf[self.tail] = item;
            proof {
                lemma_mask_wraps((self.tail + 1) as usize, N);
            }
            self.tail = (self.tail + 1) & (N - 1);
            self.count = self.count + 1;
            assert(self@ =~= mid@.push(item));
            PushResult::OldestDiscarded
        } else {
            self.buf[self.tail] = item;
            proof {
                lemma_mask_wraps((self.tail + 1) as usize, N);
            }
            self.tail = (self.tail + 1) & (N - 1);
            self.count = self.count + 1;
            assert(self@ =~= old(self)@.push(item));
            PushResult::Stored
        }
    }

    /// Removes and returns the oldest item.
    pub fn pop(&mut self) -> (res: PopResult<T>)
        requires
            old(self).wf(),
        ensures
            final(self).wf(),
            old(self)@.len() == 0 ==> res == PopResult::<T>::Empty && final(self)@ == old(self)@,
            old(self)@.len() > 0 ==> {
                &&& res == PopResult::Record(old(self)@[0])
                &&& final(self)@ == old(self)@.drop_first()
            },
            res == (match spec_pop(old(self)@).0 {
                Some(x) => PopResult::Record(x),
                None => PopResult::Empty,
            }),
            final(self)@ == spec_pop(old(self)@).1,
    {
        if self.is_empty() {
            return PopResult::Empty;
        }
        let item = self.buf[self.head];
        proof {
            lemma_mask_wraps((self.head + 1) as usize, N);
        }
        self.head = (self.head + 1) & (N - 1);
        self.count = self.count - 1;
        assert(self@ =~= old(self)@.drop_first());
        PopResult::Record(item)
    }

    /// Moves the oldest items, as many as fit, to the front of `dst`; returns how many.
    pub fn drain_into(&mut self, dst: &mut [T]) -> (n: usize)
        requires
            old(self).wf(),
        ensures
            final(self).wf(),
            n == (if old(self)@.len() < old(dst)@.len() { old(self)@.len() } else { old(dst)@.len() }),
            final(dst)@ == old(self)@.take(n as int) + old(dst)@.skip(n as int),
            final(self)@ == old(self)@.skip(n as int),
            final(dst)@.take(n as int) == spec_pops(old(self)@, n as nat).0,
            final(self)@ == spec_pops(old(self)@, n as nat).1,
    {
        let to_copy = if self.count < dst.len() { self.count } else { dst.len() };
        let mut i: usize = 0;
        while i < to_copy
            invariant
                self.wf(),
                *self == *old(self),
                to_copy <= self@.len(),
                to_copy <= dst@.len(),
                dst@.len() == old(dst)@.len(),
                i <= to_copy,
                dst@ == old(self)@.take(i as int) + old(dst)@.skip(i as int),
            decreases to_copy - i,
        {
            proof {
                lemma_pow2_bound(N);
                lemma_mask_wraps((self.head + i) as usize, N);
            }
            let idx = (self.head + i) & (N - 1);
            dst[i] = self.buf[idx];
            i = i + 1;
            assert(dst@ =~= old(self)@.take(i as int) + old(dst)@.skip(i as int));
        }
        proof {
            lemma_pow2_bound(N);
            lemma_mask_wraps((self.head + to_copy) as usize, N);
        }
        self.head = (self.head + to_copy) & (N - 1);
        self.count = self.count - to_copy;
        assert(self@ =~= old(self)@.skip(to_copy as int));
        proof {
            lemma_pops_take_oldest(old(self)@, to_copy as nat);
            assert(dst@.take(to_copy as int) =~= old(self)@.take(to_copy as int));
        }
        to_copy
    }

    /// Empties the buffer and refills every slot with `initial`.
    pub fn reset(&mut self, initial: T)
        requires
            old(self).wf(),
        ensures
            final(self).wf(),
            final(self)@ == Seq::<T>::empty(),
    {
        self.buf = [initial;N];
        self.head = 0;
        self.tail = 0;
        self.count = 0;
        assert(self@ =~= Seq::<T>::empty());
    }
}

/// The sentinel's event buffer: 2048 slots of 16-byte records, 32 KiB in all.
pub type EventRingBuffer = RingBuffer<EventRecord, 2048>;

impl RingBuffer<EventRecord, 2048> {
    /// An empty event buffer whose slots hold the sentinel's start-up record.
    pub fn for_sentinel() -> (r: Self)
        ensures
            r.wf(),
            r@ == Seq::<EventRecord>::empty(),
    {
        let genesis = EventRecord::new(
            EventKind::SentinelStarted,
            EventKind::SentinelStarted.default_severity(),
            SourceId::system(),
            0,
            TsDelta::genesis(),
        );
        assert(2048usize & 2047usize == 0) by (bit_vector);
        Self::new(genesis)
    }

    /// Stores `record` only if its checksum holds; the buffer is unchanged otherwise.
    pub fn push_verified(&mut self, record: EventRecord) -> (res: Result<PushResult, VtrError>)
        requires
            old(self).wf(),
        ensures
            final(self).wf(),
            res is Ok <==> record.spec_checksum_valid(),
            res matches Err(e) ==> e == checksum_invalid_error() && final(self)@ == old(self)@,
            res matches Ok(p) ==> {
                &&& final(self)@ == spec_push(old(self)@, record, Self::spec_capacity())
                &&& p == (if old(self)@.len() == Self::spec_capacity() {
                    PushResult::OldestDiscarded
                } else {
                    PushResult::Stored
                })
            },
    {
        match record.verify() {
            Ok(()) => Ok(self.push(record)),
            Err(e) => Err(e),
        }
    }
}

} // verus!
