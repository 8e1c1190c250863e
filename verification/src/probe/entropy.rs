//! Byte statistics for the Shannon-entropy probe. The entropy itself is a
//! floating-point computation made outside the library; the histogram it is
//! computed from is made and proved here.

use vstd::prelude::*;

verus! {

/// The fewest bytes the probe computes an entropy for.
pub const MIN_BYTES: usize = 8;

/// How many times `v` occurs in `data`.
pub open spec fn occurrences(data: Seq<u8>, v: u8) -> nat
    decreases data.len(),
{
    if data.len() == 0 {
        0
    } else {
        occurrences(data.drop_last(), v) + (if data.last() == v { 1nat } else { 0nat })
    }
}

/// The occurrences of all byte values below `n`, added up.
pub open spec fn occurrences_below(data: Seq<u8>, n: nat) -> nat
    decreases n,
{
    if n == 0 {
        0
    } else {
        occurrences_below(data, (n - 1) as nat) + occurrences(data, (n - 1) as u8)
    }
}

proof fn lemma_occurrences_below_step(data: Seq<u8>, n: nat)
    requires
        data.len() > 0,
        n <= 256,
    ensures
        occurrences_below(data, n) == occurrences_below(data.drop_last(), n) + (if data.last() < n {
            1nat
        } else {
            0nat
        }),
    decreases n,
{
    if n > 0 {
        lemma_occurrences_below_step(data, (n - 1) as nat);
    }
}

/// Law: every byte is counted once: the occurrences of all 256 byte values add
/// up to the length of the data.
pub proof fn lemma_occurrences_total(data: Seq<u8>)
    ensures
        occurrences_below(data, 256) == data.len(),
    decreases data.len(),
{
    if data.len() == 0 {
        lemma_occurrences_below_empty(data, 256);
    } else {
        lemma_occurrences_total(data.drop_last());
        lemma_occurrences_below_step(data, 256);
    }
}

proof fn lemma_occurrences_below_empty(data: Seq<u8>, n: nat)
    requires
        data.len() == 0,
    ensures
        occurrences_below(data, n) == 0,
    decreases n,
{
    if n > 0 {
        lemma_occurrences_below_empty(data, (n - 1) as nat);
    }
}

/// Law: the occurrences in two pieces of data put together add up.
pub proof fn lemma_occurrences_concat(a: Seq<u8>, b: Seq<u8>, v: u8)
    ensures
        occurrences(a + b, v) == occurrences(a, v) + occurrences(b, v),
    decreases b.len(),
{
    if b.len() == 0 {
        assert(a + b =~= a);
    } else {
        lemma_occurrences_concat(a, b.drop_last(), v);
        assert((a + b).drop_last() =~= a + b.drop_last());
    }
}

/// Law: one byte on its own occurs once, as itself.
pub proof fn lemma_occurrences_single(x: u8, v: u8)
    ensures
        occurrences(seq![x], v) == (if x == v { 1nat } else { 0nat }),
{
    assert(seq![x].drop_last() =~= Seq::<u8>::empty());
    assert(occurrences(Seq::<u8>::empty(), v) == 0);
    assert(seq![x].last() == x);
}

/// A value occurs in `data` exactly when `data` contains it.
proof fn lemma_occurs_iff_contains(data: Seq<u8>, v: u8)
    ensures
        occurrences(data, v) > 0 <==> data.contains(v),
    decreases data.len(),
{
    if data.len() > 0 {
        let p = data.drop_last();
        lemma_occurs_iff_contains(p, v);
        if p.contains(v) {
            let i = choose|i: int| 0 <= i < p.len() && p[i] == v;
            assert(data[i] == v);
        }
        if data.contains(v) && data.last() != v {
            let i = choose|i: int| 0 <= i < data.len() && data[i] == v;
            assert(i < data.len() - 1);
            assert(p[i] == v);
        }
        if data.last() == v {
            assert(data[data.len() - 1] == v);
        }
    }
}

/// The byte values below `i` whose count is not zero.
spec fn counted_below(counts: Seq<u32>, i: int) -> Set<u8> {
    Set::new(|v: u8| (v as int) < i && counts[v as int] > 0)
}

proof fn lemma_distinct_count_is_set_len(counts: Seq<u32>, i: int)
    requires
        0 <= i <= counts.len(),
        counts.len() == 256,
    ensures
        counted_below(counts, i).finite(),
        distinct_count(counts.take(i)) == counted_below(counts, i).len(),
    decreases i,
{
    if i == 0 {
        assert(counted_below(counts, 0) =~= Set::<u8>::empty());
        assert(counts.take(0) =~= Seq::<u32>::empty());
    } else {
        lemma_distinct_count_is_set_len(counts, i - 1);
        assert(counts.take(i).drop_last() =~= counts.take(i - 1));
        let prev = counted_below(counts, i - 1);
        let v = (i - 1) as u8;
        assert(v as int == i - 1);
        assert(!prev.contains(v));
        if counts[i - 1] > 0 {
            assert(counted_below(counts, i) =~= prev.insert(v));
        } else {
            assert(counted_below(counts, i) =~= prev);
        }
    }
}

/// Law: the number of distinct byte values counted in a histogram of `data` is
/// the number of distinct bytes in `data`.
pub proof fn lemma_distinct_count_is_distinct_bytes(data: Seq<u8>, counts: Seq<u32>)
    requires
        counts.len() == 256,
        forall|v: u8| #[trigger] counts[v as int] == occurrences(data, v),
    ensures
        distinct_count(counts) == data.to_set().len(),
{
    lemma_distinct_count_is_set_len(counts, 256);
    assert(counts.take(256) =~= counts);
    assert forall|v: u8| counted_below(counts, 256).contains(v) <==> #[trigger] data.to_set().contains(v) by {
        lemma_occurs_iff_contains(data, v);
    }
    assert(counted_below(counts, 256) =~= data.to_set());
}

proof fn lemma_occurrences_prefix(data: Seq<u8>, v: u8, i: int)
    requires
        0 <= i <= data.len(),
    ensures
        occurrences(data.take(i), v) <= occurrences(data, v),
    decreases data.len(),
{
    if i < data.len() {
        assert(data.drop_last().take(i) =~= data.take(i));
        lemma_occurrences_prefix(data.drop_last(), v, i);
    } else {
        assert(data.take(i) =~= data);
    }
}

/// How many entries of `counts` are not zero.
pub open spec fn distinct_count(counts: Seq<u32>) -> nat
    decreases counts.len(),
{
    if counts.len() == 0 {
        0
    } else {
        distinct_count(counts.drop_last()) + (if counts.last() > 0 { 1nat } else { 0nat })
    }
}

proof fn lemma_distinct_count_bounded(counts: Seq<u32>)
    ensures
        distinct_count(counts) <= counts.len(),
    decreases counts.len(),
{
    if counts.len() > 0 {
        lemma_distinct_count_bounded(counts.drop_last());
    }
}

/// The histogram of `data`: entry `v` counts the bytes equal to `v`.
/// `None` exactly when some byte occurs more often than a `u32` counts.
pub fn byte_counts(data: &[u8]) -> (res: Option<Vec<u32>>)
    ensures
        res is None <==> exists|v: u8| #[trigger] occurrences(data@, v) > u32::MAX,
        res matches Some(counts) ==> {
            &&& counts@.len() == 256
            &&& forall|v: u8| #[trigger] counts@[v as int] == occurrences(data@, v)
        },
{
    let mut counts: Vec<u32> = vec![0u32; 256];
    let mut i: usize = 0;
    while i < data.len()
        invariant
            i <= data@.len(),
            counts@.len() == 256,
            forall|v: u8| #[trigger] counts@[v as int] == occurrences(data@.take(i as int), v),
        decreases data@.len() - i,
    {
        let byte = data[i];
        let idx = byte as usize;
        proof {
            assert(data@.take(i + 1).drop_last() =~= data@.take(i as int));
            lemma_occurrences_prefix(data@, byte, i + 1);
        }
        if counts[idx] == u32::MAX {
            assert(occurrences(data@, byte) > u32::MAX);
            return None;
        }
        let ghost before = counts@;
        counts.set(idx, counts[idx] + 1);
        i = i + 1;
        proof {
            assert forall|v: u8| #[trigger] counts@[v as int] == occurrences(data@.take(i as int), v) by {
                if v != byte {
                    assert(counts@[v as int] == before[v as int]);
                }
            }
        }
    }
    assert(data@.take(data@.len() as int) =~= data@);
    assert forall|v: u8| #[trigger] occurrences(data@, v) <= u32::MAX by {
        assert(counts@[v as int] == occurrences(data@, v));
    }
    Some(counts)
}

/// The integer part of an entropy measurement of a payload.
pub enum ByteProfile {
    /// Fewer than `MIN_BYTES` bytes: nothing is measured.
    TooShort,
    /// Some byte occurs more often than a `u32` counts.
    CounterOverflow,
    /// The histogram, the number of distinct byte values, and the confidence:
    /// the payload length, capped at 255.
    Measured { counts: Vec<u32>, buckets: u16, confidence: u8 },
}

/// Measures `data` for the entropy probe.
pub fn byte_profile(data: &[u8]) -> (p: ByteProfile)
    ensures
        p is TooShort <==> data@.len() < MIN_BYTES,
        p is CounterOverflow <==> data@.len() >= MIN_BYTES && exists|v: u8|
            #[trigger] occurrences(data@, v) > u32::MAX,
        p matches ByteProfile::Measured { counts, buckets, confidence } ==> {
            &&& counts@.len() == 256
            &&& forall|v: u8| #[trigger] counts@[v as int] == occurrences(data@, v)
            &&& buckets == distinct_count(counts@)
            &&& confidence == (if data@.len() < 255 { data@.len() } else { 255 })
        },
{
    if data.len() < MIN_BYTES {
        return ByteProfile::TooShort;
    }
    let counts = match byte_counts(data) {
        Some(c) => c,
        None => return ByteProfile::CounterOverflow,
    };
    let mut buckets: u16 = 0;
    let mut i: usize = 0;
    while i < 256
        invariant
            i <= 256,
            counts@.len() == 256,
            buckets == distinct_count(counts@.take(i as int)),
        decreases 256 - i,
    {
        proof {
            assert(counts@.take(i + 1).drop_last() =~= counts@.take(i as int));
            lemma_distinct_count_bounded(counts@.take(i as int));
        }
        if counts[i] > 0 {
            buckets = buckets + 1;
        }
        i = i + 1;
    }
    assert(counts@.take(256) =~= counts@);
    let confidence: u8 = if data.len() < 255 { data.len() as u8 } else { 255 };
    ByteProfile::Measured { counts, buckets, confidence }
}

} // verus!
