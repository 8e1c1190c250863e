//! The decisions of the sentinel's event loop: every record read goes into the
//! ring buffer and is sealed into the custody chain; an overflow of the ring is
//! itself recorded. The loop that reads and prints runs outside the library.

use vstd::prelude::*;
use crate::custody::chain::{seal_view, ChainView, CustodyBlock, CustodyChain};
use crate::error::{ErrorSeverity, VtrError};
use crate::event::kind::EventKind;
use crate::event::record::{EventRecord, TsDelta};
use crate::ring::buffer::{spec_push, EventRingBuffer, PushResult};

verus! {

/// The state of a running sentinel.
pub struct Sentinel {
    ring: EventRingBuffer,
    chain: CustodyChain,
}

/// The capacity of the sentinel's ring.
pub open spec fn ring_capacity() -> nat {
    2047
}

/// The ring after storing `record`: when that discards the oldest, an overflow
/// marker goes in after it.
pub open spec fn ring_after_ingest(items: Seq<EventRecord>, record: EventRecord, marker: EventRecord) -> Seq<
    EventRecord,
> {
    let stored = spec_push(items, record, ring_capacity());
    if items.len() == ring_capacity() {
        spec_push(stored, marker, ring_capacity())
    } else {
        stored
    }
}

/// The record that marks an overflow of the ring.
pub open spec fn is_overflow_marker(r: EventRecord) -> bool {
    &&& r.spec_kind() == EventKind::RingBufferOverflow.spec_code()
    &&& r.spec_severity() == EventKind::RingBufferOverflow.spec_default_severity().spec_code()
    &&& r.spec_source_id() == 0
    &&& r.spec_pid() == 0
    &&& r.spec_ts_delta() == 0
    &&& r.spec_checksum_valid()
}

/// The record that marks the start of the sentinel.
pub open spec fn is_start_marker(r: EventRecord) -> bool {
    &&& r.spec_kind() == EventKind::SentinelStarted.spec_code()
    &&& r.spec_severity() == EventKind::SentinelStarted.spec_default_severity().spec_code()
    &&& r.spec_source_id() == 0
    &&& r.spec_pid() == 0
    &&& r.spec_ts_delta() == 0
    &&& r.spec_checksum_valid()
}

impl Sentinel {
    pub closed spec fn wf(self) -> bool {
        self.ring.wf()
    }

    /// The buffered records, oldest first.
    pub closed spec fn ring_view(self) -> Seq<EventRecord> {
        self.ring@
    }

    /// The state of the custody chain.
    pub closed spec fn chain_view(self) -> ChainView {
        self.chain@
    }

    /// Starts a sentinel: its start record is buffered and sealed as the first block.
    pub fn start() -> (res: (Self, CustodyBlock))
        ensures
            res.0.wf(),
            is_start_marker(res.1.record),
            res.0.ring_view() == seq![res.1.record],
            res.1.seq == 0,
            res.1.prev_hash@ == crate::custody::chain::GENESIS_HASH@,
            res.0.chain_view() == seal_view(
                ChainView { seq: 0, prev_hash: crate::custody::chain::GENESIS_HASH@ },
                res.1.record,
            ),
            res.1.hash@ == res.0.chain_view().prev_hash,
    {
        let mut ring = EventRingBuffer::for_sentinel();
        let mut chain = CustodyChain::new();
        let genesis = EventRecord::system_event(EventKind::SentinelStarted, TsDelta::genesis());
        let _ = ring.push(genesis);
        assert(ring@ =~= seq![genesis]);
        let block = chain.seal(&genesis).unwrap();
        (Sentinel { ring, chain }, block)
    }

    /// Buffers and seals one record read from the device.
    pub fn ingest(&mut self, record: EventRecord) -> (b: CustodyBlock)
        requires
            old(self).wf(),
        ensures
            final(self).wf(),
            exists|marker: EventRecord| #[trigger] is_overflow_marker(marker)
                && final(self).ring_view() == ring_after_ingest(old(self).ring_view(), record, marker),
            final(self).chain_view() == seal_view(old(self).chain_view(), record),
            b.record == record,
            b.seq == old(self).chain_view().seq,
            b.prev_hash@ == old(self).chain_view().prev_hash,
            b.hash@ == final(self).chain_view().prev_hash,
            old(self).ring_view().len() < ring_capacity() ==> final(self).ring_view()
                == old(self).ring_view().push(record),
            old(self).ring_view().len() == ring_capacity() ==> {
                &&& final(self).ring_view().len() == ring_capacity()
                &&& final(self).ring_view()[ring_capacity() - 2] == record
                &&& is_overflow_marker(final(self).ring_view().last())
                &&& final(self).ring_view().subrange(0, ring_capacity() - 2)
                    == old(self).ring_view().skip(2)
            },
    {
        proof {
            self.ring.lemma_within_capacity();
        }
        let overflow = EventRecord::system_event(EventKind::RingBufferOverflow, TsDelta::new(0));
        match self.ring.push(record) {
            PushResult::Stored => {},
            PushResult::OldestDiscarded => {
                let _ = self.ring.push(overflow);
            },
        }
        assert(is_overflow_marker(overflow));
        proof {
            lemma_ingest_effect(old(self).ring.view(), record, overflow);
        }
        self.chain.seal(&record).unwrap()
    }
}

/// Law: ingesting a record stores it last. When the ring was full, the two
/// oldest records make room and the record is followed by the overflow marker.
pub proof fn lemma_ingest_effect(items: Seq<EventRecord>, record: EventRecord, marker: EventRecord)
    requires
        items.len() <= ring_capacity(),
    ensures
        items.len() < ring_capacity() ==> ring_after_ingest(items, record, marker) == items.push(
            record,
        ),
        items.len() == ring_capacity() ==> ring_after_ingest(items, record, marker) == items.skip(
            2,
        ).push(record).push(marker),
{
    if items.len() == ring_capacity() {
        assert(items.drop_first().push(record).drop_first().push(marker) =~= items.skip(2).push(
            record,
        ).push(marker));
    }
}

/// Whether an error ends the event loop: exactly the daemon-fatal ones.
pub fn ends_event_loop(e: &VtrError) -> (b: bool)
    ensures
        b == (e.severity == ErrorSeverity::DaemonFatal),
{
    match e.severity {
        ErrorSeverity::DaemonFatal => true,
        _ => false,
    }
}

} // verus!
