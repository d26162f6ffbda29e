//! Normalization of a decoded layout: unused MBR slots are dropped before
//! counting, and what remains becomes a [`Disk`].

use vstd::prelude::*;
use crate::layout::{DiskHeader, RawPartitionRecord, RecordPayload, PARTITION_ENTRY_UNUSED};
use crate::types::{
    disk_from, is_unused_slot, lemma_disk_from_wf, records_consistent, used_records, Disk,
};

verus! {

/// Whether `r` is an unused MBR slot.
pub fn is_unused(r: &RawPartitionRecord) -> (b: bool)
    ensures
        b == is_unused_slot(*r),
{
    match r.payload {
        RecordPayload::Mbr { partition_type, .. } => partition_type == PARTITION_ENTRY_UNUSED,
        _ => false,
    }
}

/// Keeps the records that hold a partition, in their order, and sets the
/// header's count to how many were kept.
pub fn drop_unused_slots(h: DiskHeader, recs: Vec<RawPartitionRecord>) -> (r: (
    DiskHeader,
    Vec<RawPartitionRecord>,
))
    requires
        recs@.len() <= u32::MAX,
    ensures
        r.1@ == used_records(recs@),
        r.0.partition_count == r.1@.len(),
        r.0.payload == h.payload,
{
    let mut kept: Vec<RawPartitionRecord> = Vec::new();
    let mut i: usize = 0;
    while i < recs.len()
        invariant
            i <= recs@.len(),
            kept@ == used_records(recs@.subrange(0, i as int)),
        decreases recs@.len() - i,
    {
        let rec = recs[i];
        proof {
            reveal(Seq::filter);
            assert(recs@.subrange(0, i + 1).drop_last() =~= recs@.subrange(0, i as int));
        }
        if !is_unused(&rec) {
            kept.push(rec);
        }
        i = i + 1;
    }
    proof {
        assert(recs@.subrange(0, recs@.len() as int) =~= recs@);
        recs@.lemma_filter_len(|r: RawPartitionRecord| !is_unused_slot(r));
    }
    (DiskHeader { partition_count: kept.len() as u32, payload: h.payload }, kept)
}

/// The disk that a decoded layout describes, without its unused MBR slots.
pub fn normalize(h: DiskHeader, recs: Vec<RawPartitionRecord>) -> (d: Disk)
    requires
        recs@.len() <= u32::MAX,
    ensures
        disk_from(d, h, used_records(recs@)),
        records_consistent(h, used_records(recs@)) ==> d.wf(),
{
    let (header, kept) = drop_unused_slots(h, recs);
    let d = Disk::from_layout(&header, &kept);
    proof {
        assert forall|i: int| 0 <= i < kept@.len() implies !is_unused_slot(#[trigger] kept@[i]) by {
            recs@.lemma_filter_pred(|r: RawPartitionRecord| !is_unused_slot(r), i);
        }
        if records_consistent(h, kept@) {
            lemma_disk_from_wf(d, header, kept@);
        }
    }
    d
}

proof fn lemma_used_records_empty(recs: Seq<RawPartitionRecord>)
    requires
        forall|i: int| 0 <= i < recs.len() ==> is_unused_slot(#[trigger] recs[i]),
    ensures
        used_records(recs).len() == 0,
    decreases recs.len(),
{
    reveal(Seq::filter);
    if recs.len() > 0 {
        lemma_used_records_empty(recs.drop_last());
    }
}

/// When every record of an MBR layout is an unused slot, the normalized disk
/// has no partitions and the header's count after dropping them is zero.
pub proof fn lemma_all_unused_slots_dropped(
    h: DiskHeader,
    recs: Seq<RawPartitionRecord>,
    kept_header: DiskHeader,
    d: Disk,
)
    requires
        forall|i: int| 0 <= i < recs.len() ==> is_unused_slot(#[trigger] recs[i]),
        kept_header.partition_count == used_records(recs).len(),
        disk_from(d, h, used_records(recs)),
    ensures
        kept_header.partition_count == 0,
        d.partitions@.len() == 0,
{
    lemma_used_records_empty(recs);
}

} // verus!
