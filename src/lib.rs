//! Enumerates physical disks and decodes their partition layouts (MBR or GPT)
//! from the raw bytes that a device-control request returns.

pub mod bytes;
pub mod enumeration;
pub mod error;
pub mod guid;
pub mod layout;
pub mod normalize;
pub mod query;
pub mod types;

use vstd::prelude::*;
use crate::bytes::le_u32;
use crate::error::ListError;
use crate::layout::{
    header_at, parse_layout, record_at, record_offset, records_fit, DiskHeader,
    RawPartitionRecord, HEADER_SIZE,
};
use crate::normalize::drop_unused_slots;
use crate::types::{
    disk_from, is_unused_slot, lemma_disk_from_wf, records_consistent, used_records, Disk,
};

verus! {

/// Number of device indices that enumeration tries by default.
pub const MAX_DISKS: u32 = 16;

/// What probing one device index found.
#[derive(Clone, Debug, PartialEq, Eq)]
pub enum DeviceProbe {
    /// No device has this index: the enumeration ends here.
    Absent,
    /// The device is there but reports no usable layout.
    NoLayout,
    /// The device's layout, unused MBR slots dropped.
    Layout(DiskHeader, Vec<RawPartitionRecord>),
}

/// A header and records as enumeration hands them out: no unused MBR slot,
/// and the header's count is the number of records.
pub open spec fn normalized(h: DiskHeader, recs: Seq<RawPartitionRecord>) -> bool {
    &&& h.partition_count == recs.len()
    &&& forall|i: int| 0 <= i < recs.len() ==> !is_unused_slot(#[trigger] recs[i])
}

/// `h` and `kept` are the layout stored in `s`, unused MBR slots dropped.
pub open spec fn layout_in(h: DiskHeader, kept: Seq<RawPartitionRecord>, s: Seq<u8>) -> bool {
    &&& header_at(DiskHeader { partition_count: le_u32(s, 4) as u32, payload: h.payload }, s)
    &&& h.partition_count == kept.len()
    &&& exists|recs: Seq<RawPartitionRecord>|
        {
            &&& recs.len() == le_u32(s, 4)
            &&& forall|i: int|
                0 <= i < recs.len() ==> record_at(#[trigger] recs[i], s, record_offset(i))
            &&& kept == used_records(recs)
        }
}

/// Decodes a complete layout response and drops its unused MBR slots.
/// `None` when the response is shorter than the header; a `Decode` error when
/// the declared records run past its end.
pub fn decode_layout(bytes: &Vec<u8>) -> (r: Result<
    Option<(DiskHeader, Vec<RawPartitionRecord>)>,
    ListError,
>)
    ensures
        bytes@.len() < HEADER_SIZE ==> r matches Ok(None),
        bytes@.len() >= HEADER_SIZE ==> match r {
            Ok(Some((h, kept))) => {
                &&& records_fit(bytes@, bytes@.len() as int)
                &&& layout_in(h, kept@, bytes@)
                &&& normalized(h, kept@)
            },
            Ok(None) => false,
            Err(e) => e == ListError::Decode && !records_fit(bytes@, bytes@.len() as int),
        },
{
    match parse_layout(bytes.as_slice(), bytes.len()) {
        Ok(Some((header, records))) => {
            let ghost recs = records@;
            let (h, kept) = drop_unused_slots(header, records);
            proof {
                assert(header == DiskHeader { partition_count: le_u32(bytes@, 4) as u32, payload: h.payload });
                assert forall|i: int| 0 <= i < kept@.len() implies !is_unused_slot(
                    #[trigger] kept@[i],
                ) by {
                    recs.lemma_filter_pred(|r: RawPartitionRecord| !is_unused_slot(r), i);
                }
                assert(layout_in(h, kept@, bytes@));
            }
            Ok(Some((h, kept)))
        },
        Ok(None) => Ok(None),
        Err(e) => Err(e),
    }
}

/// What a probe of a present device gives for the complete response `s`.
pub open spec fn probe_of_response(s: Seq<u8>, r: Result<DeviceProbe, ListError>) -> bool {
    if s.len() < HEADER_SIZE {
        r == Ok::<DeviceProbe, ListError>(DeviceProbe::NoLayout)
    } else {
        match r {
            Ok(DeviceProbe::Layout(h, kept)) => {
                &&& records_fit(s, s.len() as int)
                &&& layout_in(h, kept@, s)
                &&& normalized(h, kept@)
            },
            Ok(_) => false,
            Err(e) => e == ListError::Decode && !records_fit(s, s.len() as int),
        }
    }
}

/// Decodes a complete response into what probing a present device found.
pub fn probe_response(bytes: &Vec<u8>) -> (r: Result<DeviceProbe, ListError>)
    ensures
        probe_of_response(bytes@, r),
{
    match decode_layout(bytes) {
        Ok(Some((h, kept))) => Ok(DeviceProbe::Layout(h, kept)),
        Ok(None) => Ok(DeviceProbe::NoLayout),
        Err(e) => Err(e),
    }
}

/// What enumeration does after probing one index.
#[derive(Clone, Debug, PartialEq, Eq)]
pub enum EnumAction {
    /// No device at this index: end with what was collected.
    Stop,
    /// The device has no usable layout: go on without it.
    Skip,
    /// Keep this layout and go on.
    Keep(DiskHeader, Vec<RawPartitionRecord>),
    /// End the whole enumeration with this error.
    Abort(ListError),
}

/// The action that a probe's result calls for.
pub open spec fn enum_action(p: Result<DeviceProbe, ListError>) -> EnumAction {
    match p {
        Ok(DeviceProbe::Absent) => EnumAction::Stop,
        Ok(DeviceProbe::NoLayout) => EnumAction::Skip,
        Ok(DeviceProbe::Layout(h, kept)) => EnumAction::Keep(h, kept),
        Err(e) => EnumAction::Abort(e),
    }
}

/// Decides what enumeration does after probing one index.
pub fn next_enum_action(p: Result<DeviceProbe, ListError>) -> (a: EnumAction)
    ensures
        a == enum_action(p),
{
    match p {
        Ok(DeviceProbe::Absent) => EnumAction::Stop,
        Ok(DeviceProbe::NoLayout) => EnumAction::Skip,
        Ok(DeviceProbe::Layout(h, kept)) => EnumAction::Keep(h, kept),
        Err(e) => EnumAction::Abort(e),
    }
}

/// The disks that the given layouts describe, in their order; those built
/// from normalized layouts that obey the partition invariants are well formed.
pub fn disks_from_layouts(layouts: &Vec<(DiskHeader, Vec<RawPartitionRecord>)>) -> (r: Vec<Disk>)
    ensures
        disks_of(layouts@, r@),
        forall|i: int|
            0 <= i < r@.len() && normalized(layouts@[i].0, layouts@[i].1@) && records_consistent(
                layouts@[i].0,
                layouts@[i].1@,
            ) ==> (#[trigger] r@[i]).wf(),
{
    let mut disks: Vec<Disk> = Vec::new();
    let mut i: usize = 0;
    while i < layouts.len()
        invariant
            i <= layouts@.len(),
            disks@.len() == i,
            forall|j: int|
                0 <= j < i ==> disk_from(#[trigger] disks@[j], layouts@[j].0, layouts@[j].1@),
            forall|j: int|
                0 <= j < i && normalized(layouts@[j].0, layouts@[j].1@) && records_consistent(
                    layouts@[j].0,
                    layouts@[j].1@,
                ) ==> (#[trigger] disks@[j]).wf(),
        decreases layouts@.len() - i,
    {
        let d = Disk::from_layout(&layouts[i].0, &layouts[i].1);
        proof {
            if normalized(layouts@[i as int].0, layouts@[i as int].1@) && records_consistent(
                layouts@[i as int].0,
                layouts@[i as int].1@,
            ) {
                lemma_disk_from_wf(d, layouts@[i as int].0, layouts@[i as int].1@);
            }
        }
        disks.push(d);
        i = i + 1;
    }
    disks
}

/// `ds` are the disks that the layouts `ls` describe, in their order.
pub open spec fn disks_of(ls: Seq<(DiskHeader, Vec<RawPartitionRecord>)>, ds: Seq<Disk>) -> bool {
    &&& ds.len() == ls.len()
    &&& forall|i: int| 0 <= i < ds.len() ==> disk_from(#[trigger] ds[i], ls[i].0, ls[i].1@)
}

} // verus!
