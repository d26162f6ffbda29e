//! The structured disk and partition model, and its construction from the
//! decoded layout: phantom MBR slots dropped, identifiers canonicalized.

use vstd::prelude::*;
use crate::guid::{canonical_bytes, Identifier};
use crate::layout::{
    DiskHeader, HeaderPayload, RawPartitionRecord, RecordPayload, PARTITION_ENTRY_UNUSED,
};

verus! {

/// Partition-table format of a disk or a partition.
#[derive(Clone, Copy, Debug, PartialEq, Eq, Structural)]
pub enum PartitionStyle {
    GPT,
    MBR,
    RAW,
}

/// A physical disk and its partitions.
#[derive(Clone, Debug, PartialEq, Eq)]
pub struct Disk {
    pub partition_style: PartitionStyle,
    pub partitions: Vec<Partition>,
    pub extra: DiskExtra,
}

/// Style-specific disk data; `Mbr` also stands for a RAW disk, with zero fields.
#[derive(Clone, Copy, Debug, PartialEq, Eq)]
pub enum DiskExtra {
    Mbr(DiskExtraMbr),
    Gpt(DiskExtraGpt),
}

#[derive(Clone, Copy, Debug, PartialEq, Eq, Structural)]
pub struct DiskExtraMbr {
    pub signature: u32,
    pub checksum: u32,
}

#[derive(Clone, Copy, Debug, PartialEq, Eq)]
pub struct DiskExtraGpt {
    pub disk_id: Identifier,
    pub starting_usable_offset: i64,
    pub usable_length: i64,
    pub max_partition_count: u32,
}

/// One partition of a disk.
#[derive(Clone, Copy, Debug, PartialEq, Eq)]
pub struct Partition {
    pub partition_style: PartitionStyle,
    pub starting_offset: i64,
    pub partition_length: i64,
    pub partition_number: u32,
    pub rewrite_partition: bool,
    pub is_service_partition: bool,
    pub extra: PartitionExtra,
}

/// Style-specific partition data; `Mbr` also stands for a RAW partition, with zero fields.
#[derive(Clone, Copy, Debug, PartialEq, Eq)]
pub enum PartitionExtra {
    Mbr(PartitionExtraMbr),
    Gpt(PartitionExtraGpt),
}

#[derive(Clone, Copy, Debug, PartialEq, Eq)]
pub struct PartitionExtraMbr {
    pub partition_type: u8,
    pub boot_indicator: bool,
    pub recognized_partition: bool,
    pub hidden_sectors: u32,
    /// MBR has no native identifier: always the nil identifier.
    pub partition_id: Identifier,
}

#[derive(Clone, Copy, Debug, PartialEq, Eq)]
pub struct PartitionExtraGpt {
    pub partition_type: Identifier,
    pub partition_id: Identifier,
    pub attributes: u64,
    /// UTF-16 code units, not necessarily null-terminated nor well-formed.
    pub name: [u16; 36],
}

/// The 16 zero bytes of the nil identifier.
pub open spec fn nil_bytes() -> Seq<u8> {
    Seq::new(16, |i: int| 0u8)
}

/// Style that a record's discriminant selects.
pub open spec fn record_style(p: RecordPayload) -> PartitionStyle {
    match p {
        RecordPayload::Mbr { .. } => PartitionStyle::MBR,
        RecordPayload::Gpt { .. } => PartitionStyle::GPT,
        RecordPayload::Raw => PartitionStyle::RAW,
    }
}

/// `e` holds the MBR fields given, with the nil identifier.
pub open spec fn mbr_extra_is(
    e: PartitionExtra,
    partition_type: u8,
    boot_indicator: bool,
    recognized_partition: bool,
    hidden_sectors: u32,
) -> bool {
    &&& e is Mbr
    &&& e->Mbr_0.partition_type == partition_type
    &&& e->Mbr_0.boot_indicator == boot_indicator
    &&& e->Mbr_0.recognized_partition == recognized_partition
    &&& e->Mbr_0.hidden_sectors == hidden_sectors
    &&& e->Mbr_0.partition_id.bytes@ == nil_bytes()
}

/// `p` is the partition that the raw record `r` describes.
pub open spec fn partition_from(p: Partition, r: RawPartitionRecord) -> bool {
    &&& p.partition_style == record_style(r.payload)
    &&& p.starting_offset == r.starting_offset
    &&& p.partition_length == r.partition_length
    &&& p.partition_number == r.partition_number
    &&& p.rewrite_partition == r.rewrite_partition
    &&& !p.is_service_partition
    &&& match r.payload {
        RecordPayload::Mbr {
            partition_type,
            boot_indicator,
            recognized_partition,
            hidden_sectors,
        } => mbr_extra_is(
            p.extra,
            partition_type,
            boot_indicator,
            recognized_partition,
            hidden_sectors,
        ),
        RecordPayload::Gpt { partition_type, partition_id, attributes, name } => {
            &&& p.extra is Gpt
            &&& p.extra->Gpt_0.partition_type.bytes@ == canonical_bytes(partition_type)
            &&& p.extra->Gpt_0.partition_id.bytes@ == canonical_bytes(partition_id)
            &&& p.extra->Gpt_0.attributes == attributes
            &&& p.extra->Gpt_0.name@ == name@
        },
        RecordPayload::Raw => mbr_extra_is(p.extra, 0, false, false, 0),
    }
}

/// `d` is the disk that the header `h` and the records `recs` describe, in their order.
pub open spec fn disk_from(d: Disk, h: DiskHeader, recs: Seq<RawPartitionRecord>) -> bool {
    &&& d.partitions@.len() == recs.len()
    &&& forall|i: int| 0 <= i < recs.len() ==> partition_from(#[trigger] d.partitions@[i], recs[i])
    &&& match h.payload {
        HeaderPayload::Mbr { signature, checksum } => {
            &&& d.partition_style == PartitionStyle::MBR
            &&& d.extra == DiskExtra::Mbr(DiskExtraMbr { signature, checksum })
        },
        HeaderPayload::Gpt {
            disk_id,
            starting_usable_offset,
            usable_length,
            max_partition_count,
        } => {
            &&& d.partition_style == PartitionStyle::GPT
            &&& d.extra is Gpt
            &&& d.extra->Gpt_0.disk_id.bytes@ == canonical_bytes(disk_id)
            &&& d.extra->Gpt_0.starting_usable_offset == starting_usable_offset
            &&& d.extra->Gpt_0.usable_length == usable_length
            &&& d.extra->Gpt_0.max_partition_count == max_partition_count
        },
        HeaderPayload::Raw => {
            &&& d.partition_style == PartitionStyle::RAW
            &&& d.extra == DiskExtra::Mbr(DiskExtraMbr { signature: 0, checksum: 0 })
        },
    }
}

/// A record that is an unused MBR slot: present in the array, holding no partition.
pub open spec fn is_unused_slot(r: RawPartitionRecord) -> bool {
    match r.payload {
        RecordPayload::Mbr { partition_type, .. } => partition_type == PARTITION_ENTRY_UNUSED,
        _ => false,
    }
}

/// The records that hold a partition, in their order.
pub open spec fn used_records(recs: Seq<RawPartitionRecord>) -> Seq<RawPartitionRecord> {
    recs.filter(|r: RawPartitionRecord| !is_unused_slot(r))
}

impl Partition {
    /// The style tag matches the populated variant, and the partition is no
    /// unused MBR slot.
    pub open spec fn wf(&self) -> bool {
        &&& (self.extra is Gpt <==> self.partition_style == PartitionStyle::GPT)
        &&& !(self.partition_style == PartitionStyle::MBR && self.extra is Mbr
            && self.extra->Mbr_0.partition_type == PARTITION_ENTRY_UNUSED)
    }
}

impl Disk {
    /// The style tag matches the populated variant, and so does every
    /// partition's; no partition has a negative length; unless the disk is
    /// RAW, no two partitions share a number.
    pub open spec fn wf(&self) -> bool {
        &&& (self.extra is Gpt <==> self.partition_style == PartitionStyle::GPT)
        &&& forall|i: int| 0 <= i < self.partitions@.len() ==> (#[trigger] self.partitions@[i]).wf()
        &&& forall|i: int|
            0 <= i < self.partitions@.len() ==> (#[trigger] self.partitions@[i]).partition_length >= 0
        &&& self.partition_style != PartitionStyle::RAW ==> forall|i: int, j: int|
            0 <= i < j < self.partitions@.len() ==> (#[trigger] self.partitions@[i]).partition_number
                != (#[trigger] self.partitions@[j]).partition_number
    }
}

/// The records obey the partition invariants: no negative length, and unless
/// the header is RAW, no partition number twice.
pub open spec fn records_consistent(h: DiskHeader, recs: Seq<RawPartitionRecord>) -> bool {
    &&& forall|i: int| 0 <= i < recs.len() ==> (#[trigger] recs[i]).partition_length >= 0
    &&& !(h.payload is Raw) ==> forall|i: int, j: int|
        0 <= i < j < recs.len() ==> (#[trigger] recs[i]).partition_number
            != (#[trigger] recs[j]).partition_number
}

impl Partition {
    /// The partition that a raw record describes, identifiers canonicalized.
    pub fn from_record(r: &RawPartitionRecord) -> (p: Partition)
        ensures
            partition_from(p, *r),
    {
        let (partition_style, extra) = match r.payload {
            RecordPayload::Mbr {
                partition_type,
                boot_indicator,
                recognized_partition,
                hidden_sectors,
            } => (
                PartitionStyle::MBR,
                PartitionExtra::Mbr(
                    PartitionExtraMbr {
                        partition_type,
                        boot_indicator,
                        recognized_partition,
                        hidden_sectors,
                        partition_id: Identifier::nil(),
                    },
                ),
            ),
            RecordPayload::Gpt { partition_type, partition_id, attributes, name } => (
                PartitionStyle::GPT,
                PartitionExtra::Gpt(
                    PartitionExtraGpt {
                        partition_type: Identifier::from_platform(&partition_type),
                        partition_id: Identifier::from_platform(&partition_id),
                        attributes,
                        name,
                    },
                ),
            ),
            RecordPayload::Raw => (
                PartitionStyle::RAW,
                PartitionExtra::Mbr(
                    PartitionExtraMbr {
                        partition_type: 0,
                        boot_indicator: false,
                        recognized_partition: false,
                        hidden_sectors: 0,
                        partition_id: Identifier::nil(),
                    },
                ),
            ),
        };
        Partition {
            partition_style,
            starting_offset: r.starting_offset,
            partition_length: r.partition_length,
            partition_number: r.partition_number,
            rewrite_partition: r.rewrite_partition,
            is_service_partition: false,
            extra,
        }
    }
}

impl Disk {
    /// The disk that a decoded header and its records describe, partitions in
    /// record order.
    pub fn from_layout(h: &DiskHeader, recs: &Vec<RawPartitionRecord>) -> (d: Disk)
        ensures
            disk_from(d, *h, recs@),
    {
        let mut partitions: Vec<Partition> = Vec::new();
        let mut i: usize = 0;
        while i < recs.len()
            invariant
                i <= recs@.len(),
                partitions@.len() == i,
                forall|j: int| 0 <= j < i ==> partition_from(#[trigger] partitions@[j], recs@[j]),
            decreases recs@.len() - i,
        {
            partitions.push(Partition::from_record(&recs[i]));
            i = i + 1;
        }
        let (partition_style, extra) = match h.payload {
            HeaderPayload::Mbr { signature, checksum } => (
                PartitionStyle::MBR,
                DiskExtra::Mbr(DiskExtraMbr { signature, checksum }),
            ),
            HeaderPayload::Gpt {
                disk_id,
                starting_usable_offset,
                usable_length,
                max_partition_count,
            } => (
                PartitionStyle::GPT,
                DiskExtra::Gpt(
                    DiskExtraGpt {
                        disk_id: Identifier::from_platform(&disk_id),
                        starting_usable_offset,
                        usable_length,
                        max_partition_count,
                    },
                ),
            ),
            HeaderPayload::Raw => (
                PartitionStyle::RAW,
                DiskExtra::Mbr(DiskExtraMbr { signature: 0, checksum: 0 }),
            ),
        };
        Disk { partition_style, partitions, extra }
    }
}

/// `units` is well-formed UTF-16: every high surrogate is followed by a low
/// surrogate, and no low surrogate stands alone.
pub open spec fn well_formed_utf16(units: Seq<u16>) -> bool
    decreases units.len(),
{
    if units.len() == 0 {
        true
    } else if 0xD800 <= units[0] <= 0xDBFF {
        &&& units.len() >= 2
        &&& 0xDC00 <= units[1] <= 0xDFFF
        &&& well_formed_utf16(units.subrange(2, units.len() as int))
    } else if 0xDC00 <= units[0] <= 0xDFFF {
        false
    } else {
        well_formed_utf16(units.subrange(1, units.len() as int))
    }
}

/// The code points that well-formed UTF-16 code units encode: a high
/// surrogate and the low surrogate after it make one code point above
/// 0xFFFF, any other unit stands for itself.
pub open spec fn utf16_code_points(units: Seq<u16>) -> Seq<u32>
    decreases units.len(),
{
    if units.len() == 0 {
        Seq::empty()
    } else if 0xD800 <= units[0] <= 0xDBFF && units.len() >= 2 {
        seq![
            (0x1_0000 + (units[0] - 0xD800) * 0x400 + (units[1] - 0xDC00)) as u32,
        ] + utf16_code_points(units.subrange(2, units.len() as int))
    } else {
        seq![units[0] as u32] + utf16_code_points(units.subrange(1, units.len() as int))
    }
}

/// The code points of a text.
pub open spec fn code_points(text: Seq<char>) -> Seq<u32> {
    text.map_values(|c: char| c as u32)
}

/// Relies on String::from_utf16: it fails exactly when the units are not
/// well-formed UTF-16, and otherwise returns the text whose code points the
/// units encode.
#[verifier::external_body]
fn decode_utf16(units: &[u16]) -> (r: Option<String>)
    ensures
        r is Some <==> well_formed_utf16(units@),
        r is Some ==> code_points(r->Some_0@) == utf16_code_points(units@),
{
    String::from_utf16(units).ok()
}

/// The decoded text, or the placeholder "Invalid UTF-16" when decoding failed.
pub fn text_or_placeholder(decoded: Option<String>) -> (r: String)
    ensures
        decoded is Some ==> r@ == decoded->Some_0@,
        decoded is None ==> r@ == "Invalid UTF-16"@,
{
    broadcast use vstd::string::to_string_from_display_ensures_for_str;

    match decoded {
        Some(text) => text,
        None => "Invalid UTF-16".to_string(),
    }
}

impl PartitionExtraGpt {
    /// The partition name for display: all of its code units decoded, or the
    /// placeholder "Invalid UTF-16" when they are not well-formed. Never fails.
    pub fn display_name(&self) -> (r: String)
        ensures
            well_formed_utf16(self.name@) ==> code_points(r@) == utf16_code_points(self.name@),
            !well_formed_utf16(self.name@) ==> r@ == "Invalid UTF-16"@,
    {
        text_or_placeholder(decode_utf16(self.name.as_slice()))
    }
}

/// A disk built from records that hold no unused MBR slot is well formed.
pub proof fn lemma_disk_from_wf(d: Disk, h: DiskHeader, recs: Seq<RawPartitionRecord>)
    requires
        disk_from(d, h, recs),
        forall|i: int| 0 <= i < recs.len() ==> !is_unused_slot(#[trigger] recs[i]),
        records_consistent(h, recs),
    ensures
        d.wf(),
{
    assert forall|i: int, j: int| 0 <= i < j < d.partitions@.len() && d.partition_style != PartitionStyle::RAW
        implies (#[trigger] d.partitions@[i]).partition_number != (#[trigger] d.partitions@[j]).partition_number by {
        assert(partition_from(d.partitions@[i], recs[i]));
        assert(partition_from(d.partitions@[j], recs[j]));
    }
    assert forall|i: int| 0 <= i < d.partitions@.len() implies (#[trigger] d.partitions@[i]).partition_length >= 0 by {
        assert(partition_from(d.partitions@[i], recs[i]));
    }
    assert forall|i: int| 0 <= i < d.partitions@.len() implies (#[trigger] d.partitions@[i]).wf() by {
        assert(partition_from(d.partitions@[i], recs[i]));
        assert(!is_unused_slot(recs[i]));
    }
}

} // verus!
