//! Decoding of the drive-layout response: a fixed header whose union region
//! is selected by a partition-style discriminant, followed by an array of
//! fixed-size partition records, each with its own discriminant.

use vstd::prelude::*;
use crate::bytes::{le_u16, le_u32, le_u64, read_i64, read_u16, read_u32, read_u64, read_u8};
use crate::error::ListError;
use crate::guid::PlatformGuid;

verus! {

/// Size of the fixed header: style, count and the union region.
pub const HEADER_SIZE: usize = 48;

/// Stride of the partition-record array that follows the header.
pub const RECORD_SIZE: usize = 144;

/// Discriminant of the MBR shape.
pub const STYLE_MBR: u32 = 0;

/// Discriminant of the GPT shape.
pub const STYLE_GPT: u32 = 1;

/// MBR partition type of a slot that holds no partition.
pub const PARTITION_ENTRY_UNUSED: u8 = 0;

/// Number of UTF-16 code units in a GPT partition name.
pub const NAME_UNITS: usize = 36;

/// The union region of the header, in the shape its discriminant selects.
#[derive(Clone, Copy, Debug, PartialEq, Eq)]
pub enum HeaderPayload {
    Mbr { signature: u32, checksum: u32 },
    Gpt {
        disk_id: PlatformGuid,
        starting_usable_offset: i64,
        usable_length: i64,
        max_partition_count: u32,
    },
    Raw,
}

/// The decoded fixed header of a drive layout.
#[derive(Clone, Copy, Debug, PartialEq, Eq)]
pub struct DiskHeader {
    pub partition_count: u32,
    pub payload: HeaderPayload,
}

/// The union region of a partition record, in the shape its discriminant selects.
#[derive(Clone, Copy, Debug, PartialEq, Eq)]
#[allow(inconsistent_fields)]
pub enum RecordPayload {
    Mbr { partition_type: u8, boot_indicator: bool, recognized_partition: bool, hidden_sectors: u32 },
    Gpt {
        partition_type: PlatformGuid,
        partition_id: PlatformGuid,
        attributes: u64,
        name: [u16; 36],
    },
    Raw,
}

/// One decoded partition record, fields as the platform reports them.
#[derive(Clone, Copy, Debug, PartialEq, Eq)]
pub struct RawPartitionRecord {
    pub starting_offset: i64,
    pub partition_length: i64,
    pub partition_number: u32,
    pub rewrite_partition: bool,
    pub payload: RecordPayload,
}

/// `g` holds the GUID stored at `off` of `s`.
pub open spec fn guid_at(g: PlatformGuid, s: Seq<u8>, off: int) -> bool {
    &&& g.data1 as int == le_u32(s, off)
    &&& g.data2 as int == le_u16(s, off + 4)
    &&& g.data3 as int == le_u16(s, off + 6)
    &&& g.data4@ == s.subrange(off + 8, off + 16)
}

/// `h` is the header stored at the start of `s`.
pub open spec fn header_at(h: DiskHeader, s: Seq<u8>) -> bool {
    &&& h.partition_count as int == le_u32(s, 4)
    &&& match h.payload {
        HeaderPayload::Mbr { signature, checksum } => {
            &&& le_u32(s, 0) == STYLE_MBR
            &&& signature as int == le_u32(s, 8)
            &&& checksum as int == le_u32(s, 12)
        },
        HeaderPayload::Gpt {
            disk_id,
            starting_usable_offset,
            usable_length,
            max_partition_count,
        } => {
            &&& le_u32(s, 0) == STYLE_GPT
            &&& guid_at(disk_id, s, 8)
            &&& starting_usable_offset == le_u64(s, 24) as i64
            &&& usable_length == le_u64(s, 32) as i64
            &&& max_partition_count as int == le_u32(s, 40)
        },
        HeaderPayload::Raw => le_u32(s, 0) != STYLE_MBR && le_u32(s, 0) != STYLE_GPT,
    }
}

/// `name` holds the UTF-16 code units stored at `off` of `s`.
pub open spec fn name_at(name: Seq<u16>, s: Seq<u8>, off: int) -> bool {
    &&& name.len() == NAME_UNITS
    &&& forall|i: int| 0 <= i < NAME_UNITS ==> name[i] as int == #[trigger] le_u16(s, off + 2 * i)
}

/// `r` is the partition record stored at `off` of `s`.
pub open spec fn record_at(r: RawPartitionRecord, s: Seq<u8>, off: int) -> bool {
    &&& r.starting_offset == le_u64(s, off + 8) as i64
    &&& r.partition_length == le_u64(s, off + 16) as i64
    &&& r.partition_number as int == le_u32(s, off + 24)
    &&& r.rewrite_partition == (s[off + 28] != 0)
    &&& match r.payload {
        RecordPayload::Mbr {
            partition_type,
            boot_indicator,
            recognized_partition,
            hidden_sectors,
        } => {
            &&& le_u32(s, off) == STYLE_MBR
            &&& partition_type == s[off + 32]
            &&& boot_indicator == (s[off + 33] != 0)
            &&& recognized_partition == (s[off + 34] != 0)
            &&& hidden_sectors as int == le_u32(s, off + 36)
        },
        RecordPayload::Gpt { partition_type, partition_id, attributes, name } => {
            &&& le_u32(s, off) == STYLE_GPT
            &&& guid_at(partition_type, s, off + 32)
            &&& guid_at(partition_id, s, off + 48)
            &&& attributes as int == le_u64(s, off + 64)
            &&& name_at(name@, s, off + 72)
        },
        RecordPayload::Raw => le_u32(s, off) != STYLE_MBR && le_u32(s, off) != STYLE_GPT,
    }
}

/// Offset of the record with index `i`.
pub open spec fn record_offset(i: int) -> int {
    HEADER_SIZE + i * RECORD_SIZE
}

/// The `count` records that the header of `s` declares fit in `valid_length` bytes.
pub open spec fn records_fit(s: Seq<u8>, valid_length: int) -> bool {
    record_offset(le_u32(s, 4)) <= valid_length
}

fn parse_guid(bytes: &[u8], off: usize) -> (r: PlatformGuid)
    requires
        off + 16 <= bytes@.len(),
    ensures
        guid_at(r, bytes@, off as int),
{
    let len = bytes.len();
    assert(off + 16 <= len);
    let data4: [u8; 8] = [
        bytes[off + 8],
        bytes[off + 9],
        bytes[off + 10],
        bytes[off + 11],
        bytes[off + 12],
        bytes[off + 13],
        bytes[off + 14],
        bytes[off + 15],
    ];
    assert(data4@ =~= bytes@.subrange(off + 8, off + 16));
    PlatformGuid {
        data1: read_u32(bytes, off),
        data2: read_u16(bytes, off + 4),
        data3: read_u16(bytes, off + 6),
        data4,
    }
}

/// Decodes the fixed header at the start of `bytes`.
pub fn parse_header(bytes: &[u8]) -> (r: DiskHeader)
    requires
        HEADER_SIZE <= bytes@.len(),
    ensures
        header_at(r, bytes@),
{
    let style = read_u32(bytes, 0);
    let partition_count = read_u32(bytes, 4);
    let payload = if style == STYLE_MBR {
        HeaderPayload::Mbr { signature: read_u32(bytes, 8), checksum: read_u32(bytes, 12) }
    } else if style == STYLE_GPT {
        HeaderPayload::Gpt {
            disk_id: parse_guid(bytes, 8),
            starting_usable_offset: read_i64(bytes, 24),
            usable_length: read_i64(bytes, 32),
            max_partition_count: read_u32(bytes, 40),
        }
    } else {
        HeaderPayload::Raw
    };
    DiskHeader { partition_count, payload }
}

/// Decodes the partition record at `off` of `bytes`.
pub fn parse_record(bytes: &[u8], off: usize) -> (r: RawPartitionRecord)
    requires
        off + RECORD_SIZE <= bytes@.len(),
    ensures
        record_at(r, bytes@, off as int),
{
    let len = bytes.len();
    let style = read_u32(bytes, off);
    let payload = if style == STYLE_MBR {
        RecordPayload::Mbr {
            partition_type: read_u8(bytes, off + 32),
            boot_indicator: read_u8(bytes, off + 33) != 0,
            recognized_partition: read_u8(bytes, off + 34) != 0,
            hidden_sectors: read_u32(bytes, off + 36),
        }
    } else if style == STYLE_GPT {
        let mut name: [u16; 36] = [0u16; 36];
        let mut i: usize = 0;
        while i < NAME_UNITS
            invariant
                i <= NAME_UNITS,
                off + RECORD_SIZE <= len,
                len == bytes@.len(),
                forall|j: int| 0 <= j < i ==> name@[j] as int == #[trigger] le_u16(bytes@, off + 72 + 2 * j),
            decreases NAME_UNITS - i,
        {
            name[i] = read_u16(bytes, off + 72 + 2 * i);
            i = i + 1;
        }
        RecordPayload::Gpt {
            partition_type: parse_guid(bytes, off + 32),
            partition_id: parse_guid(bytes, off + 48),
            attributes: read_u64(bytes, off + 64),
            name,
        }
    } else {
        RecordPayload::Raw
    };
    RawPartitionRecord {
        starting_offset: read_i64(bytes, off + 8),
        partition_length: read_i64(bytes, off + 16),
        partition_number: read_u32(bytes, off + 24),
        rewrite_partition: read_u8(bytes, off + 28) != 0,
        payload,
    }
}

/// Decodes a drive-layout response whose first `valid_length` bytes are
/// valid. `None` when those bytes cannot hold the header: the device is there
/// but has no usable layout. A `Decode` error when the records that the header
/// declares would run past them. Nothing past `valid_length` is read.
pub fn parse_layout(bytes: &[u8], valid_length: usize) -> (r: Result<
    Option<(DiskHeader, Vec<RawPartitionRecord>)>,
    ListError,
>)
    requires
        valid_length <= bytes@.len(),
    ensures
        valid_length < HEADER_SIZE ==> r matches Ok(None),
        valid_length >= HEADER_SIZE ==> match r {
            Ok(Some((h, recs))) => {
                &&& records_fit(bytes@, valid_length as int)
                &&& header_at(h, bytes@)
                &&& recs@.len() == h.partition_count
                &&& forall|i: int|
                    0 <= i < recs@.len() ==> record_at(
#[trigger] recs@[i], bytes@, record_offset(i))
            },
            Ok(None) => false,
            Err(e) => e == ListError::Decode && !records_fit(bytes@, valid_length as int),
        },
{
    if valid_length < HEADER_SIZE {
        return Ok(None);
    }
    let header = parse_header(bytes);
    let count = header.partition_count as usize;
    if count > (valid_length - HEADER_SIZE) / RECORD_SIZE {
        return Err(ListError::Decode);
    }
    let mut records: Vec<RawPartitionRecord> = Vec::new();
    let mut i: usize = 0;
    while i < count
        invariant
            i <= count,
            HEADER_SIZE + count * RECORD_SIZE <= valid_length <= bytes@.len(),
            records@.len() == i,
            forall|j: int|
                0 <= j < i ==> record_at(#[trigger] records@[j], bytes@, record_offset(j)),
        decreases count - i,
    {
        let off = HEADER_SIZE + i * RECORD_SIZE;
        records.push(parse_record(bytes, off));
        i = i + 1;
    }
    Ok(Some((header, records)))
}

} // verus!
