use vstd::prelude::*;

use crate::bytes::{le_u32, le_u64, read_u32, read_u64};

verus! {

/// The magic bytes `SYMC`, read as a little-endian `u32`.
pub const MAGIC: u32 = 0x434D_5953;

/// The endianness marker as a little-endian writer stores it.
pub const ENDIAN_MARKER: u32 = 0x1234_5678;

/// The one format version this reader supports.
pub const VERSION: u32 = 2;

/// Size in bytes of the fixed header.
pub const HEADER_SIZE: usize = 72;

/// The index value that stands for "no entry" (no parent, no file, no entry address).
pub const NO_INDEX: u32 = 0xFFFF_FFFF;

/// The entry address value that stands for "unknown".
pub const NO_ADDRESS: u64 = 0xFFFF_FFFF_FFFF_FFFF;

/// Size and alignment in bytes of each table's records.
pub const STRING_REF_SIZE: usize = 8;
pub const STRING_REF_ALIGN: usize = 4;
pub const FILE_SIZE: usize = 4;
pub const FILE_ALIGN: usize = 4;
pub const FUNCTION_SIZE: usize = 16;
pub const FUNCTION_ALIGN: usize = 8;
pub const SOURCE_LOCATION_SIZE: usize = 16;
pub const SOURCE_LOCATION_ALIGN: usize = 4;
pub const RANGE_SIZE: usize = 16;
pub const RANGE_ALIGN: usize = 8;

/// Where a table lies in the buffer: its start offset and how many elements it has
/// (for the string data, how many bytes).
#[derive(Clone, Copy, Debug, PartialEq, Eq, Structural)]
pub struct Section {
    pub offset: u32,
    pub count: u32,
}

/// The fixed-size header at the start of every cache buffer; all fields are
/// little-endian `u32`s, in this order.
#[derive(Clone, Copy, Debug, PartialEq, Eq, Structural)]
pub struct Header {
    pub magic: u32,
    pub version: u32,
    pub endianness: u32,
    pub total_len: u32,
    pub name_idx: u32,
    pub strings: Section,
    pub string_data: Section,
    pub files: Section,
    pub functions: Section,
    pub source_locations: Section,
    pub ranges: Section,
}

/// A string table record: a byte range of the string data.
#[derive(Clone, Copy, Debug, PartialEq, Eq, Structural)]
pub struct StringRef {
    pub offset: u32,
    pub len: u32,
}

/// A file table record.
#[derive(Clone, Copy, Debug, PartialEq, Eq, Structural)]
pub struct FileRecord {
    pub name_idx: u32,
}

/// A function table record.
#[derive(Clone, Copy, Debug, PartialEq, Eq, Structural)]
pub struct FunctionRecord {
    pub entry_pc: u64,
    pub name_idx: u32,
}

/// A source location table record; `parent_idx` is the source location this one
/// was inlined into, `NO_INDEX` for an outermost frame, and `file_idx` is
/// `NO_INDEX` where no file is known.
#[derive(Clone, Copy, Debug, PartialEq, Eq, Structural)]
pub struct SourceLocationRecord {
    pub file_idx: u32,
    pub function_idx: u32,
    pub line: u32,
    pub parent_idx: u32,
}

/// An address range table record: from `start` up to the next entry's start, code
/// belongs to the source location `source_location_idx`.
#[derive(Clone, Copy, Debug, PartialEq, Eq, Structural)]
pub struct RangeEntry {
    pub start: u64,
    pub source_location_idx: u32,
}

/// The section whose offset and count are the two `u32`s at `p`.
pub open spec fn section_at(s: Seq<u8>, p: int) -> Section {
    Section { offset: le_u32(s, p) as u32, count: le_u32(s, p + 4) as u32 }
}

/// The header held in the first `HEADER_SIZE` bytes of `s`.
pub open spec fn header_of(s: Seq<u8>) -> Header {
    Header {
        magic: le_u32(s, 0) as u32,
        version: le_u32(s, 4) as u32,
        endianness: le_u32(s, 8) as u32,
        total_len: le_u32(s, 12) as u32,
        name_idx: le_u32(s, 16) as u32,
        strings: section_at(s, 20),
        string_data: section_at(s, 28),
        files: section_at(s, 36),
        functions: section_at(s, 44),
        source_locations: section_at(s, 52),
        ranges: section_at(s, 60),
    }
}

/// Record `i` of a string table whose bytes are `t`.
pub open spec fn string_ref_at(t: Seq<u8>, i: int) -> StringRef {
    StringRef { offset: le_u32(t, i * 8) as u32, len: le_u32(t, i * 8 + 4) as u32 }
}

/// Record `i` of a file table whose bytes are `t`.
pub open spec fn file_record_at(t: Seq<u8>, i: int) -> FileRecord {
    FileRecord { name_idx: le_u32(t, i * 4) as u32 }
}

/// Record `i` of a function table whose bytes are `t`.
pub open spec fn function_record_at(t: Seq<u8>, i: int) -> FunctionRecord {
    FunctionRecord { entry_pc: le_u64(t, i * 16) as u64, name_idx: le_u32(t, i * 16 + 8) as u32 }
}

/// Record `i` of a source location table whose bytes are `t`.
pub open spec fn source_location_record_at(t: Seq<u8>, i: int) -> SourceLocationRecord {
    SourceLocationRecord {
        file_idx: le_u32(t, i * 16) as u32,
        function_idx: le_u32(t, i * 16 + 4) as u32,
        line: le_u32(t, i * 16 + 8) as u32,
        parent_idx: le_u32(t, i * 16 + 12) as u32,
    }
}

/// Record `i` of an address range table whose bytes are `t`.
pub open spec fn range_entry_at(t: Seq<u8>, i: int) -> RangeEntry {
    RangeEntry { start: le_u64(t, i * 16) as u64, source_location_idx: le_u32(t, i * 16 + 8) as u32 }
}

fn read_section(s: &[u8], p: usize) -> (r: Section)
    requires
        p + 8 <= s@.len(),
    ensures
        r == section_at(s@, p as int),
{
    let _len = s.len();
    Section { offset: read_u32(s, p), count: read_u32(s, p + 4) }
}

/// Decodes the header at the start of `s`.
pub fn parse_header(s: &[u8]) -> (r: Header)
    requires
        s@.len() >= HEADER_SIZE,
    ensures
        r == header_of(s@),
{
    Header {
        magic: read_u32(s, 0),
        version: read_u32(s, 4),
        endianness: read_u32(s, 8),
        total_len: read_u32(s, 12),
        name_idx: read_u32(s, 16),
        strings: read_section(s, 20),
        string_data: read_section(s, 28),
        files: read_section(s, 36),
        functions: read_section(s, 44),
        source_locations: read_section(s, 52),
        ranges: read_section(s, 60),
    }
}

/// Decodes record `i` of the string table bytes `t`.
pub fn decode_string_ref(t: &[u8], i: usize) -> (r: StringRef)
    requires
        i * 8 + 8 <= t@.len(),
    ensures
        r == string_ref_at(t@, i as int),
{
    let _len = t.len();
    StringRef { offset: read_u32(t, i * 8), len: read_u32(t, i * 8 + 4) }
}

/// Decodes record `i` of the file table bytes `t`.
pub fn decode_file_record(t: &[u8], i: usize) -> (r: FileRecord)
    requires
        i * 4 + 4 <= t@.len(),
    ensures
        r == file_record_at(t@, i as int),
{
    let _len = t.len();
    FileRecord { name_idx: read_u32(t, i * 4) }
}

/// Decodes record `i` of the function table bytes `t`.
pub fn decode_function_record(t: &[u8], i: usize) -> (r: FunctionRecord)
    requires
        i * 16 + 16 <= t@.len(),
    ensures
        r == function_record_at(t@, i as int),
{
    let _len = t.len();
    FunctionRecord { entry_pc: read_u64(t, i * 16), name_idx: read_u32(t, i * 16 + 8) }
}

/// Decodes record `i` of the source location table bytes `t`.
pub fn decode_source_location_record(t: &[u8], i: usize) -> (r: SourceLocationRecord)
    requires
        i * 16 + 16 <= t@.len(),
    ensures
        r == source_location_record_at(t@, i as int),
{
    let _len = t.len();
    SourceLocationRecord {
        file_idx: read_u32(t, i * 16),
        function_idx: read_u32(t, i * 16 + 4),
        line: read_u32(t, i * 16 + 8),
        parent_idx: read_u32(t, i * 16 + 12),
    }
}

/// Decodes record `i` of the address range table bytes `t`.
pub fn decode_range_entry(t: &[u8], i: usize) -> (r: RangeEntry)
    requires
        i * 16 + 16 <= t@.len(),
    ensures
        r == range_entry_at(t@, i as int),
{
    let _len = t.len();
    RangeEntry { start: read_u64(t, i * 16), source_location_idx: read_u32(t, i * 16 + 8) }
}

} // verus!
