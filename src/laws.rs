use vstd::prelude::*;

use crate::cache::{
    file_result, function_result, load_result, range_result, source_location_result,
    string_ref_result, table_result,
};
use crate::error::Error;
use crate::format::{
    header_of, range_entry_at, Section, ENDIAN_MARKER, FILE_ALIGN, FILE_SIZE, FUNCTION_ALIGN,
    FUNCTION_SIZE, HEADER_SIZE, MAGIC, RANGE_ALIGN, RANGE_SIZE, SOURCE_LOCATION_ALIGN,
    SOURCE_LOCATION_SIZE, STRING_REF_ALIGN, STRING_REF_SIZE,
};
use crate::cache::{File, Function, SourceLocation};
use crate::encode::{
    concat, file_record_bytes, function_record_bytes, lemma_file_table_round_trip,
    lemma_function_table_round_trip, lemma_range_table_round_trip,
    lemma_source_location_table_round_trip, lemma_string_table_round_trip, range_entry_bytes,
    source_location_record_bytes, string_ref_bytes,
};
use crate::format::{FileRecord, FunctionRecord, RangeEntry, SourceLocationRecord, StringRef};
use crate::lookup::{chain_result, found_range, full_chain, lookup_result, ranges_sorted, search};

verus! {

/// Looking up the same address twice in a cache gives equal results: the result
/// is determined by the cache's bytes and the address.
pub proof fn lemma_lookup_idempotent(s: Seq<u8>, t: Seq<u8>, addr: u64)
    requires
        s == t,
    ensures
        lookup_result(s, addr) == lookup_result(t, addr),
{
}

/// An address below the start of the first address range is unmapped: the
/// lookup succeeds with no result.
pub proof fn lemma_below_first_range_unmapped(s: Seq<u8>, addr: u64)
    requires
        load_result(s) is Ok,
        table_result(s, header_of(s).ranges, RANGE_SIZE as int, RANGE_ALIGN as int) is Ok,
        header_of(s).ranges.count > 0,
        addr < range_entry_at(
            table_result(s, header_of(s).ranges, RANGE_SIZE as int, RANGE_ALIGN as int)->Ok_0,
            0,
        ).start,
    ensures
        lookup_result(s, addr) == Ok::<Option<Seq<crate::cache::SourceLocation>>, Error>(None),
{
}

/// The binary search ends on the first entry that starts above `addr`, given that
/// the entry before `lo` starts at or below `addr` and the one at `hi` (if any)
/// above it. No ordering of the table is needed for this.
proof fn lemma_search_bounds(t: Seq<u8>, addr: u64, n: int, lo: int, hi: int)
    requires
        1 <= lo <= hi <= n,
        range_entry_at(t, lo - 1).start <= addr,
        hi == n || range_entry_at(t, hi).start > addr,
    ensures
        lo <= search(t, addr, lo, hi) <= hi,
        range_entry_at(t, search(t, addr, lo, hi) - 1).start <= addr,
        search(t, addr, lo, hi) == n || range_entry_at(t, search(t, addr, lo, hi)).start > addr,
    decreases hi - lo,
{
    if lo < hi {
        let mid = lo + (hi - lo) / 2;
        if range_entry_at(t, mid).start <= addr {
            lemma_search_bounds(t, addr, n, mid + 1, hi);
        } else {
            lemma_search_bounds(t, addr, n, lo, mid);
        }
    }
}

/// Where the first address range starts at or below `addr`, the entry that lookup
/// takes starts at or below `addr`, and the next entry (if any) starts above it.
/// Where the entries start at strictly increasing addresses, that is the entry
/// with the greatest start at or below `addr`, and lookup returns its inline chain.
pub proof fn lemma_lookup_finds_enclosing_range(s: Seq<u8>, addr: u64)
    requires
        load_result(s) is Ok,
        table_result(s, header_of(s).ranges, RANGE_SIZE as int, RANGE_ALIGN as int) is Ok,
        header_of(s).ranges.count > 0,
        range_entry_at(
            table_result(s, header_of(s).ranges, RANGE_SIZE as int, RANGE_ALIGN as int)->Ok_0,
            0,
        ).start <= addr,
    ensures
        ({
            let t = table_result(s, header_of(s).ranges, RANGE_SIZE as int, RANGE_ALIGN as int)->Ok_0;
            let n = header_of(s).ranges.count as int;
            let i = found_range(t, n, addr);
            &&& 0 <= i < n
            &&& range_entry_at(t, i).start <= addr
            &&& i + 1 == n || addr < range_entry_at(t, i + 1).start
            &&& ranges_sorted(t, n) ==> match full_chain(s, range_entry_at(t, i).source_location_idx) {
                Ok(c) => lookup_result(s, addr) == Ok::<
                    Option<Seq<crate::cache::SourceLocation>>,
                    Error,
                >(Some(c)),
                Err(e) => lookup_result(s, addr) == Err::<
                    Option<Seq<crate::cache::SourceLocation>>,
                    Error,
                >(e),
            }
        }),
{
    let t = table_result(s, header_of(s).ranges, RANGE_SIZE as int, RANGE_ALIGN as int)->Ok_0;
    let n = header_of(s).ranges.count as int;
    lemma_search_bounds(t, addr, n, 1, n);
}

/// Every table lookup by index succeeds for an index below the table's count (where
/// the table lies inside the buffer, aligned), and fails with the table's own
/// out-of-range error, carrying the index, for any index at or above the count.
pub proof fn lemma_table_index_bounds(s: Seq<u8>, idx: u32)
    requires
        load_result(s) is Ok,
    ensures
        idx >= header_of(s).strings.count ==> string_ref_result(s, idx) == Err::<
            crate::format::StringRef,
            Error,
        >(Error::InvalidStringReference(idx)),
        idx < header_of(s).strings.count && table_is_ok(s, header_of(s).strings, STRING_REF_SIZE, STRING_REF_ALIGN)
            ==> string_ref_result(s, idx) is Ok,
        idx >= header_of(s).files.count ==> file_result(s, idx) == Err::<crate::cache::File, Error>(
            Error::InvalidFileReference(idx),
        ),
        idx < header_of(s).files.count && table_is_ok(s, header_of(s).files, FILE_SIZE, FILE_ALIGN)
            ==> file_result(s, idx) is Ok,
        idx >= header_of(s).functions.count ==> function_result(s, idx) == Err::<
            crate::cache::Function,
            Error,
        >(Error::InvalidFunctionReference(idx)),
        idx < header_of(s).functions.count && table_is_ok(s, header_of(s).functions, FUNCTION_SIZE, FUNCTION_ALIGN)
            ==> function_result(s, idx) is Ok,
        idx >= header_of(s).source_locations.count ==> source_location_result(s, idx) == Err::<
            crate::cache::SourceLocation,
            Error,
        >(Error::InvalidSourceLocationReference(idx)),
        idx < header_of(s).source_locations.count && table_is_ok(
            s,
            header_of(s).source_locations,
            SOURCE_LOCATION_SIZE,
            SOURCE_LOCATION_ALIGN,
        ) ==> source_location_result(s, idx) is Ok,
        idx >= header_of(s).ranges.count ==> range_result(s, idx) == Err::<
            crate::format::RangeEntry,
            Error,
        >(Error::InvalidRangeReference(idx)),
        idx < header_of(s).ranges.count && table_is_ok(s, header_of(s).ranges, RANGE_SIZE, RANGE_ALIGN)
            ==> range_result(s, idx) is Ok,
{
}

/// Whether the table that `sec` places in `s` can be read.
pub open spec fn table_is_ok(s: Seq<u8>, sec: Section, size: usize, align: usize) -> bool {
    table_result(s, sec, size as int, align as int) is Ok
}

/// A buffer whose endianness marker holds the marker's bytes in the opposite order
/// is rejected with `WrongEndianness` (once its magic matches), and so no cache is
/// made of it.
pub proof fn lemma_flipped_endianness_rejected(s: Seq<u8>)
    requires
        s.len() >= HEADER_SIZE,
        header_of(s).magic == MAGIC,
        s[8] == 0x12u8,
        s[9] == 0x34u8,
        s[10] == 0x56u8,
        s[11] == 0x78u8,
    ensures
        load_result(s) == Err::<(), Error>(Error::WrongEndianness),
{
    assert(header_of(s).endianness != ENDIAN_MARKER);
}

/// A loadable buffer cut short by at least one byte no longer loads: with the
/// header whole the declared length no longer matches, and otherwise the header
/// is too small.
pub proof fn lemma_truncation_rejected(s: Seq<u8>, k: int)
    requires
        load_result(s) is Ok,
        0 <= k < s.len(),
    ensures
        k >= HEADER_SIZE ==> load_result(s.subrange(0, k)) == Err::<(), Error>(
            Error::BadFormatLength,
        ),
        k < HEADER_SIZE ==> load_result(s.subrange(0, k)) == Err::<(), Error>(
            Error::HeaderTooSmall,
        ),
{
    let u = s.subrange(0, k);
    if k >= HEADER_SIZE {
        assert(forall|j: int| 0 <= j < HEADER_SIZE ==> u[j] == s[j]);
        assert(header_of(u) == header_of(s));
    }
}

/// A loaded cache whose tables each hold, back to back, the little-endian bytes of
/// a sequence of records (and whose counts are those sequences' lengths) yields
/// exactly those records: each table lookup by index returns the record laid out
/// at that index, with nothing lost or reordered.
#[verifier::rlimit(40)]
pub proof fn lemma_cache_round_trip(
    s: Seq<u8>,
    strings: Seq<StringRef>,
    files: Seq<FileRecord>,
    functions: Seq<FunctionRecord>,
    source_locations: Seq<SourceLocationRecord>,
    ranges: Seq<RangeEntry>,
    i: u32,
)
    requires
        load_result(s) is Ok,
        header_of(s).strings.count == strings.len(),
        table_result(s, header_of(s).strings, STRING_REF_SIZE as int, STRING_REF_ALIGN as int)
            == Ok::<Seq<u8>, Error>(concat(strings.map_values(|r: StringRef| string_ref_bytes(r)))),
        header_of(s).files.count == files.len(),
        table_result(s, header_of(s).files, FILE_SIZE as int, FILE_ALIGN as int) == Ok::<
            Seq<u8>,
            Error,
        >(concat(files.map_values(|r: FileRecord| file_record_bytes(r)))),
        header_of(s).functions.count == functions.len(),
        table_result(s, header_of(s).functions, FUNCTION_SIZE as int, FUNCTION_ALIGN as int)
            == Ok::<Seq<u8>, Error>(
            concat(functions.map_values(|r: FunctionRecord| function_record_bytes(r))),
        ),
        header_of(s).source_locations.count == source_locations.len(),
        table_result(
            s,
            header_of(s).source_locations,
            SOURCE_LOCATION_SIZE as int,
            SOURCE_LOCATION_ALIGN as int,
        ) == Ok::<Seq<u8>, Error>(
            concat(
                source_locations.map_values(
                    |r: SourceLocationRecord| source_location_record_bytes(r),
                ),
            ),
        ),
        header_of(s).ranges.count == ranges.len(),
        table_result(s, header_of(s).ranges, RANGE_SIZE as int, RANGE_ALIGN as int) == Ok::<
            Seq<u8>,
            Error,
        >(concat(ranges.map_values(|r: RangeEntry| range_entry_bytes(r)))),
    ensures
        i < strings.len() ==> string_ref_result(s, i) == Ok::<StringRef, Error>(strings[i as int]),
        i < files.len() ==> file_result(s, i) == Ok::<File, Error>(
            File { index: i, record: files[i as int] },
        ),
        i < functions.len() ==> function_result(s, i) == Ok::<Function, Error>(
            Function { index: i, record: functions[i as int] },
        ),
        i < source_locations.len() ==> source_location_result(s, i) == Ok::<SourceLocation, Error>(
            SourceLocation { index: i, record: source_locations[i as int] },
        ),
        i < ranges.len() ==> range_result(s, i) == Ok::<RangeEntry, Error>(ranges[i as int]),
{
    if i < strings.len() {
        lemma_string_table_round_trip(strings, i as int);
    }
    if i < files.len() {
        lemma_file_table_round_trip(files, i as int);
    }
    if i < functions.len() {
        lemma_function_table_round_trip(functions, i as int);
    }
    if i < source_locations.len() {
        lemma_source_location_table_round_trip(source_locations, i as int);
    }
    if i < ranges.len() {
        lemma_range_table_round_trip(ranges, i as int);
    }
}

/// A source location that names itself as its parent makes its inline chain fail
/// with `CyclicSourceLocation` carrying its index: the walk never loops forever.
pub proof fn lemma_self_parent_is_cycle(s: Seq<u8>, idx: u32)
    requires
        source_location_result(s, idx) is Ok,
        source_location_result(s, idx)->Ok_0.record.parent_idx == idx,
    ensures
        full_chain(s, idx) == Err::<Seq<SourceLocation>, Error>(Error::CyclicSourceLocation(idx)),
{
    lemma_self_parent_is_cycle_full(s, idx, header_of(s).source_locations.count as nat);
}

/// The same, whatever number of steps the walk is allowed.
proof fn lemma_self_parent_is_cycle_full(s: Seq<u8>, idx: u32, fuel: nat)
    requires
        source_location_result(s, idx) is Ok,
        source_location_result(s, idx)->Ok_0.record.parent_idx == idx,
    ensures
        chain_result(s, idx, fuel) == Err::<Seq<SourceLocation>, Error>(
            Error::CyclicSourceLocation(idx),
        ),
    decreases fuel,
{
    if fuel > 0 {
        lemma_self_parent_is_cycle_full(s, idx, (fuel - 1) as nat);
    }
}

} // verus!
