use vstd::prelude::*;

use crate::bytes::{le_u32, le_u64};
use crate::format::{
    file_record_at, function_record_at, range_entry_at, source_location_record_at, string_ref_at,
    FileRecord, FunctionRecord, RangeEntry, SourceLocationRecord, StringRef,
};

verus! {

/// The four little-endian bytes of `v`.
pub open spec fn u32_bytes(v: u32) -> Seq<u8> {
    seq![
        (v % 0x100) as u8,
        ((v / 0x100) % 0x100) as u8,
        ((v / 0x1_0000) % 0x100) as u8,
        (v / 0x100_0000) as u8,
    ]
}

/// The eight little-endian bytes of `v`.
pub open spec fn u64_bytes(v: u64) -> Seq<u8> {
    u32_bytes((v % 0x1_0000_0000) as u32) + u32_bytes((v / 0x1_0000_0000) as u32)
}

/// The eight bytes of a string table record.
pub open spec fn string_ref_bytes(r: StringRef) -> Seq<u8> {
    u32_bytes(r.offset) + u32_bytes(r.len)
}

/// The four bytes of a file table record.
pub open spec fn file_record_bytes(r: FileRecord) -> Seq<u8> {
    u32_bytes(r.name_idx)
}

/// The sixteen bytes of a function table record (the last four are padding).
pub open spec fn function_record_bytes(r: FunctionRecord) -> Seq<u8> {
    u64_bytes(r.entry_pc) + u32_bytes(r.name_idx) + u32_bytes(0)
}

/// The sixteen bytes of a source location table record.
pub open spec fn source_location_record_bytes(r: SourceLocationRecord) -> Seq<u8> {
    u32_bytes(r.file_idx) + u32_bytes(r.function_idx) + u32_bytes(r.line) + u32_bytes(r.parent_idx)
}

/// The sixteen bytes of an address range table record (the last four are padding).
pub open spec fn range_entry_bytes(r: RangeEntry) -> Seq<u8> {
    u64_bytes(r.start) + u32_bytes(r.source_location_idx) + u32_bytes(0)
}

/// The chunks laid out one after another.
pub open spec fn concat(chunks: Seq<Seq<u8>>) -> Seq<u8>
    decreases chunks.len(),
{
    if chunks.len() == 0 {
        Seq::empty()
    } else {
        concat(chunks.drop_last()) + chunks.last()
    }
}

/// The four little-endian bytes of a `u32` read back give the `u32`.
pub proof fn lemma_u32_bytes(v: u32, t: Seq<u8>, p: int)
    requires
        0 <= p,
        p + 4 <= t.len(),
        t.subrange(p, p + 4) == u32_bytes(v),
    ensures
        le_u32(t, p) == v,
{
    let b = u32_bytes(v);
    assert(t[p] == b[0] && t[p + 1] == b[1] && t[p + 2] == b[2] && t[p + 3] == b[3]) by {
        assert(t.subrange(p, p + 4)[0] == t[p]);
        assert(t.subrange(p, p + 4)[1] == t[p + 1]);
        assert(t.subrange(p, p + 4)[2] == t[p + 2]);
        assert(t.subrange(p, p + 4)[3] == t[p + 3]);
    }
    let x = v as int;
    assert(x == (x % 0x100) + ((x / 0x100) % 0x100) * 0x100 + ((x / 0x1_0000) % 0x100) * 0x1_0000
        + (x / 0x100_0000) * 0x100_0000) by (nonlinear_arith)
        requires 0 <= x < 0x1_0000_0000;
}

proof fn lemma_concat_len(chunks: Seq<Seq<u8>>, k: int)
    requires
        k >= 0,
        forall|i: int| 0 <= i < chunks.len() ==> (#[trigger] chunks[i]).len() == k,
    ensures
        concat(chunks).len() == chunks.len() * k,
    decreases chunks.len(),
{
    if chunks.len() > 0 {
        let init = chunks.drop_last();
        assert forall|i: int| 0 <= i < init.len() implies (#[trigger] init[i]).len() == k by {
            assert(init[i] == chunks[i]);
        }
        lemma_concat_len(init, k);
        assert(chunks.len() * k == init.len() * k + k) by (nonlinear_arith)
            requires chunks.len() == init.len() + 1;
    }
}

/// Chunk `i` of chunks that all have `k` bytes lies at `i * k` in their concatenation.
proof fn lemma_concat_chunk(chunks: Seq<Seq<u8>>, k: int, i: int)
    requires
        k >= 0,
        forall|j: int| 0 <= j < chunks.len() ==> (#[trigger] chunks[j]).len() == k,
        0 <= i < chunks.len(),
    ensures
        concat(chunks).len() == chunks.len() * k,
        i * k + k <= concat(chunks).len(),
        concat(chunks).subrange(i * k, i * k + k) == chunks[i],
    decreases chunks.len(),
{
    lemma_concat_len(chunks, k);
    let init = chunks.drop_last();
    assert forall|j: int| 0 <= j < init.len() implies (#[trigger] init[j]).len() == k by {
        assert(init[j] == chunks[j]);
    }
    lemma_concat_len(init, k);
    let n = chunks.len() as int;
    if i == n - 1 {
        assert(i * k == init.len() * k);
        assert(concat(chunks).subrange(i * k, i * k + k) =~= chunks[i]);
    } else {
        lemma_concat_chunk(init, k, i);
        assert(i * k + k <= init.len() * k) by (nonlinear_arith)
            requires i + 1 <= init.len(), k >= 0;
        assert(concat(chunks).subrange(i * k, i * k + k) =~= concat(init).subrange(i * k, i * k + k));
        assert(init[i] == chunks[i]);
    }
    assert(i * k + k <= n * k) by (nonlinear_arith)
        requires i + 1 <= n, k >= 0;
}

/// The `u32` at offset `o` of the record at `base`, where that record's bytes are
/// `chunk` and its bytes at `o` encode `v`.
proof fn lemma_field_u32(t: Seq<u8>, base: int, chunk: Seq<u8>, o: int, v: u32)
    requires
        0 <= base,
        0 <= o,
        o + 4 <= chunk.len(),
        base + chunk.len() <= t.len(),
        t.subrange(base, base + chunk.len()) == chunk,
        chunk.subrange(o, o + 4) == u32_bytes(v),
    ensures
        le_u32(t, base + o) == v,
{
    assert(t.subrange(base + o, base + o + 4) =~= chunk.subrange(o, o + 4));
    lemma_u32_bytes(v, t, base + o);
}

/// The `u64` at offset `o` of the record at `base`, where that record's bytes are
/// `chunk` and its bytes at `o` encode `v`.
proof fn lemma_field_u64(t: Seq<u8>, base: int, chunk: Seq<u8>, o: int, v: u64)
    requires
        0 <= base,
        0 <= o,
        o + 8 <= chunk.len(),
        base + chunk.len() <= t.len(),
        t.subrange(base, base + chunk.len()) == chunk,
        chunk.subrange(o, o + 8) == u64_bytes(v),
    ensures
        le_u64(t, base + o) == v,
{
    let lo = (v % 0x1_0000_0000) as u32;
    let hi = (v / 0x1_0000_0000) as u32;
    assert(chunk.subrange(o, o + 4) =~= u32_bytes(lo)) by {
        assert(chunk.subrange(o, o + 4) =~= chunk.subrange(o, o + 8).subrange(0, 4));
    }
    assert(chunk.subrange(o + 4, o + 8) =~= u32_bytes(hi)) by {
        assert(chunk.subrange(o + 4, o + 8) =~= chunk.subrange(o, o + 8).subrange(4, 8));
    }
    lemma_field_u32(t, base, chunk, o, lo);
    lemma_field_u32(t, base, chunk, o + 4, hi);
}

/// String table records laid out one after another, each as its little-endian
/// bytes, decode at each index to the record that was laid out there.
#[verifier::rlimit(30)]
pub proof fn lemma_string_table_round_trip(recs: Seq<StringRef>, i: int)
    requires
        0 <= i < recs.len(),
    ensures
        concat(recs.map_values(|r: StringRef| string_ref_bytes(r))).len() == recs.len() * 8,
        string_ref_at(concat(recs.map_values(|r: StringRef| string_ref_bytes(r))), i) == recs[i],
{
    let chunks = recs.map_values(|r: StringRef| string_ref_bytes(r));
    let t = concat(chunks);
    lemma_concat_chunk(chunks, 8, i);
    let c = chunks[i];
    let r = recs[i];
    assert(c.subrange(0, 4) =~= u32_bytes(r.offset));
    assert(c.subrange(4, 8) =~= u32_bytes(r.len));
    lemma_field_u32(t, i * 8, c, 0, r.offset);
    lemma_field_u32(t, i * 8, c, 4, r.len);
}

/// File table records laid out one after another, each as its little-endian
/// bytes, decode at each index to the record that was laid out there.
pub proof fn lemma_file_table_round_trip(recs: Seq<FileRecord>, i: int)
    requires
        0 <= i < recs.len(),
    ensures
        concat(recs.map_values(|r: FileRecord| file_record_bytes(r))).len() == recs.len() * 4,
        file_record_at(concat(recs.map_values(|r: FileRecord| file_record_bytes(r))), i) == recs[i],
{
    let chunks = recs.map_values(|r: FileRecord| file_record_bytes(r));
    let t = concat(chunks);
    lemma_concat_chunk(chunks, 4, i);
    let c = chunks[i];
    assert(c.subrange(0, 4) =~= u32_bytes(recs[i].name_idx));
    lemma_field_u32(t, i * 4, c, 0, recs[i].name_idx);
}

/// Function table records laid out one after another, each as its little-endian
/// bytes, decode at each index to the record that was laid out there.
#[verifier::rlimit(30)]
pub proof fn lemma_function_table_round_trip(recs: Seq<FunctionRecord>, i: int)
    requires
        0 <= i < recs.len(),
    ensures
        concat(recs.map_values(|r: FunctionRecord| function_record_bytes(r))).len() == recs.len()
            * 16,
        function_record_at(concat(recs.map_values(|r: FunctionRecord| function_record_bytes(r))), i)
            == recs[i],
{
    let chunks = recs.map_values(|r: FunctionRecord| function_record_bytes(r));
    let t = concat(chunks);
    lemma_concat_chunk(chunks, 16, i);
    let c = chunks[i];
    let r = recs[i];
    assert(c.subrange(0, 8) =~= u64_bytes(r.entry_pc));
    assert(c.subrange(8, 12) =~= u32_bytes(r.name_idx));
    lemma_field_u64(t, i * 16, c, 0, r.entry_pc);
    lemma_field_u32(t, i * 16, c, 8, r.name_idx);
}

/// Source location table records laid out one after another, each as its little-endian
/// bytes, decode at each index to the record that was laid out there.
#[verifier::rlimit(30)]
pub proof fn lemma_source_location_table_round_trip(recs: Seq<SourceLocationRecord>, i: int)
    requires
        0 <= i < recs.len(),
    ensures
        concat(recs.map_values(|r: SourceLocationRecord| source_location_record_bytes(r))).len()
            == recs.len() * 16,
        source_location_record_at(
            concat(recs.map_values(|r: SourceLocationRecord| source_location_record_bytes(r))),
            i,
        ) == recs[i],
{
    let chunks = recs.map_values(|r: SourceLocationRecord| source_location_record_bytes(r));
    let t = concat(chunks);
    lemma_concat_chunk(chunks, 16, i);
    let c = chunks[i];
    let r = recs[i];
    assert(c.subrange(0, 4) =~= u32_bytes(r.file_idx));
    assert(c.subrange(4, 8) =~= u32_bytes(r.function_idx));
    assert(c.subrange(8, 12) =~= u32_bytes(r.line));
    assert(c.subrange(12, 16) =~= u32_bytes(r.parent_idx));
    lemma_field_u32(t, i * 16, c, 0, r.file_idx);
    lemma_field_u32(t, i * 16, c, 4, r.function_idx);
    lemma_field_u32(t, i * 16, c, 8, r.line);
    lemma_field_u32(t, i * 16, c, 12, r.parent_idx);
}

/// Address range table records laid out one after another, each as its little-endian
/// bytes, decode at each index to the record that was laid out there.
#[verifier::rlimit(30)]
pub proof fn lemma_range_table_round_trip(recs: Seq<RangeEntry>, i: int)
    requires
        0 <= i < recs.len(),
    ensures
        concat(recs.map_values(|r: RangeEntry| range_entry_bytes(r))).len() == recs.len() * 16,
        range_entry_at(concat(recs.map_values(|r: RangeEntry| range_entry_bytes(r))), i) == recs[i],
{
    let chunks = recs.map_values(|r: RangeEntry| range_entry_bytes(r));
    let t = concat(chunks);
    lemma_concat_chunk(chunks, 16, i);
    let c = chunks[i];
    let r = recs[i];
    assert(c.subrange(0, 8) =~= u64_bytes(r.start));
    assert(c.subrange(8, 12) =~= u32_bytes(r.source_location_idx));
    lemma_field_u64(t, i * 16, c, 0, r.start);
    lemma_field_u32(t, i * 16, c, 8, r.source_location_idx);
}

} // verus!
