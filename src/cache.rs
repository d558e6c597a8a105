use vstd::prelude::*;

use crate::bytes::{
    bytes_result, decode_utf8, get_bytes, get_record_slice, range_in_bounds, record_slice_result,
    utf8_decode,
};
use crate::error::Error;
use crate::format::{
    decode_file_record, decode_function_record, decode_range_entry, decode_source_location_record,
    decode_string_ref, file_record_at, function_record_at, header_of, parse_header, range_entry_at,
    source_location_record_at, string_ref_at, FileRecord, FunctionRecord, Header, RangeEntry,
    Section, SourceLocationRecord, StringRef, ENDIAN_MARKER, FILE_ALIGN, FILE_SIZE, FUNCTION_ALIGN,
    FUNCTION_SIZE, HEADER_SIZE, MAGIC, RANGE_ALIGN, RANGE_SIZE,
    SOURCE_LOCATION_ALIGN, SOURCE_LOCATION_SIZE, STRING_REF_ALIGN, STRING_REF_SIZE, VERSION,
};

verus! {

/// What `SymCache::from_slice` makes of a buffer holding `s`: `Ok` where the header
/// checks pass, else the first failing check's error.
pub open spec fn load_result(s: Seq<u8>) -> Result<(), Error> {
    if s.len() < HEADER_SIZE {
        Err(Error::HeaderTooSmall)
    } else {
        let h = header_of(s);
        if h.magic != MAGIC {
            Err(Error::WrongFormat)
        } else if h.endianness != ENDIAN_MARKER {
            Err(Error::WrongEndianness)
        } else if h.version != VERSION {
            Err(Error::WrongVersion)
        } else if h.total_len as int != s.len() {
            Err(Error::BadFormatLength)
        } else {
            Ok(())
        }
    }
}

/// The bytes of the table that `sec` places in `s`, or why they cannot be had.
pub open spec fn table_result(s: Seq<u8>, sec: Section, size: int, align: int) -> Result<
    Seq<u8>,
    Error,
> {
    record_slice_result(s, sec.offset as int, sec.count as int, size, align)
}

/// What `get_string_ref` returns.
pub open spec fn string_ref_result(s: Seq<u8>, idx: u32) -> Result<StringRef, Error> {
    let sec = header_of(s).strings;
    if idx >= sec.count {
        Err(Error::InvalidStringReference(idx))
    } else {
        match table_result(s, sec, STRING_REF_SIZE as int, STRING_REF_ALIGN as int) {
            Ok(t) => Ok(string_ref_at(t, idx as int)),
            Err(e) => Err(e),
        }
    }
}

/// The bytes of string `idx`, or why they cannot be had (before any UTF-8 check).
pub open spec fn string_bytes_result(s: Seq<u8>, idx: u32) -> Result<Seq<u8>, Error> {
    match string_ref_result(s, idx) {
        Err(e) => Err(e),
        Ok(r) => {
            let sd = header_of(s).string_data;
            match bytes_result(s, sd.offset as int, sd.count as int) {
                Err(_) => Err(Error::InvalidStringDataReference(idx)),
                Ok(d) => if range_in_bounds(d.len() as int, r.offset as int, r.len as int) {
                    Ok(d.subrange(r.offset as int, r.offset + r.len))
                } else {
                    Err(Error::InvalidStringDataReference(idx))
                },
            }
        },
    }
}

/// Whether `r` is what `get_string(idx)` may return on a cache holding `s`: the
/// decoded string where its bytes can be had and are UTF-8, `InvalidStringData`
/// for `idx` where they are not UTF-8, and otherwise the error that stopped access.
pub open spec fn string_outcome(s: Seq<u8>, idx: u32, r: Result<Seq<char>, Error>) -> bool {
    match r {
        Ok(c) => string_bytes_result(s, idx) matches Ok(b) && utf8_decode(b) == Some(c),
        Err(Error::InvalidStringData(i, _)) => i == idx && (string_bytes_result(s, idx) matches Ok(b)
            && utf8_decode(b) is None),
        Err(e) => string_bytes_result(s, idx) == Err::<Seq<u8>, Error>(e),
    }
}

/// The characters of a returned string, or its error.
pub open spec fn str_view(r: Result<&str, Error>) -> Result<Seq<char>, Error> {
    match r {
        Ok(v) => Ok(v@),
        Err(e) => Err(e),
    }
}

/// A file of the cache: its index and its record.
#[derive(Clone, Copy, Debug, PartialEq, Eq, Structural)]
pub struct File {
    pub index: u32,
    pub record: FileRecord,
}

/// A function of the cache: its index and its record.
#[derive(Clone, Copy, Debug, PartialEq, Eq, Structural)]
pub struct Function {
    pub index: u32,
    pub record: FunctionRecord,
}

/// A source location of the cache: its index and its record.
#[derive(Clone, Copy, Debug, PartialEq, Eq, Structural)]
pub struct SourceLocation {
    pub index: u32,
    pub record: SourceLocationRecord,
}

/// What `get_file` returns.
pub open spec fn file_result(s: Seq<u8>, idx: u32) -> Result<File, Error> {
    let sec = header_of(s).files;
    if idx >= sec.count {
        Err(Error::InvalidFileReference(idx))
    } else {
        match table_result(s, sec, FILE_SIZE as int, FILE_ALIGN as int) {
            Ok(t) => Ok(File { index: idx, record: file_record_at(t, idx as int) }),
            Err(e) => Err(e),
        }
    }
}

/// What `get_function` returns.
pub open spec fn function_result(s: Seq<u8>, idx: u32) -> Result<Function, Error> {
    let sec = header_of(s).functions;
    if idx >= sec.count {
        Err(Error::InvalidFunctionReference(idx))
    } else {
        match table_result(s, sec, FUNCTION_SIZE as int, FUNCTION_ALIGN as int) {
            Ok(t) => Ok(Function { index: idx, record: function_record_at(t, idx as int) }),
            Err(e) => Err(e),
        }
    }
}

/// What `get_source_location` returns.
pub open spec fn source_location_result(s: Seq<u8>, idx: u32) -> Result<SourceLocation, Error> {
    let sec = header_of(s).source_locations;
    if idx >= sec.count {
        Err(Error::InvalidSourceLocationReference(idx))
    } else {
        match table_result(s, sec, SOURCE_LOCATION_SIZE as int, SOURCE_LOCATION_ALIGN as int) {
            Ok(t) => Ok(
                SourceLocation { index: idx, record: source_location_record_at(t, idx as int) },
            ),
            Err(e) => Err(e),
        }
    }
}

/// What `get_range` returns.
pub open spec fn range_result(s: Seq<u8>, idx: u32) -> Result<RangeEntry, Error> {
    let sec = header_of(s).ranges;
    if idx >= sec.count {
        Err(Error::InvalidRangeReference(idx))
    } else {
        match table_result(s, sec, RANGE_SIZE as int, RANGE_ALIGN as int) {
            Ok(t) => Ok(range_entry_at(t, idx as int)),
            Err(e) => Err(e),
        }
    }
}

/// Where the bytes of a cache live: borrowed from the caller or owned.
enum Backing<'a> {
    Borrowed(&'a [u8]),
    Owned(Vec<u8>),
}

impl<'a> Backing<'a> {
    spec fn bytes(&self) -> Seq<u8> {
        match self {
            Backing::Borrowed(b) => b@,
            Backing::Owned(v) => v@,
        }
    }

    /// The bytes, whichever way they are held.
    fn buffer(&self) -> (r: &[u8])
        ensures
            r@ == self.bytes(),
    {
        match self {
            Backing::Borrowed(b) => b,
            Backing::Owned(v) => v.as_slice(),
        }
    }
}

/// A loaded, read-only cache over one buffer.
pub struct SymCache<'a> {
    backing: Backing<'a>,
}

impl<'a> View for SymCache<'a> {
    type V = Seq<u8>;

    closed spec fn view(&self) -> Seq<u8> {
        self.backing.bytes()
    }
}

fn load_cachefile<'a>(backing: Backing<'a>) -> (r: Result<SymCache<'a>, Error>)
    ensures
        match r {
            Ok(c) => load_result(backing.bytes()) is Ok && c@ == backing.bytes(),
            Err(e) => load_result(backing.bytes()) == Err::<(), Error>(e),
        },
{
    // Records are decoded byte by byte, so the buffer's start address needs no
    // alignment; each table's offset is checked for alignment when it is read.
    let buf = backing.buffer();
    if buf.len() < HEADER_SIZE {
        return Err(Error::HeaderTooSmall);
    }
    let h = parse_header(buf);
    if h.magic != MAGIC {
        return Err(Error::WrongFormat);
    }
    if h.endianness != ENDIAN_MARKER {
        return Err(Error::WrongEndianness);
    }
    if h.version != VERSION {
        return Err(Error::WrongVersion);
    }
    if h.total_len as usize != buf.len() {
        return Err(Error::BadFormatLength);
    }
    Ok(SymCache { backing })
}

impl<'a> SymCache<'a> {
    /// A loaded cache: the header of its bytes passes every load check.
    pub open spec fn wf(&self) -> bool {
        load_result(self@) is Ok
    }

    /// Loads a cache that borrows `buffer`. Fails with the error of the first
    /// header check that does not pass.
    pub fn from_slice(buffer: &'a [u8]) -> (r: Result<SymCache<'a>, Error>)
        ensures
            match r {
                Ok(c) => load_result(buffer@) is Ok && c@ == buffer@,
                Err(e) => load_result(buffer@) == Err::<(), Error>(e),
            },
    {
        load_cachefile(Backing::Borrowed(buffer))
    }

    /// Loads a cache that owns `buffer`. Fails with the error of the first header
    /// check that does not pass.
    pub fn from_vec(buffer: Vec<u8>) -> (r: Result<SymCache<'a>, Error>)
        ensures
            match r {
                Ok(c) => load_result(buffer@) is Ok && c@ == buffer@,
                Err(e) => load_result(buffer@) == Err::<(), Error>(e),
            },
    {
        load_cachefile(Backing::Owned(buffer))
    }

    /// The header of the cache.
    pub fn header(&self) -> (r: Header)
        requires
            self.wf(),
        ensures
            r == header_of(self@),
    {
        parse_header(self.backing.buffer())
    }

    pub(crate) fn table(&self, sec: Section, size: usize, align: usize) -> (r: Result<&[u8], Error>)
        requires
            align > 0,
        ensures
            match r {
                Ok(t) => table_result(self@, sec, size as int, align as int) == Ok::<
                    Seq<u8>,
                    Error,
                >(t@),
                Err(e) => table_result(self@, sec, size as int, align as int) == Err::<
                    Seq<u8>,
                    Error,
                >(e),
            },
    {
        get_record_slice(self.backing.buffer(), sec.offset as usize, sec.count as usize, size, align)
    }

    /// The string table record `idx`.
    pub fn get_string_ref(&self, idx: u32) -> (r: Result<StringRef, Error>)
        requires
            self.wf(),
        ensures
            r == string_ref_result(self@, idx),
    {
        let sec = self.header().strings;
        if idx >= sec.count {
            return Err(Error::InvalidStringReference(idx));
        }
        match self.table(sec, STRING_REF_SIZE, STRING_REF_ALIGN) {
            Ok(t) => Ok(decode_string_ref(t, idx as usize)),
            Err(e) => Err(e),
        }
    }

    /// The string with index `idx`, checked to be UTF-8 on every call.
    pub fn get_string(&self, idx: u32) -> (r: Result<&str, Error>)
        requires
            self.wf(),
        ensures
            string_outcome(self@, idx, str_view(r)),
    {
        let sref = match self.get_string_ref(idx) {
            Ok(v) => v,
            Err(e) => return Err(e),
        };
        let sd = self.header().string_data;
        let data = match get_bytes(self.backing.buffer(), sd.offset as usize, sd.count as usize) {
            Ok(d) => d,
            Err(_) => return Err(Error::InvalidStringDataReference(idx)),
        };
        let bytes = match get_bytes(data, sref.offset as usize, sref.len as usize) {
            Ok(b) => b,
            Err(_) => return Err(Error::InvalidStringDataReference(idx)),
        };
        match decode_utf8(bytes) {
            Ok(st) => Ok(st),
            Err(u) => Err(Error::InvalidStringData(idx, u)),
        }
    }

    /// The name of the cache.
    pub fn name(&self) -> (r: Result<&str, Error>)
        requires
            self.wf(),
        ensures
            string_outcome(self@, header_of(self@).name_idx, str_view(r)),
    {
        let h = self.header();
        self.get_string(h.name_idx)
    }

    /// The file with index `idx`.
    pub fn get_file(&self, idx: u32) -> (r: Result<File, Error>)
        requires
            self.wf(),
        ensures
            r == file_result(self@, idx),
    {
        let sec = self.header().files;
        if idx >= sec.count {
            return Err(Error::InvalidFileReference(idx));
        }
        match self.table(sec, FILE_SIZE, FILE_ALIGN) {
            Ok(t) => Ok(File { index: idx, record: decode_file_record(t, idx as usize) }),
            Err(e) => Err(e),
        }
    }

    /// The function with index `idx`.
    pub fn get_function(&self, idx: u32) -> (r: Result<Function, Error>)
        requires
            self.wf(),
        ensures
            r == function_result(self@, idx),
    {
        let sec = self.header().functions;
        if idx >= sec.count {
            return Err(Error::InvalidFunctionReference(idx));
        }
        match self.table(sec, FUNCTION_SIZE, FUNCTION_ALIGN) {
            Ok(t) => Ok(Function { index: idx, record: decode_function_record(t, idx as usize) }),
            Err(e) => Err(e),
        }
    }

    /// The source location with index `idx`.
    pub fn get_source_location(&self, idx: u32) -> (r: Result<SourceLocation, Error>)
        requires
            self.wf(),
        ensures
            r == source_location_result(self@, idx),
    {
        let sec = self.header().source_locations;
        if idx >= sec.count {
            return Err(Error::InvalidSourceLocationReference(idx));
        }
        match self.table(sec, SOURCE_LOCATION_SIZE, SOURCE_LOCATION_ALIGN) {
            Ok(t) => Ok(
                SourceLocation { index: idx, record: decode_source_location_record(t, idx as usize) },
            ),
            Err(e) => Err(e),
        }
    }

    /// The address range entry with index `idx`.
    pub fn get_range(&self, idx: u32) -> (r: Result<RangeEntry, Error>)
        requires
            self.wf(),
        ensures
            r == range_result(self@, idx),
    {
        let sec = self.header().ranges;
        if idx >= sec.count {
            return Err(Error::InvalidRangeReference(idx));
        }
        match self.table(sec, RANGE_SIZE, RANGE_ALIGN) {
            Ok(t) => Ok(decode_range_entry(t, idx as usize)),
            Err(e) => Err(e),
        }
    }
}

} // verus!
