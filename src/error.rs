use vstd::prelude::*;

verus! {

#[verifier::external_type_specification]
#[verifier::external_body]
pub struct ExUtf8Error(std::str::Utf8Error);

/// Errors returned while loading a cache buffer or reading data out of it.
///
/// Once a cache has been loaded, an error on access indicates either a damaged
/// buffer or a bug in whatever wrote it; the cache itself stays usable.
#[derive(Debug, PartialEq, Eq)]
pub enum Error {
    /// A record table starts at an offset that is not a multiple of its record alignment.
    BufferNotAligned,
    /// The buffer is shorter than the fixed-size header.
    HeaderTooSmall,
    /// The endianness marker does not match the one this reader decodes.
    WrongEndianness,
    /// The magic bytes do not match.
    WrongFormat,
    /// The format version in the header is not the supported one.
    WrongVersion,
    /// The length recorded in the header differs from the buffer's length.
    BadFormatLength,
    /// A byte range (a record table) lies outside the buffer.
    OutOfBounds,
    /// The file index is out of bounds.
    InvalidFileReference(u32),
    /// The function index is out of bounds.
    InvalidFunctionReference(u32),
    /// The source location index is out of bounds.
    InvalidSourceLocationReference(u32),
    /// The address range index is out of bounds.
    InvalidRangeReference(u32),
    /// The string index is out of bounds.
    InvalidStringReference(u32),
    /// The bytes of the string with this index lie outside the string data.
    InvalidStringDataReference(u32),
    /// The bytes of the string with this index are not valid UTF-8.
    InvalidStringData(u32, std::str::Utf8Error),
    /// Following the parent links from this source location does not terminate.
    CyclicSourceLocation(u32),
    /// The address range with this index does not start after its predecessor.
    UnsortedRanges(u32),
}

impl Error {
    /// A human-readable description of the error.
    pub fn message(&self) -> String {
        match self {
            Error::BufferNotAligned => "source buffer is not correctly aligned".to_string(),
            Error::HeaderTooSmall => "header is too small".to_string(),
            Error::WrongEndianness => "endianness mismatch".to_string(),
            Error::WrongFormat => "wrong format magic".to_string(),
            Error::WrongVersion => "unknown symcache version".to_string(),
            Error::BadFormatLength => "incorrect buffer length".to_string(),
            Error::OutOfBounds => "data out of bounds".to_string(),
            Error::InvalidFileReference(_) => "file index out of bounds".to_string(),
            Error::InvalidFunctionReference(_) => "function index out of bounds".to_string(),
            Error::InvalidSourceLocationReference(_) => "source location index out of bounds".to_string(),
            Error::InvalidRangeReference(_) => "address range index out of bounds".to_string(),
            Error::InvalidStringReference(_) => "string index out of bounds".to_string(),
            Error::InvalidStringDataReference(_) => "string data out of bounds".to_string(),
            Error::InvalidStringData(_, _) => "string data contains invalid UTF-8".to_string(),
            Error::CyclicSourceLocation(_) => "source location chain is cyclic".to_string(),
            Error::UnsortedRanges(_) => "address ranges are not sorted".to_string(),
        }
    }
}

} // verus!
