//! A memory-mappable symbolication cache: a validated loader over an untrusted
//! byte buffer, typed views of its record tables, and resolution of an
//! instruction address to its chain of inlined source locations.
use vstd::prelude::*;

pub mod bytes;
pub mod cache;
pub mod encode;
pub mod entity;
pub mod error;
pub mod format;
pub mod laws;
pub mod lookup;

pub use cache::{File, Function, SourceLocation, SymCache};
pub use entity::{FileIter, FunctionIter};
pub use error::Error;
pub use format::{
    FileRecord, FunctionRecord, Header, RangeEntry, Section, SourceLocationRecord, StringRef,
};
pub use lookup::Symbol;

verus! {

} // verus!
