use vstd::prelude::*;

use crate::cache::{
    file_result, function_result, source_location_result, str_view, string_outcome, table_result,
    File, Function, SourceLocation, SymCache,
};
use crate::error::Error;
use crate::format::{
    decode_source_location_record, header_of, source_location_record_at, NO_ADDRESS, NO_INDEX,
    SOURCE_LOCATION_ALIGN, SOURCE_LOCATION_SIZE,
};

verus! {

/// What `file_of(sl)` returns: no file where the record names none.
pub open spec fn source_file_result(s: Seq<u8>, sl: SourceLocation) -> Result<Option<File>, Error> {
    if sl.record.file_idx == NO_INDEX {
        Ok(None)
    } else {
        match file_result(s, sl.record.file_idx) {
            Ok(f) => Ok(Some(f)),
            Err(e) => Err(e),
        }
    }
}

/// What `parent_of(sl)` returns: no parent for an outermost frame.
pub open spec fn parent_result(s: Seq<u8>, sl: SourceLocation) -> Result<Option<SourceLocation>, Error> {
    if sl.record.parent_idx == NO_INDEX {
        Ok(None)
    } else {
        match source_location_result(s, sl.record.parent_idx) {
            Ok(p) => Ok(Some(p)),
            Err(e) => Err(e),
        }
    }
}

/// Whether the cache holding `s` has any file.
pub open spec fn has_file_info_spec(s: Seq<u8>) -> bool {
    header_of(s).files.count > 0
}

/// Whether the cache holding `s` has any file and a readable source location
/// table in which some line is above zero.
pub open spec fn has_line_info_spec(s: Seq<u8>) -> bool {
    let sec = header_of(s).source_locations;
    let t = table_result(s, sec, SOURCE_LOCATION_SIZE as int, SOURCE_LOCATION_ALIGN as int);
    &&& has_file_info_spec(s)
    &&& t is Ok
    &&& exists|i: int| 0 <= i < sec.count && #[trigger] source_location_record_at(t->Ok_0, i).line > 0
}

impl Function {
    /// The entry address of the function, where the record has one.
    pub fn entry_pc(&self) -> (r: Option<u64>)
        ensures
            r == (if self.record.entry_pc == NO_ADDRESS {
                None
            } else {
                Some(self.record.entry_pc)
            }),
    {
        if self.record.entry_pc == NO_ADDRESS {
            None
        } else {
            Some(self.record.entry_pc)
        }
    }
}

impl SourceLocation {
    /// The line number of this source location.
    pub fn line(&self) -> (r: u32)
        ensures
            r == self.record.line,
    {
        self.record.line
    }
}

impl<'a> SymCache<'a> {
    /// The file of a source location, `None` where it names no file.
    pub fn file_of(&self, sl: &SourceLocation) -> (r: Result<Option<File>, Error>)
        requires
            self.wf(),
        ensures
            r == source_file_result(self@, *sl),
    {
        if sl.record.file_idx == NO_INDEX {
            return Ok(None);
        }
        match self.get_file(sl.record.file_idx) {
            Ok(f) => Ok(Some(f)),
            Err(e) => Err(e),
        }
    }

    /// The function of a source location.
    pub fn function_of(&self, sl: &SourceLocation) -> (r: Result<Function, Error>)
        requires
            self.wf(),
        ensures
            r == function_result(self@, sl.record.function_idx),
    {
        self.get_function(sl.record.function_idx)
    }

    /// The source location that `sl` was inlined into, `None` for an outermost frame.
    pub fn parent_of(&self, sl: &SourceLocation) -> (r: Result<Option<SourceLocation>, Error>)
        requires
            self.wf(),
        ensures
            r == parent_result(self@, *sl),
    {
        if sl.record.parent_idx == NO_INDEX {
            return Ok(None);
        }
        match self.get_source_location(sl.record.parent_idx) {
            Ok(p) => Ok(Some(p)),
            Err(e) => Err(e),
        }
    }

    /// The path or name of a file.
    pub fn file_name(&self, file: &File) -> (r: Result<&str, Error>)
        requires
            self.wf(),
        ensures
            string_outcome(self@, file.record.name_idx, str_view(r)),
    {
        self.get_string(file.record.name_idx)
    }

    /// The name of a function.
    pub fn function_name(&self, function: &Function) -> (r: Result<&str, Error>)
        requires
            self.wf(),
        ensures
            string_outcome(self@, function.record.name_idx, str_view(r)),
    {
        self.get_string(function.record.name_idx)
    }

    /// Returns true if file information is included.
    pub fn has_file_info(&self) -> (r: bool)
        requires
            self.wf(),
        ensures
            r == has_file_info_spec(self@),
    {
        self.header().files.count > 0
    }

    /// Returns true if line information is included.
    pub fn has_line_info(&self) -> (r: bool)
        requires
            self.wf(),
        ensures
            r == has_line_info_spec(self@),
    {
        if !self.has_file_info() {
            return false;
        }
        let sec = self.header().source_locations;
        let t = match self.table(sec, SOURCE_LOCATION_SIZE, SOURCE_LOCATION_ALIGN) {
            Ok(t) => t,
            Err(_) => return false,
        };
        let n = sec.count as usize;
        let mut i: usize = 0;
        while i < n
            invariant
                i <= n,
                n == sec.count,
                sec == header_of(self@).source_locations,
                has_file_info_spec(self@),
                t@.len() == n * 16,
                table_result(self@, sec, SOURCE_LOCATION_SIZE as int, SOURCE_LOCATION_ALIGN as int)
                    == Ok::<Seq<u8>, Error>(t@),
                forall|j: int| 0 <= j < i ==> source_location_record_at(t@, j).line == 0,
            decreases n - i,
        {
            if decode_source_location_record(t, i).line > 0 {
                assert(source_location_record_at(t@, i as int).line > 0);
                let ghost tt = table_result(self@, sec, SOURCE_LOCATION_SIZE as int, SOURCE_LOCATION_ALIGN as int);
                assert(tt->Ok_0 == t@);
                return true;
            }
            i = i + 1;
        }
        false
    }

    /// A cursor over the files, from index 0.
    pub fn files<'c>(&'c self) -> (r: FileIter<'c, 'a>)
        requires
            self.wf(),
        ensures
            r.wf(),
            r.bytes() == self@,
            r.pos() == 0,
    {
        FileIter { cache: self, file_idx: 0 }
    }

    /// A cursor over the functions, from index 0.
    pub fn functions<'c>(&'c self) -> (r: FunctionIter<'c, 'a>)
        requires
            self.wf(),
        ensures
            r.wf(),
            r.bytes() == self@,
            r.pos() == 0,
    {
        FunctionIter { cache: self, function_idx: 0 }
    }
}

/// Walks the files of a cache in index order.
pub struct FileIter<'c, 'a> {
    cache: &'c SymCache<'a>,
    file_idx: u32,
}

impl<'c, 'a> FileIter<'c, 'a> {
    pub closed spec fn bytes(&self) -> Seq<u8> {
        self.cache@
    }

    pub closed spec fn pos(&self) -> int {
        self.file_idx as int
    }

    pub closed spec fn wf(&self) -> bool {
        self.cache.wf()
    }

    /// The next file and moves on, or `None` past the last one.
    pub fn next(&mut self) -> (r: Option<Result<File, Error>>)
        requires
            old(self).wf(),
        ensures
            final(self).wf(),
            final(self).bytes() == old(self).bytes(),
            old(self).pos() < header_of(old(self).bytes()).files.count ==> r == Some(
                file_result(old(self).bytes(), old(self).pos() as u32),
            ) && final(self).pos() == old(self).pos() + 1,
            old(self).pos() >= header_of(old(self).bytes()).files.count ==> r is None
                && final(self).pos() == old(self).pos(),
    {
        if self.file_idx >= self.cache.header().files.count {
            return None;
        }
        let r = self.cache.get_file(self.file_idx);
        self.file_idx = self.file_idx + 1;
        Some(r)
    }
}

/// Walks the functions of a cache in index order.
pub struct FunctionIter<'c, 'a> {
    cache: &'c SymCache<'a>,
    function_idx: u32,
}

impl<'c, 'a> FunctionIter<'c, 'a> {
    pub closed spec fn bytes(&self) -> Seq<u8> {
        self.cache@
    }

    pub closed spec fn pos(&self) -> int {
        self.function_idx as int
    }

    pub closed spec fn wf(&self) -> bool {
        self.cache.wf()
    }

    /// The next function and moves on, or `None` past the last one.
    pub fn next(&mut self) -> (r: Option<Result<Function, Error>>)
        requires
            old(self).wf(),
        ensures
            final(self).wf(),
            final(self).bytes() == old(self).bytes(),
            old(self).pos() < header_of(old(self).bytes()).functions.count ==> r == Some(
                function_result(old(self).bytes(), old(self).pos() as u32),
            ) && final(self).pos() == old(self).pos() + 1,
            old(self).pos() >= header_of(old(self).bytes()).functions.count ==> r is None
                && final(self).pos() == old(self).pos(),
    {
        if self.function_idx >= self.cache.header().functions.count {
            return None;
        }
        let r = self.cache.get_function(self.function_idx);
        self.function_idx = self.function_idx + 1;
        Some(r)
    }
}

} // verus!
