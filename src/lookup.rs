use vstd::prelude::*;

use crate::cache::{source_location_result, table_result, SourceLocation, SymCache};
use crate::error::Error;
use crate::format::{decode_range_entry, header_of, range_entry_at, NO_INDEX, RANGE_ALIGN, RANGE_SIZE};

verus! {

/// `acc` followed by the frames of `r`, or the error of `r`.
pub open spec fn prepend(acc: Seq<SourceLocation>, r: Result<Seq<SourceLocation>, Error>) -> Result<
    Seq<SourceLocation>,
    Error,
> {
    match r {
        Ok(rest) => Ok(acc + rest),
        Err(e) => Err(e),
    }
}

/// The inline chain that starts at source location `idx`, innermost first, where
/// at most `fuel` source locations may be taken: each step resolves one source
/// location and goes on to its parent until one has none. A resolvable location
/// met with no fuel left means the chain repeats itself: a cycle.
pub open spec fn chain_result(s: Seq<u8>, idx: u32, fuel: nat) -> Result<Seq<SourceLocation>, Error>
    decreases fuel,
{
    match source_location_result(s, idx) {
        Err(e) => Err(e),
        Ok(sl) => if fuel == 0 {
            Err(Error::CyclicSourceLocation(idx))
        } else if sl.record.parent_idx == NO_INDEX {
            Ok(seq![sl])
        } else {
            prepend(seq![sl], chain_result(s, sl.record.parent_idx, (fuel - 1) as nat))
        },
    }
}

/// The inline chain of source location `idx` in a cache holding `s`; the number of
/// source locations bounds its length.
pub open spec fn full_chain(s: Seq<u8>, idx: u32) -> Result<Seq<SourceLocation>, Error> {
    chain_result(s, idx, header_of(s).source_locations.count as nat)
}

/// Binary search over the range table bytes `t` between `lo` and `hi`: the first
/// position in `lo .. hi` whose entry starts after `addr`, on a sorted table.
pub open spec fn search(t: Seq<u8>, addr: u64, lo: int, hi: int) -> int
    decreases hi - lo,
{
    if lo >= hi {
        lo
    } else {
        let mid = lo + (hi - lo) / 2;
        if range_entry_at(t, mid).start <= addr {
            search(t, addr, mid + 1, hi)
        } else {
            search(t, addr, lo, mid)
        }
    }
}

/// Whether the range entries of table bytes `t` start at strictly increasing addresses.
pub open spec fn ranges_sorted(t: Seq<u8>, n: int) -> bool {
    forall|i: int, j: int| 0 <= i < j < n ==> range_entry_at(t, i).start < range_entry_at(t, j).start
}

/// The position of the range entry that `lookup` takes for `addr`, where the first
/// entry starts at or below `addr`.
pub open spec fn found_range(t: Seq<u8>, n: int, addr: u64) -> int {
    search(t, addr, 1, n) - 1
}

/// What `lookup(addr)` returns on a cache holding `s`.
pub open spec fn lookup_result(s: Seq<u8>, addr: u64) -> Result<Option<Seq<SourceLocation>>, Error> {
    let sec = header_of(s).ranges;
    match table_result(s, sec, RANGE_SIZE as int, RANGE_ALIGN as int) {
        Err(e) => Err(e),
        Ok(t) => if sec.count == 0 || addr < range_entry_at(t, 0).start {
            Ok(None)
        } else {
            let i = found_range(t, sec.count as int, addr);
            if i > 0 && range_entry_at(t, i - 1).start >= range_entry_at(t, i).start {
                Err(Error::UnsortedRanges(i as u32))
            } else {
                match full_chain(s, range_entry_at(t, i).source_location_idx) {
                    Ok(c) => Ok(Some(c)),
                    Err(e) => Err(e),
                }
            }
        },
    }
}

/// The source locations that an address resolves to, innermost first.
pub struct Symbol {
    pub frames: Vec<SourceLocation>,
}

/// The frames of a returned chain, or its error.
pub open spec fn frames_view(r: Result<Vec<SourceLocation>, Error>) -> Result<
    Seq<SourceLocation>,
    Error,
> {
    match r {
        Ok(v) => Ok(v@),
        Err(e) => Err(e),
    }
}

/// The frames of a returned symbol, or its error.
pub open spec fn symbol_view(r: Result<Option<Symbol>, Error>) -> Result<
    Option<Seq<SourceLocation>>,
    Error,
> {
    match r {
        Ok(Some(sym)) => Ok(Some(sym.frames@)),
        Ok(None) => Ok(None),
        Err(e) => Err(e),
    }
}

impl<'a> SymCache<'a> {
    /// The inline chain that starts at source location `idx`: that location, then
    /// the one it was inlined into, and so on up to one without a parent. Fails
    /// where a link is out of range, or with `CyclicSourceLocation` where the chain
    /// would be longer than the number of source locations.
    pub fn inline_chain(&self, idx: u32) -> (r: Result<Vec<SourceLocation>, Error>)
        requires
            self.wf(),
        ensures
            frames_view(r) == full_chain(self@, idx),
    {
        let count = self.header().source_locations.count;
        let mut frames: Vec<SourceLocation> = Vec::new();
        let mut cur: u32 = idx;
        let mut fuel: u32 = count;
        assert(frames@ + seq![] =~= frames@);
        loop
            invariant
                self.wf(),
                count == header_of(self@).source_locations.count,
                full_chain(self@, idx) == prepend(frames@, chain_result(self@, cur, fuel as nat)),
            decreases fuel,
        {
            let sl = match self.get_source_location(cur) {
                Ok(v) => v,
                Err(e) => return Err(e),
            };
            if fuel == 0 {
                return Err(Error::CyclicSourceLocation(cur));
            }
            let ghost before = frames@;
            frames.push(sl);
            if sl.record.parent_idx == NO_INDEX {
                assert(before + seq![sl] =~= frames@);
                return Ok(frames);
            }
            proof {
                match chain_result(self@, sl.record.parent_idx, (fuel - 1) as nat) {
                    Ok(rest) => {
                        assert(before + (seq![sl] + rest) =~= frames@ + rest);
                    },
                    Err(_) => {},
                }
            }
            cur = sl.record.parent_idx;
            fuel = fuel - 1;
        }
    }

    /// Resolves `addr`: finds the range entry with the greatest start at or below
    /// `addr` and returns its inline chain, innermost first. `None` where `addr`
    /// lies below every entry's start; `UnsortedRanges` where the entry found does
    /// not start after its predecessor.
    pub fn lookup(&self, addr: u64) -> (r: Result<Option<Symbol>, Error>)
        requires
            self.wf(),
        ensures
            symbol_view(r) == lookup_result(self@, addr),
    {
        let sec = self.header().ranges;
        let t = match self.table(sec, RANGE_SIZE, RANGE_ALIGN) {
            Ok(t) => t,
            Err(e) => return Err(e),
        };
        let n = sec.count as usize;
        if n == 0 {
            return Ok(None);
        }
        if addr < decode_range_entry(t, 0).start {
            return Ok(None);
        }
        let mut lo: usize = 1;
        let mut hi: usize = n;
        while lo < hi
            invariant
                1 <= lo <= hi <= n,
                t@.len() == n * 16,
                search(t@, addr, 1, n as int) == search(t@, addr, lo as int, hi as int),
            decreases hi - lo,
        {
            let mid = lo + (hi - lo) / 2;
            if decode_range_entry(t, mid).start <= addr {
                lo = mid + 1;
            } else {
                hi = mid;
            }
        }
        let i = lo - 1;
        if i > 0 && decode_range_entry(t, i - 1).start >= decode_range_entry(t, i).start {
            return Err(Error::UnsortedRanges(i as u32));
        }
        match self.inline_chain(decode_range_entry(t, i).source_location_idx) {
            Ok(frames) => Ok(Some(Symbol { frames })),
            Err(e) => Err(e),
        }
    }
}

} // verus!
