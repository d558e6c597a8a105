use symcache::format::{ENDIAN_MARKER, HEADER_SIZE, MAGIC, NO_ADDRESS, NO_INDEX, VERSION};
use symcache::{Error, SymCache};

struct Blob {
    name_idx: u32,
    strings: Vec<&'static [u8]>,
    files: Vec<u32>,
    functions: Vec<(u64, u32)>,
    source_locations: Vec<(u32, u32, u32, u32)>,
    ranges: Vec<(u64, u32)>,
}

fn put_u32(out: &mut Vec<u8>, v: u32) {
    out.extend_from_slice(&v.to_le_bytes());
}

fn put_u64(out: &mut Vec<u8>, v: u64) {
    out.extend_from_slice(&v.to_le_bytes());
}

fn pad_to(out: &mut Vec<u8>, align: usize) {
    while out.len() % align != 0 {
        out.push(0);
    }
}

/// Lays out a cache buffer: header, string data, then each table, aligned.
fn build(b: &Blob) -> Vec<u8> {
    let mut body: Vec<u8> = vec![0; HEADER_SIZE];
    let data_off = body.len();
    let mut refs = Vec::new();
    for s in &b.strings {
        refs.push(((body.len() - data_off) as u32, s.len() as u32));
        body.extend_from_slice(s);
    }
    let data_len = body.len() - data_off;
    pad_to(&mut body, 8);
    let strings_off = body.len();
    for (o, l) in &refs {
        put_u32(&mut body, *o);
        put_u32(&mut body, *l);
    }
    let files_off = body.len();
    for f in &b.files {
        put_u32(&mut body, *f);
    }
    pad_to(&mut body, 8);
    let functions_off = body.len();
    for (pc, n) in &b.functions {
        put_u64(&mut body, *pc);
        put_u32(&mut body, *n);
        put_u32(&mut body, 0);
    }
    let sl_off = body.len();
    for (f, func, line, parent) in &b.source_locations {
        put_u32(&mut body, *f);
        put_u32(&mut body, *func);
        put_u32(&mut body, *line);
        put_u32(&mut body, *parent);
    }
    pad_to(&mut body, 8);
    let ranges_off = body.len();
    for (start, sl) in &b.ranges {
        put_u64(&mut body, *start);
        put_u32(&mut body, *sl);
        put_u32(&mut body, 0);
    }
    let mut h = Vec::new();
    put_u32(&mut h, MAGIC);
    put_u32(&mut h, VERSION);
    put_u32(&mut h, ENDIAN_MARKER);
    put_u32(&mut h, body.len() as u32);
    put_u32(&mut h, b.name_idx);
    for (o, c) in [
        (strings_off, b.strings.len()),
        (data_off, data_len),
        (files_off, b.files.len()),
        (functions_off, b.functions.len()),
        (sl_off, b.source_locations.len()),
        (ranges_off, b.ranges.len()),
    ] {
        put_u32(&mut h, o as u32);
        put_u32(&mut h, c as u32);
    }
    body[..h.len()].copy_from_slice(&h);
    body
}

fn single() -> Blob {
    Blob {
        name_idx: 0,
        strings: vec![b"main.c"],
        files: vec![0],
        functions: vec![(0x1000, 0)],
        source_locations: vec![(0, 0, 42, NO_INDEX)],
        ranges: vec![(0x1000, 0)],
    }
}

fn nested() -> Blob {
    Blob {
        name_idx: 5,
        strings: vec![b"a.c", b"b.h", b"outer", b"middle", b"inner", b"my cache"],
        files: vec![0, 1],
        functions: vec![(0x100, 2), (NO_ADDRESS, 3), (NO_ADDRESS, 4)],
        source_locations: vec![
            (0, 0, 10, NO_INDEX),
            (1, 1, 20, 0),
            (1, 2, 30, 1),
            (NO_INDEX, 0, 11, NO_INDEX),
        ],
        ranges: vec![(0x100, 0), (0x110, 2), (0x120, 3)],
    }
}

fn set_u32(buf: &mut [u8], at: usize, v: u32) {
    buf[at..at + 4].copy_from_slice(&v.to_le_bytes());
}

fn read_u32(buf: &[u8], at: usize) -> u32 {
    u32::from_le_bytes([buf[at], buf[at + 1], buf[at + 2], buf[at + 3]])
}

#[test]
fn scenario_single_range() {
    let buf = build(&single());
    let cache = SymCache::from_slice(&buf).unwrap();
    let sym = cache.lookup(0x1000).unwrap().unwrap();
    assert_eq!(sym.frames.len(), 1);
    let sl = &sym.frames[0];
    assert_eq!(sl.line(), 42);
    let file = cache.file_of(sl).unwrap().unwrap();
    assert_eq!(cache.file_name(&file).unwrap(), "main.c");
    let func = cache.function_of(sl).unwrap();
    assert_eq!(cache.function_name(&func).unwrap(), "main.c");
    assert!(cache.lookup(0x0FFF).unwrap().is_none());
    let later = cache.lookup(0x2000).unwrap().unwrap();
    assert_eq!(later.frames, sym.frames);
}

#[test]
fn self_parent_is_a_cycle() {
    let mut b = single();
    b.source_locations = vec![(0, 0, 42, 0)];
    let buf = build(&b);
    let cache = SymCache::from_slice(&buf).unwrap();
    assert!(matches!(cache.lookup(0x1000), Err(Error::CyclicSourceLocation(_))));
    assert!(matches!(cache.inline_chain(0), Err(Error::CyclicSourceLocation(_))));
}

#[test]
fn two_location_cycle() {
    let mut b = single();
    b.source_locations = vec![(0, 0, 1, 1), (0, 0, 2, 0)];
    let buf = build(&b);
    let cache = SymCache::from_slice(&buf).unwrap();
    assert!(matches!(cache.lookup(0x1000), Err(Error::CyclicSourceLocation(_))));
}

#[test]
fn lookup_is_idempotent() {
    let buf = build(&nested());
    let cache = SymCache::from_slice(&buf).unwrap();
    for addr in [0u64, 0xff, 0x100, 0x10f, 0x110, 0x115, 0x120, u64::MAX] {
        let a = cache.lookup(addr).unwrap().map(|s| s.frames);
        let b = cache.lookup(addr).unwrap().map(|s| s.frames);
        assert_eq!(a, b);
    }
}

#[test]
fn below_first_range_is_unmapped() {
    let buf = build(&nested());
    let cache = SymCache::from_slice(&buf).unwrap();
    for addr in [0u64, 1, 0x80, 0xff] {
        assert!(cache.lookup(addr).unwrap().is_none());
    }
}

#[test]
fn empty_range_table_maps_nothing() {
    let mut b = single();
    b.ranges = vec![];
    let buf = build(&b);
    let cache = SymCache::from_slice(&buf).unwrap();
    assert!(cache.lookup(0x1000).unwrap().is_none());
    assert!(cache.lookup(u64::MAX).unwrap().is_none());
}

#[test]
fn table_get_bounds() {
    let buf = build(&nested());
    let cache = SymCache::from_slice(&buf).unwrap();
    for i in 0..6 {
        assert!(cache.get_string_ref(i).is_ok());
        assert!(cache.get_string(i).is_ok());
    }
    assert_eq!(cache.get_string_ref(6), Err(Error::InvalidStringReference(6)));
    assert!(matches!(cache.get_string(7), Err(Error::InvalidStringReference(7))));
    for i in 0..2 {
        assert_eq!(cache.get_file(i).unwrap().index, i);
    }
    assert_eq!(cache.get_file(2), Err(Error::InvalidFileReference(2)));
    for i in 0..3 {
        assert_eq!(cache.get_function(i).unwrap().index, i);
    }
    assert_eq!(cache.get_function(3), Err(Error::InvalidFunctionReference(3)));
    for i in 0..4 {
        assert_eq!(cache.get_source_location(i).unwrap().index, i);
    }
    assert_eq!(
        cache.get_source_location(4),
        Err(Error::InvalidSourceLocationReference(4))
    );
    for i in 0..3 {
        assert!(cache.get_range(i).is_ok());
    }
    assert_eq!(cache.get_range(3), Err(Error::InvalidRangeReference(3)));
    assert_eq!(cache.get_range(u32::MAX), Err(Error::InvalidRangeReference(u32::MAX)));
}

#[test]
fn round_trip() {
    let b = nested();
    let buf = build(&b);
    let cache = SymCache::from_slice(&buf).unwrap();
    assert_eq!(cache.name().unwrap(), "my cache");
    for (i, s) in b.strings.iter().enumerate() {
        assert_eq!(cache.get_string(i as u32).unwrap().as_bytes(), *s);
    }
    for (i, f) in b.files.iter().enumerate() {
        let file = cache.get_file(i as u32).unwrap();
        assert_eq!(file.record.name_idx, *f);
        assert_eq!(cache.file_name(&file).unwrap().as_bytes(), b.strings[*f as usize]);
    }
    for (i, (pc, n)) in b.functions.iter().enumerate() {
        let func = cache.get_function(i as u32).unwrap();
        assert_eq!(func.record.entry_pc, *pc);
        assert_eq!(func.record.name_idx, *n);
    }
    assert_eq!(cache.get_function(0).unwrap().entry_pc(), Some(0x100));
    assert_eq!(cache.get_function(1).unwrap().entry_pc(), None);
    for (i, (f, func, line, parent)) in b.source_locations.iter().enumerate() {
        let sl = cache.get_source_location(i as u32).unwrap();
        assert_eq!(sl.record.file_idx, *f);
        assert_eq!(sl.record.function_idx, *func);
        assert_eq!(sl.record.line, *line);
        assert_eq!(sl.record.parent_idx, *parent);
    }
    for (i, (start, sl)) in b.ranges.iter().enumerate() {
        let r = cache.get_range(i as u32).unwrap();
        assert_eq!(r.start, *start);
        assert_eq!(r.source_location_idx, *sl);
    }

    // An inlined chain comes innermost first.
    let sym = cache.lookup(0x115).unwrap().unwrap();
    let lines: Vec<u32> = sym.frames.iter().map(|f| f.line()).collect();
    assert_eq!(lines, vec![30, 20, 10]);
    let names: Vec<&str> = sym
        .frames
        .iter()
        .map(|f| cache.function_name(&cache.function_of(f).unwrap()).unwrap())
        .collect();
    assert_eq!(names, vec!["inner", "middle", "outer"]);
    let files: Vec<&str> = sym
        .frames
        .iter()
        .map(|f| cache.file_name(&cache.file_of(f).unwrap().unwrap()).unwrap())
        .collect();
    assert_eq!(files, vec!["b.h", "b.h", "a.c"]);
    assert_eq!(cache.parent_of(&sym.frames[0]).unwrap(), Some(sym.frames[1]));
    assert_eq!(cache.parent_of(&sym.frames[2]).unwrap(), None);

    let outer = cache.lookup(0x10f).unwrap().unwrap();
    assert_eq!(outer.frames.len(), 1);
    assert_eq!(outer.frames[0].index, 0);
    let last = cache.lookup(0x120).unwrap().unwrap();
    assert_eq!(last.frames[0].index, 3);
    assert_eq!(cache.file_of(&last.frames[0]).unwrap(), None);
}

#[test]
fn flipped_endianness_is_rejected() {
    let mut buf = build(&single());
    let marker = read_u32(&buf, 8);
    set_u32(&mut buf, 8, marker.swap_bytes());
    assert!(matches!(SymCache::from_slice(&buf), Err(Error::WrongEndianness)));
}

#[test]
fn truncation_is_rejected() {
    let buf = build(&nested());
    for k in 0..buf.len() {
        let r = SymCache::from_slice(&buf[..k]);
        if k < HEADER_SIZE {
            assert!(matches!(r, Err(Error::HeaderTooSmall)));
        } else {
            assert!(matches!(r, Err(Error::BadFormatLength)));
        }
    }
    assert!(SymCache::from_slice(&buf).is_ok());
}

#[test]
fn load_errors() {
    let good = build(&single());
    assert!(matches!(SymCache::from_slice(&[]), Err(Error::HeaderTooSmall)));
    let mut b = good.clone();
    b[0] = b'X';
    assert!(matches!(SymCache::from_slice(&b), Err(Error::WrongFormat)));
    let mut b = good.clone();
    set_u32(&mut b, 4, VERSION + 1);
    assert!(matches!(SymCache::from_slice(&b), Err(Error::WrongVersion)));
    let mut b = good.clone();
    b.push(0);
    assert!(matches!(SymCache::from_slice(&b), Err(Error::BadFormatLength)));
    let mut b = good.clone();
    set_u32(&mut b, 8, 0);
    b[0] = b'X';
    assert!(matches!(SymCache::from_slice(&b), Err(Error::WrongFormat)));
    assert!(SymCache::from_vec(good).is_ok());
}

#[test]
fn table_errors() {
    let good = build(&single());
    // File table moved to an offset that is not a multiple of four.
    let mut b = good.clone();
    let off = read_u32(&b, 36);
    set_u32(&mut b, 36, off + 1);
    let cache = SymCache::from_slice(&b).unwrap();
    assert_eq!(cache.get_file(0), Err(Error::BufferNotAligned));
    // Source location table that claims more records than the buffer holds.
    let mut b = good.clone();
    set_u32(&mut b, 56, 1000);
    let cache = SymCache::from_slice(&b).unwrap();
    assert_eq!(cache.get_source_location(0), Err(Error::OutOfBounds));
    assert_eq!(cache.lookup(0x1000).map(|s| s.is_some()), Err(Error::OutOfBounds));
    assert!(!cache.has_line_info());
    // Range table far beyond the end of the buffer.
    let mut b = good.clone();
    set_u32(&mut b, 60, 0xFFFF_FFF8);
    let cache = SymCache::from_slice(&b).unwrap();
    assert!(matches!(cache.lookup(0x1000), Err(Error::OutOfBounds)));
}

#[test]
fn string_errors() {
    let mut b = single();
    b.strings = vec![b"ok", b"\xff\xfe"];
    let buf = build(&b);
    let cache = SymCache::from_slice(&buf).unwrap();
    assert_eq!(cache.get_string(0).unwrap(), "ok");
    assert!(matches!(cache.get_string(1), Err(Error::InvalidStringData(1, _))));
    assert!(matches!(cache.get_string(2), Err(Error::InvalidStringReference(2))));

    // A string record whose bytes run past the string data.
    let mut buf = build(&single());
    let strings_off = read_u32(&buf, 20) as usize;
    set_u32(&mut buf, strings_off + 4, 7);
    let cache = SymCache::from_slice(&buf).unwrap();
    assert!(matches!(cache.get_string(0), Err(Error::InvalidStringDataReference(0))));
    assert!(matches!(cache.name(), Err(Error::InvalidStringDataReference(0))));

    // String data region that lies outside the buffer.
    let mut buf = build(&single());
    set_u32(&mut buf, 28, 0xFFFF_FF00);
    let cache = SymCache::from_slice(&buf).unwrap();
    assert!(matches!(cache.get_string(0), Err(Error::InvalidStringDataReference(0))));
}

#[test]
fn empty_string_resolves() {
    let mut b = single();
    b.strings = vec![b"", b"main.c"];
    let buf = build(&b);
    let cache = SymCache::from_slice(&buf).unwrap();
    assert_eq!(cache.get_string(0).unwrap(), "");
    assert_eq!(cache.get_string(1).unwrap(), "main.c");
}

#[test]
fn reference_errors() {
    let mut b = single();
    b.source_locations = vec![(3, 4, 1, 9)];
    let buf = build(&b);
    let cache = SymCache::from_slice(&buf).unwrap();
    let sl = cache.get_source_location(0).unwrap();
    assert_eq!(cache.file_of(&sl), Err(Error::InvalidFileReference(3)));
    assert_eq!(cache.function_of(&sl), Err(Error::InvalidFunctionReference(4)));
    assert_eq!(cache.parent_of(&sl), Err(Error::InvalidSourceLocationReference(9)));
    assert!(matches!(
        cache.lookup(0x1000),
        Err(Error::InvalidSourceLocationReference(9))
    ));
    let mut b = single();
    b.ranges = vec![(0x1000, 5)];
    let buf = build(&b);
    let cache = SymCache::from_slice(&buf).unwrap();
    assert!(matches!(
        cache.lookup(0x1000),
        Err(Error::InvalidSourceLocationReference(5))
    ));
}

#[test]
fn duplicate_range_start_is_unsorted() {
    let mut b = single();
    b.ranges = vec![(0x1000, 0), (0x1000, 0), (0x2000, 0)];
    let buf = build(&b);
    let cache = SymCache::from_slice(&buf).unwrap();
    assert!(matches!(cache.lookup(0x1800), Err(Error::UnsortedRanges(1))));
    assert!(cache.lookup(0x2000).unwrap().is_some());
}

#[test]
fn line_and_file_info() {
    let buf = build(&nested());
    let cache = SymCache::from_slice(&buf).unwrap();
    assert!(cache.has_file_info());
    assert!(cache.has_line_info());
    let mut b = nested();
    b.source_locations = vec![(0, 0, 0, NO_INDEX)];
    b.ranges = vec![(0x100, 0)];
    let buf = build(&b);
    let cache = SymCache::from_slice(&buf).unwrap();
    assert!(cache.has_file_info());
    assert!(!cache.has_line_info());
    let mut b = nested();
    b.files = vec![];
    let buf = build(&b);
    let cache = SymCache::from_slice(&buf).unwrap();
    assert!(!cache.has_file_info());
    assert!(!cache.has_line_info());
}

#[test]
fn iterate_files_and_functions() {
    let buf = build(&nested());
    let cache = SymCache::from_slice(&buf).unwrap();
    let mut names = Vec::new();
    let mut it = cache.files();
    while let Some(f) = it.next() {
        names.push(cache.file_name(&f.unwrap()).unwrap());
    }
    assert_eq!(names, vec!["a.c", "b.h"]);
    assert!(it.next().is_none());
    // A fresh cursor starts over.
    let mut again = cache.files();
    assert_eq!(again.next().unwrap().unwrap().index, 0);
    let mut fnames = Vec::new();
    let mut it = cache.functions();
    while let Some(f) = it.next() {
        fnames.push(cache.function_name(&f.unwrap()).unwrap());
    }
    assert_eq!(fnames, vec!["outer", "middle", "inner"]);
}

#[test]
fn error_messages() {
    assert_eq!(Error::WrongEndianness.message(), "endianness mismatch");
    assert_eq!(Error::HeaderTooSmall.message(), "header is too small");
}
