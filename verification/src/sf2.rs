//! Structural soundness of SF2 soundfont payloads.
//!
//! The outside parser reports most malformed payloads as errors, but it
//! trusts a few fields outright: preset and instrument records name
//! their first zone, zone records name their first generator, and those
//! indices are used to slice without a bounds check; declared chunk
//! sizes are used as allocation sizes; and an odd sample-chunk size
//! makes the wave reader overrun its buffer. A crafted payload can
//! therefore abort the process inside the parser.
//!
//! This module is the library's own, fully verified pre-check: it walks
//! the payload exactly as the parser will — the same chunk layout, the
//! same quirks (version subchunks occupy four bytes whatever their
//! declared size; no padding between chunks) — and accepts only
//! payloads on which every read is in bounds, every declared size fits
//! the payload, each parameter chunk appears exactly once with a
//! record-aligned size, every zone and generator reference stays
//! inside its table, and every sample header's addresses are small
//! enough that the parser's 32-bit address sums (sample address plus
//! generator offset) cannot overflow. On such payloads the parser
//! provably returns a value instead of panicking, so the engine's
//! trusted boundary only ever parses payloads that pass
//! [`payload_structure_ok`].
//!
//! The check is deliberately strict: a payload it rejects is either one
//! the parser would reject too, or one no well-formed SF2 writer emits.

use vstd::prelude::*;

verus! {

/// The four bytes at `off` are exactly `a b c d`.
pub open spec fn cc4(data: Seq<u8>, off: int, a: u8, b: u8, c: u8, d: u8) -> bool {
    &&& data[off] == a
    &&& data[off + 1] == b
    &&& data[off + 2] == c
    &&& data[off + 3] == d
}

/// The little-endian 16-bit value at `off`.
pub open spec fn le_u16(data: Seq<u8>, off: int) -> int {
    data[off] + 0x100 * data[off + 1]
}

/// The little-endian 32-bit value at `off`.
pub open spec fn le_u32(data: Seq<u8>, off: int) -> int {
    data[off] + 0x100 * data[off + 1] + 0x1_0000 * data[off + 2] + 0x100_0000 * data[off + 3]
}

/// A `LIST` chunk of the given form type starts at `off` and lies
/// entirely inside the payload, with room for the form type itself.
pub open spec fn list_ok(data: Seq<u8>, off: int, a: u8, b: u8, c: u8, d: u8) -> bool {
    &&& off + 12 <= data.len()
    &&& cc4(data, off, 0x4cu8, 0x49u8, 0x53u8, 0x54u8)
    &&& le_u32(data, off + 4) >= 4
    &&& off + 8 + le_u32(data, off + 4) <= data.len()
    &&& cc4(data, off + 8, a, b, c, d)
}

/// Where the `LIST` chunk starting at `off` ends.
pub open spec fn list_end(data: Seq<u8>, off: int) -> int {
    off + 8 + le_u32(data, off + 4)
}

/// The info-list subchunks from `off` to exactly `end`: version
/// subchunks (`ifil`, `iver`) must declare size 4, since the parser
/// reads four bytes from them regardless; the nine known text
/// subchunks may have any size that fits; anything else the parser
/// refuses.
pub open spec fn info_subchunks_ok(data: Seq<u8>, off: int, end: int) -> bool
    decreases end - off,
{
    if off >= end {
        off == end
    } else if off + 8 > end {
        false
    } else {
        let size = le_u32(data, off + 4);
        if cc4(data, off, 0x69u8, 0x66u8, 0x69u8, 0x6cu8) || cc4(data, off, 0x69u8, 0x76u8, 0x65u8, 0x72u8) {
            &&& size == 4
            &&& off + 12 <= end
            &&& info_subchunks_ok(data, off + 12, end)
        } else if {
            ||| cc4(data, off, 0x69u8, 0x73u8, 0x6eu8, 0x67u8)
            ||| cc4(data, off, 0x49u8, 0x4eu8, 0x41u8, 0x4du8)
            ||| cc4(data, off, 0x69u8, 0x72u8, 0x6fu8, 0x6du8)
            ||| cc4(data, off, 0x49u8, 0x43u8, 0x52u8, 0x44u8)
            ||| cc4(data, off, 0x49u8, 0x45u8, 0x4eu8, 0x47u8)
            ||| cc4(data, off, 0x49u8, 0x50u8, 0x52u8, 0x44u8)
            ||| cc4(data, off, 0x49u8, 0x43u8, 0x4fu8, 0x50u8)
            ||| cc4(data, off, 0x49u8, 0x43u8, 0x4du8, 0x54u8)
            ||| cc4(data, off, 0x49u8, 0x53u8, 0x46u8, 0x54u8)
        } {
            &&& off + 8 + size <= end
            &&& info_subchunks_ok(data, off + 8 + size, end)
        } else {
            false
        }
    }
}

/// The sample-list subchunks from `off` to exactly `end`: wave data
/// (`smpl`, whose size must be even — the reader fills its sample
/// buffer through a byte view of exactly the declared size) and the
/// discarded `sm24`.
pub open spec fn sdta_subchunks_ok(data: Seq<u8>, off: int, end: int) -> bool
    decreases end - off,
{
    if off >= end {
        off == end
    } else if off + 8 > end {
        false
    } else {
        let size = le_u32(data, off + 4);
        if cc4(data, off, 0x73u8, 0x6du8, 0x70u8, 0x6cu8) {
            &&& size % 2 == 0
            &&& off + 8 + size <= end
            &&& sdta_subchunks_ok(data, off + 8 + size, end)
        } else if cc4(data, off, 0x73u8, 0x6du8, 0x32u8, 0x34u8) {
            &&& off + 8 + size <= end
            &&& sdta_subchunks_ok(data, off + 8 + size, end)
        } else {
            false
        }
    }
}

/// The size discipline of one parameter-list subchunk whose header is
/// at `off`: each record table's size is a whole number of records and
/// not empty, so the parser's record counts match what it reads.
pub open spec fn pdta_shape_ok(data: Seq<u8>, off: int) -> bool {
    let size = le_u32(data, off + 4);
    if cc4(data, off, 0x70u8, 0x68u8, 0x64u8, 0x72u8) {
        size > 0 && size % 38 == 0
    } else if {
        ||| cc4(data, off, 0x70u8, 0x62u8, 0x61u8, 0x67u8)
        ||| cc4(data, off, 0x70u8, 0x67u8, 0x65u8, 0x6eu8)
        ||| cc4(data, off, 0x69u8, 0x62u8, 0x61u8, 0x67u8)
        ||| cc4(data, off, 0x69u8, 0x67u8, 0x65u8, 0x6eu8)
    } {
        size > 0 && size % 4 == 0
    } else if cc4(data, off, 0x69u8, 0x6eu8, 0x73u8, 0x74u8) {
        size > 0 && size % 22 == 0
    } else if cc4(data, off, 0x73u8, 0x68u8, 0x64u8, 0x72u8) {
        size > 0 && size % 46 == 0
    } else if cc4(data, off, 0x70u8, 0x6du8, 0x6fu8, 0x64u8) || cc4(data, off, 0x69u8, 0x6du8, 0x6fu8, 0x64u8) {
        true
    } else {
        false
    }
}

/// The parameter-list subchunks from `off` to exactly `end`, each a
/// known chunk of sound shape that fits the payload.
pub open spec fn pdta_subchunks_ok(data: Seq<u8>, off: int, end: int) -> bool
    decreases end - off,
{
    if off >= end {
        off == end
    } else if off + 8 > end {
        false
    } else {
        let size = le_u32(data, off + 4);
        &&& pdta_shape_ok(data, off)
        &&& off + 8 + size <= end
        &&& pdta_subchunks_ok(data, off + 8 + size, end)
    }
}

/// The first subchunk named `a b c d` in the list from `off` to `end`,
/// as its content offset and size.
pub open spec fn find_sub(data: Seq<u8>, off: int, end: int, a: u8, b: u8, c: u8, d: u8) -> Option<(int, int)>
    decreases end - off,
{
    if off + 8 > end {
        None
    } else {
        let size = le_u32(data, off + 4);
        if off + 8 + size > end {
            None
        } else if cc4(data, off, a, b, c, d) {
            Some((off + 8, size))
        } else {
            find_sub(data, off + 8 + size, end, a, b, c, d)
        }
    }
}

/// The subchunk named `a b c d` occurs exactly once in the list.
pub open spec fn once_sub(data: Seq<u8>, off: int, end: int, a: u8, b: u8, c: u8, d: u8) -> bool {
    &&& find_sub(data, off, end, a, b, c, d) is Some
    &&& {
        let found = find_sub(data, off, end, a, b, c, d)->Some_0;
        find_sub(data, found.0 + found.1, end, a, b, c, d) is None
    }
}

/// The 16-bit field at offset `field` of record `i` in a table of
/// `stride`-byte records starting at `off`.
pub open spec fn record_field(data: Seq<u8>, off: int, stride: int, field: int, i: int) -> int {
    le_u16(data, off + stride * i + field)
}

/// The 32-bit field at offset `field` of record `i` in a table of
/// 46-byte sample-header records starting at `off`.
pub open spec fn sample_field(data: Seq<u8>, off: int, field: int, i: int) -> int {
    le_u32(data, off + 46 * i + field)
}

/// Every sample-header record keeps its four sample addresses (start,
/// end, loop start, loop end) below 2^30. The parser adds each of them
/// to a generator-supplied address offset in plain 32-bit arithmetic;
/// the offset is within +-(2^30 + 2^15) by construction, so with this
/// bound no sum can leave the 32-bit range, while any address of a real
/// sample (an index into at most payload-sized wave data) is far below
/// it.
pub open spec fn sample_offsets_ok(data: Seq<u8>, off: int, cnt: int) -> bool {
    forall|i: int| 0 <= i < cnt ==> {
        &&& #[trigger] sample_field(data, off, 20, i) < 0x4000_0000
        &&& sample_field(data, off, 24, i) < 0x4000_0000
        &&& sample_field(data, off, 28, i) < 0x4000_0000
        &&& sample_field(data, off, 32, i) < 0x4000_0000
    }
}

/// Every record of a table keeps its cross-reference inside the
/// referenced table: the 16-bit field at `field` of each of `cnt`
/// records of `stride` bytes, starting at `off`, is at most `bound`.
pub open spec fn zone_refs_ok(data: Seq<u8>, off: int, cnt: int, stride: int, field: int, bound: int) -> bool {
    forall|i: int| 0 <= i < cnt ==> #[trigger] record_field(data, off, stride, field, i) <= bound
}

/// The cross-reference discipline the parser relies on without
/// checking: each parameter table occurs exactly once; every preset
/// names a zone inside the preset-zone table and every zone a
/// generator inside the generator table, and likewise on the
/// instrument side. These are exactly the indices the parser uses to
/// slice its tables.
pub open spec fn pdta_records_ok(data: Seq<u8>, off: int, end: int) -> bool {
    let phdr = find_sub(data, off, end, 0x70u8, 0x68u8, 0x64u8, 0x72u8)->Some_0;
    let pbag = find_sub(data, off, end, 0x70u8, 0x62u8, 0x61u8, 0x67u8)->Some_0;
    let pgen = find_sub(data, off, end, 0x70u8, 0x67u8, 0x65u8, 0x6eu8)->Some_0;
    let inst = find_sub(data, off, end, 0x69u8, 0x6eu8, 0x73u8, 0x74u8)->Some_0;
    let ibag = find_sub(data, off, end, 0x69u8, 0x62u8, 0x61u8, 0x67u8)->Some_0;
    let igen = find_sub(data, off, end, 0x69u8, 0x67u8, 0x65u8, 0x6eu8)->Some_0;
    let shdr = find_sub(data, off, end, 0x73u8, 0x68u8, 0x64u8, 0x72u8)->Some_0;
    &&& once_sub(data, off, end, 0x70u8, 0x68u8, 0x64u8, 0x72u8)
    &&& once_sub(data, off, end, 0x70u8, 0x62u8, 0x61u8, 0x67u8)
    &&& once_sub(data, off, end, 0x70u8, 0x67u8, 0x65u8, 0x6eu8)
    &&& once_sub(data, off, end, 0x69u8, 0x6eu8, 0x73u8, 0x74u8)
    &&& once_sub(data, off, end, 0x69u8, 0x62u8, 0x61u8, 0x67u8)
    &&& once_sub(data, off, end, 0x69u8, 0x67u8, 0x65u8, 0x6eu8)
    &&& once_sub(data, off, end, 0x73u8, 0x68u8, 0x64u8, 0x72u8)
    &&& zone_refs_ok(data, phdr.0, phdr.1 / 38, 38, 24, pbag.1 / 4 - 1)
    &&& zone_refs_ok(data, pbag.0, pbag.1 / 4, 4, 0, pgen.1 / 4 - 1)
    &&& zone_refs_ok(data, inst.0, inst.1 / 22, 22, 20, ibag.1 / 4 - 1)
    &&& zone_refs_ok(data, ibag.0, ibag.1 / 4, 4, 0, igen.1 / 4 - 1)
    &&& sample_offsets_ok(data, shdr.0, shdr.1 / 46)
}

/// A payload on which the SF2 parser provably returns instead of
/// panicking: the three lists in order with every subchunk known,
/// sized within the payload and record-aligned, and every zone and
/// generator cross-reference in bounds.
pub open spec fn sf2_structure_ok(data: Seq<u8>) -> bool {
    let sdta_hdr = list_end(data, 12);
    let pdta_hdr = list_end(data, sdta_hdr);
    &&& data.len() >= 12
    &&& cc4(data, 0, 0x52u8, 0x49u8, 0x46u8, 0x46u8)
    &&& cc4(data, 8, 0x73u8, 0x66u8, 0x62u8, 0x6bu8)
    &&& list_ok(data, 12, 0x49u8, 0x4eu8, 0x46u8, 0x4fu8)
    &&& info_subchunks_ok(data, 24, list_end(data, 12))
    &&& list_ok(data, sdta_hdr, 0x73u8, 0x64u8, 0x74u8, 0x61u8)
    &&& sdta_subchunks_ok(data, sdta_hdr + 12, list_end(data, sdta_hdr))
    &&& list_ok(data, pdta_hdr, 0x70u8, 0x64u8, 0x74u8, 0x61u8)
    &&& pdta_subchunks_ok(data, pdta_hdr + 12, list_end(data, pdta_hdr))
    &&& pdta_records_ok(data, pdta_hdr + 12, list_end(data, pdta_hdr))
}

fn read_u16_at(data: &[u8], off: usize) -> (r: u16)
    requires
        off + 2 <= data@.len(),
    ensures
        r == le_u16(data@, off as int),
{
    (data[off] as u16) + 0x100 * (data[off + 1] as u16)
}

fn read_u32_at(data: &[u8], off: usize) -> (r: u32)
    requires
        off + 4 <= data@.len(),
    ensures
        r == le_u32(data@, off as int),
{
    (data[off] as u32)
        + 0x100 * (data[off + 1] as u32)
        + 0x1_0000 * (data[off + 2] as u32)
        + 0x100_0000 * (data[off + 3] as u32)
}

fn cc_at(data: &[u8], off: usize, a: u8, b: u8, c: u8, d: u8) -> (r: bool)
    requires
        off + 4 <= data@.len(),
    ensures
        r == cc4(data@, off as int, a, b, c, d),
{
    data[off] == a && data[off + 1] == b && data[off + 2] == c && data[off + 3] == d
}

/// Checks the `LIST` header at `off` and returns the chunk's end.
fn check_list(data: &[u8], off: usize, a: u8, b: u8, c: u8, d: u8) -> (r: Option<usize>)
    ensures
        r is Some <==> list_ok(data@, off as int, a, b, c, d),
        r is Some ==> r->Some_0 as int == list_end(data@, off as int),
{
    let n = data.len();
    if n < 12 || off > n - 12 {
        return None;
    }
    if !cc_at(data, off, 0x4cu8, 0x49u8, 0x53u8, 0x54u8) {
        return None;
    }
    let size = read_u32_at(data, off + 4) as usize;
    if size < 4 {
        return None;
    }
    if size > n - (off + 8) {
        return None;
    }
    if !cc_at(data, off + 8, a, b, c, d) {
        return None;
    }
    Some(off + 8 + size)
}

fn check_info_subchunks(data: &[u8], start: usize, end: usize) -> (r: bool)
    requires
        start <= end <= data@.len(),
    ensures
        r == info_subchunks_ok(data@, start as int, end as int),
{
    let mut off = start;
    while off < end
        invariant
            start <= off <= end <= data@.len(),
            info_subchunks_ok(data@, off as int, end as int)
                == info_subchunks_ok(data@, start as int, end as int),
        decreases end - off,
    {
        if end - off < 8 {
            return false;
        }
        let size = read_u32_at(data, off + 4) as usize;
        if cc_at(data, off, 0x69u8, 0x66u8, 0x69u8, 0x6cu8) || cc_at(data, off, 0x69u8, 0x76u8, 0x65u8, 0x72u8) {
            if size != 4 || end - off < 12 {
                return false;
            }
            off = off + 12;
        } else if cc_at(data, off, 0x69u8, 0x73u8, 0x6eu8, 0x67u8)
            || cc_at(data, off, 0x49u8, 0x4eu8, 0x41u8, 0x4du8)
            || cc_at(data, off, 0x69u8, 0x72u8, 0x6fu8, 0x6du8)
            || cc_at(data, off, 0x49u8, 0x43u8, 0x52u8, 0x44u8)
            || cc_at(data, off, 0x49u8, 0x45u8, 0x4eu8, 0x47u8)
            || cc_at(data, off, 0x49u8, 0x50u8, 0x52u8, 0x44u8)
            || cc_at(data, off, 0x49u8, 0x43u8, 0x4fu8, 0x50u8)
            || cc_at(data, off, 0x49u8, 0x43u8, 0x4du8, 0x54u8)
            || cc_at(data, off, 0x49u8, 0x53u8, 0x46u8, 0x54u8)
        {
            if size > end - off - 8 {
                return false;
            }
            off = off + 8 + size;
        } else {
            return false;
        }
    }
    true
}

fn check_sdta_subchunks(data: &[u8], start: usize, end: usize) -> (r: bool)
    requires
        start <= end <= data@.len(),
    ensures
        r == sdta_subchunks_ok(data@, start as int, end as int),
{
    let mut off = start;
    while off < end
        invariant
            start <= off <= end <= data@.len(),
            sdta_subchunks_ok(data@, off as int, end as int)
                == sdta_subchunks_ok(data@, start as int, end as int),
        decreases end - off,
    {
        if end - off < 8 {
            return false;
        }
        let size = read_u32_at(data, off + 4) as usize;
        if size > end - off - 8 {
            return false;
        }
        if cc_at(data, off, 0x73u8, 0x6du8, 0x70u8, 0x6cu8) {
            if size % 2 != 0 {
                return false;
            }
        } else if !cc_at(data, off, 0x73u8, 0x6du8, 0x32u8, 0x34u8) {
            return false;
        }
        off = off + 8 + size;
    }
    true
}

fn check_pdta_subchunks(data: &[u8], start: usize, end: usize) -> (r: bool)
    requires
        start <= end <= data@.len(),
    ensures
        r == pdta_subchunks_ok(data@, start as int, end as int),
{
    let mut off = start;
    while off < end
        invariant
            start <= off <= end <= data@.len(),
            pdta_subchunks_ok(data@, off as int, end as int)
                == pdta_subchunks_ok(data@, start as int, end as int),
        decreases end - off,
    {
        if end - off < 8 {
            return false;
        }
        let size = read_u32_at(data, off + 4) as usize;
        if size > end - off - 8 {
            return false;
        }
        let shape = if cc_at(data, off, 0x70u8, 0x68u8, 0x64u8, 0x72u8) {
            size > 0 && size % 38 == 0
        } else if cc_at(data, off, 0x70u8, 0x62u8, 0x61u8, 0x67u8)
            || cc_at(data, off, 0x70u8, 0x67u8, 0x65u8, 0x6eu8)
            || cc_at(data, off, 0x69u8, 0x62u8, 0x61u8, 0x67u8)
            || cc_at(data, off, 0x69u8, 0x67u8, 0x65u8, 0x6eu8)
        {
            size > 0 && size % 4 == 0
        } else if cc_at(data, off, 0x69u8, 0x6eu8, 0x73u8, 0x74u8) {
            size > 0 && size % 22 == 0
        } else if cc_at(data, off, 0x73u8, 0x68u8, 0x64u8, 0x72u8) {
            size > 0 && size % 46 == 0
        } else {
            cc_at(data, off, 0x70u8, 0x6du8, 0x6fu8, 0x64u8) || cc_at(data, off, 0x69u8, 0x6du8, 0x6fu8, 0x64u8)
        };
        if !shape {
            return false;
        }
        off = off + 8 + size;
    }
    true
}

fn find_sub_at(data: &[u8], start: usize, end: usize, a: u8, b: u8, c: u8, d: u8) -> (r: Option<(usize, usize)>)
    requires
        start <= end <= data@.len(),
    ensures
        match r {
            Some(p) => find_sub(data@, start as int, end as int, a, b, c, d)
                == Some((p.0 as int, p.1 as int)) && start + 8 <= p.0 && p.0 + p.1 <= end,
            None => find_sub(data@, start as int, end as int, a, b, c, d) is None,
        },
{
    let mut off = start;
    while off < end
        invariant
            start <= off <= end <= data@.len(),
            find_sub(data@, off as int, end as int, a, b, c, d)
                == find_sub(data@, start as int, end as int, a, b, c, d),
        decreases end - off,
    {
        if end - off < 8 {
            return None;
        }
        let size = read_u32_at(data, off + 4) as usize;
        if size > end - off - 8 {
            return None;
        }
        if cc_at(data, off, a, b, c, d) {
            return Some((off + 8, size));
        }
        off = off + 8 + size;
    }
    None
}

/// Finds the one occurrence of the subchunk, or nothing if it is
/// missing or duplicated.
fn find_unique_sub(data: &[u8], start: usize, end: usize, a: u8, b: u8, c: u8, d: u8) -> (r: Option<(usize, usize)>)
    requires
        start <= end <= data@.len(),
    ensures
        r is Some <==> once_sub(data@, start as int, end as int, a, b, c, d),
        r is Some ==> find_sub(data@, start as int, end as int, a, b, c, d)
            == Some((r->Some_0.0 as int, r->Some_0.1 as int)),
{
    match find_sub_at(data, start, end, a, b, c, d) {
        None => None,
        Some((off, size)) => {
            match find_sub_at(data, off + size, end, a, b, c, d) {
                None => Some((off, size)),
                Some(_) => None,
            }
        },
    }
}

/// Checks one record table's cross-references: the 16-bit field at
/// `field` of each of `cnt` records of `stride` bytes is at most
/// `bound`.
fn check_zone_refs(data: &[u8], off: usize, cnt: usize, stride: usize, field: usize, bound: usize) -> (r: bool)
    requires
        field + 2 <= stride,
        off + stride * cnt <= data@.len(),
    ensures
        r == zone_refs_ok(data@, off as int, cnt as int, stride as int, field as int, bound as int),
{
    let n = data.len();
    let mut i: usize = 0;
    while i < cnt
        invariant
            i <= cnt,
            field + 2 <= stride,
            n == data@.len(),
            off + stride * cnt <= data@.len(),
            forall|j: int| 0 <= j < i
                ==> #[trigger] record_field(data@, off as int, stride as int, field as int, j) <= bound,
        decreases cnt - i,
    {
        proof {
            assert(stride * i + stride == stride * (i + 1)) by (nonlinear_arith);
            assert(stride * (i + 1) <= stride * cnt) by (nonlinear_arith)
                requires
                    i + 1 <= cnt,
                    stride >= 0,
            ;
            assert(stride * i >= 0) by (nonlinear_arith)
                requires
                    i >= 0,
                    stride >= 0,
            ;
            assert(off + stride * i + field + 2 <= n);
        }
        let v = read_u16_at(data, off + stride * i + field);
        assert(v == record_field(data@, off as int, stride as int, field as int, i as int));
        if v as usize > bound {
            return false;
        }
        i = i + 1;
    }
    true
}

/// Checks one sample-header table: each record's four sample addresses
/// are below 2^30.
#[verifier::rlimit(30)]
fn check_sample_offsets(data: &[u8], off: usize, cnt: usize) -> (r: bool)
    requires
        off + 46 * cnt <= data@.len(),
    ensures
        r == sample_offsets_ok(data@, off as int, cnt as int),
{
    let n = data.len();
    let mut i: usize = 0;
    while i < cnt
        invariant
            i <= cnt,
            n == data@.len(),
            off + 46 * cnt <= data@.len(),
            sample_offsets_ok(data@, off as int, i as int),
        decreases cnt - i,
    {
        proof {
            assert(46 * i + 46 == 46 * (i + 1)) by (nonlinear_arith);
            assert(46 * (i + 1) <= 46 * cnt) by (nonlinear_arith)
                requires
                    i + 1 <= cnt,
            ;
            assert(46 * i >= 0) by (nonlinear_arith)
                requires
                    i >= 0,
            ;
            assert(off + 46 * i + 36 <= n);
        }
        let rec = off + 46 * i;
        let a = read_u32_at(data, rec + 20);
        let b = read_u32_at(data, rec + 24);
        let c = read_u32_at(data, rec + 28);
        let d = read_u32_at(data, rec + 32);
        proof {
            assert(a == sample_field(data@, off as int, 20, i as int));
            assert(b == sample_field(data@, off as int, 24, i as int));
            assert(c == sample_field(data@, off as int, 28, i as int));
            assert(d == sample_field(data@, off as int, 32, i as int));
        }
        if a >= 0x4000_0000 || b >= 0x4000_0000 || c >= 0x4000_0000 || d >= 0x4000_0000 {
            return false;
        }
        proof {
            assert(sample_offsets_ok(data@, off as int, i + 1)) by {
                assert(forall|j: int| 0 <= j < i + 1 && j != i
                    ==> #[trigger] sample_field(data@, off as int, 20, j) < 0x4000_0000
                        && sample_field(data@, off as int, 24, j) < 0x4000_0000
                        && sample_field(data@, off as int, 28, j) < 0x4000_0000
                        && sample_field(data@, off as int, 32, j) < 0x4000_0000);
            }
        }
        i = i + 1;
    }
    true
}

/// The found parameter chunk inherits the walked list's shape
/// discipline: its size obeys the record alignment for its name and it
/// lies inside the list.
proof fn lemma_found_chunk_shape(data: Seq<u8>, off: int, end: int, a: u8, b: u8, c: u8, d: u8)
    requires
        pdta_subchunks_ok(data, off, end),
        find_sub(data, off, end, a, b, c, d) is Some,
    ensures
        ({
            let found = find_sub(data, off, end, a, b, c, d)->Some_0;
            &&& cc4(data, found.0 - 8, a, b, c, d)
            &&& pdta_shape_ok(data, found.0 - 8)
            &&& found.1 == le_u32(data, found.0 - 4)
            &&& off + 8 <= found.0
            &&& found.0 + found.1 <= end
        }),
    decreases end - off,
{
    let size = le_u32(data, off + 4);
    if !cc4(data, off, a, b, c, d) {
        lemma_found_chunk_shape(data, off + 8 + size, end, a, b, c, d);
    }
}

/// Whether the payload is structurally sound, exactly as
/// [`sf2_structure_ok`] defines it. Every payload must pass here
/// before it is handed to the outside parser.
#[verifier::rlimit(100)]
#[verifier::spinoff_prover]
pub fn payload_structure_ok(data: &[u8]) -> (r: bool)
    ensures
        r == sf2_structure_ok(data@),
{
    let n = data.len();
    if n < 12 {
        return false;
    }
    if !cc_at(data, 0, 0x52u8, 0x49u8, 0x46u8, 0x46u8) || !cc_at(data, 8, 0x73u8, 0x66u8, 0x62u8, 0x6bu8) {
        return false;
    }
    let info_end = match check_list(data, 12, 0x49u8, 0x4eu8, 0x46u8, 0x4fu8) {
        Some(end) => end,
        None => {
            return false;
        },
    };
    if !check_info_subchunks(data, 24, info_end) {
        return false;
    }
    let sdta_end = match check_list(data, info_end, 0x73u8, 0x64u8, 0x74u8, 0x61u8) {
        Some(end) => end,
        None => {
            return false;
        },
    };
    if !check_sdta_subchunks(data, info_end + 12, sdta_end) {
        return false;
    }
    let pdta_end = match check_list(data, sdta_end, 0x70u8, 0x64u8, 0x74u8, 0x61u8) {
        Some(end) => end,
        None => {
            return false;
        },
    };
    let body = sdta_end + 12;
    if !check_pdta_subchunks(data, body, pdta_end) {
        return false;
    }
    let phdr = match find_unique_sub(data, body, pdta_end, 0x70u8, 0x68u8, 0x64u8, 0x72u8) {
        Some(p) => p,
        None => {
            return false;
        },
    };
    let pbag = match find_unique_sub(data, body, pdta_end, 0x70u8, 0x62u8, 0x61u8, 0x67u8) {
        Some(p) => p,
        None => {
            return false;
        },
    };
    let pgen = match find_unique_sub(data, body, pdta_end, 0x70u8, 0x67u8, 0x65u8, 0x6eu8) {
        Some(p) => p,
        None => {
            return false;
        },
    };
    let inst = match find_unique_sub(data, body, pdta_end, 0x69u8, 0x6eu8, 0x73u8, 0x74u8) {
        Some(p) => p,
        None => {
            return false;
        },
    };
    let ibag = match find_unique_sub(data, body, pdta_end, 0x69u8, 0x62u8, 0x61u8, 0x67u8) {
        Some(p) => p,
        None => {
            return false;
        },
    };
    let igen = match find_unique_sub(data, body, pdta_end, 0x69u8, 0x67u8, 0x65u8, 0x6eu8) {
        Some(p) => p,
        None => {
            return false;
        },
    };
    let shdr = match find_unique_sub(data, body, pdta_end, 0x73u8, 0x68u8, 0x64u8, 0x72u8) {
        Some(p) => p,
        None => {
            return false;
        },
    };
    proof {
        lemma_found_chunk_shape(data@, body as int, pdta_end as int, 0x73u8, 0x68u8, 0x64u8, 0x72u8);
        assert(46 * (shdr.1 / 46) <= shdr.1) by (nonlinear_arith);
        assert(shdr.1 % 46 == 0 ==> 46 * (shdr.1 / 46) == shdr.1) by (nonlinear_arith);
        lemma_found_chunk_shape(data@, body as int, pdta_end as int, 0x70u8, 0x68u8, 0x64u8, 0x72u8);
        lemma_found_chunk_shape(data@, body as int, pdta_end as int, 0x70u8, 0x62u8, 0x61u8, 0x67u8);
        lemma_found_chunk_shape(data@, body as int, pdta_end as int, 0x70u8, 0x67u8, 0x65u8, 0x6eu8);
        lemma_found_chunk_shape(data@, body as int, pdta_end as int, 0x69u8, 0x6eu8, 0x73u8, 0x74u8);
        lemma_found_chunk_shape(data@, body as int, pdta_end as int, 0x69u8, 0x62u8, 0x61u8, 0x67u8);
        lemma_found_chunk_shape(data@, body as int, pdta_end as int, 0x69u8, 0x67u8, 0x65u8, 0x6eu8);
        assert(38 * (phdr.1 / 38) <= phdr.1) by (nonlinear_arith);
        assert(4 * (pbag.1 / 4) <= pbag.1) by (nonlinear_arith);
        assert(22 * (inst.1 / 22) <= inst.1) by (nonlinear_arith);
        assert(4 * (ibag.1 / 4) <= ibag.1) by (nonlinear_arith);
        assert(pbag.1 > 0 && pbag.1 % 4 == 0 && pbag.1 / 4 >= 1);
        assert(pgen.1 > 0 && pgen.1 % 4 == 0 && pgen.1 / 4 >= 1);
        assert(ibag.1 > 0 && ibag.1 % 4 == 0 && ibag.1 / 4 >= 1);
        assert(igen.1 > 0 && igen.1 % 4 == 0 && igen.1 / 4 >= 1);
    }
    check_zone_refs(data, phdr.0, phdr.1 / 38, 38, 24, pbag.1 / 4 - 1)
        && check_zone_refs(data, pbag.0, pbag.1 / 4, 4, 0, pgen.1 / 4 - 1)
        && check_zone_refs(data, inst.0, inst.1 / 22, 22, 20, ibag.1 / 4 - 1)
        && check_zone_refs(data, ibag.0, ibag.1 / 4, 4, 0, igen.1 / 4 - 1)
        && check_sample_offsets(data, shdr.0, shdr.1 / 46)
}

} // verus!
