//! The headers of a loaded PE image: its size and the address ranges of its
//! sections. The image is handed over as the bytes that start at its base.
use vstd::prelude::*;
use vstd::utf8::valid_utf8;
use vstd::string::StringSliceAdditionalSpecFns;
use crate::mem::PatternSearchError;

verus! {

/// The little-endian 16-bit value at `off`.
pub open spec fn le_u16(b: Seq<u8>, off: int) -> int {
    b[off] + b[off + 1] * 0x100
}

/// The little-endian 32-bit value at `off`.
pub open spec fn le_u32(b: Seq<u8>, off: int) -> int {
    b[off] + b[off + 1] * 0x100 + b[off + 2] * 0x10000 + b[off + 3] * 0x1000000
}

/// A 32-bit value read as two's complement.
pub open spec fn signed32(v: int) -> int {
    if v < 0x8000_0000 { v } else { v - 0x1_0000_0000 }
}

/// Offset of `e_lfanew` in the DOS header.
pub const DOS_LFANEW_OFFSET: usize = 0x3C;
/// Size of the 64-bit NT headers (`IMAGE_NT_HEADERS64`).
pub const NT_HEADERS64_SIZE: usize = 264;
/// Offset of `FileHeader.NumberOfSections` in the NT headers.
pub const NUMBER_OF_SECTIONS_OFFSET: usize = 6;
/// Offset of `OptionalHeader.SizeOfImage` in the NT headers.
pub const SIZE_OF_IMAGE_OFFSET: usize = 80;
/// Size of a section header (`IMAGE_SECTION_HEADER`).
pub const SECTION_HEADER_SIZE: usize = 40;

fn read_u16(b: &[u8], off: usize) -> (r: u16)
    requires
        off + 2 <= b@.len(),
    ensures
        r == le_u16(b@, off as int),
{
    b[off] as u16 + (b[off + 1] as u16) * 0x100
}

fn read_u32(b: &[u8], off: usize) -> (r: u32)
    requires
        off + 4 <= b@.len(),
    ensures
        r == le_u32(b@, off as int),
{
    b[off] as u32 + (b[off + 1] as u32) * 0x100 + (b[off + 2] as u32) * 0x10000 + (b[off + 3] as u32) * 0x1000000
}

/// The offset of the NT headers from the image base (`e_lfanew`), if the DOS header can be read.
pub open spec fn nt_headers_offset(image: Seq<u8>) -> Option<int> {
    if image.len() < DOS_LFANEW_OFFSET + 4 {
        None
    } else {
        Some(signed32(le_u32(image, DOS_LFANEW_OFFSET as int)))
    }
}

/// Whether the address `base + offset` is the null address.
pub open spec fn is_null_address(base: int, offset: int) -> bool {
    (base + offset) % 0x1_0000_0000_0000_0000 == 0
}

/// The address range `(base, base + SizeOfImage)` of the image at `base`,
/// or `None` when its headers cannot be read from `image`.
pub open spec fn module_range_spec(base: int, image: Seq<u8>) -> Option<(int, int)> {
    match nt_headers_offset(image) {
        None => None,
        Some(off) => if is_null_address(base, off) || off < 0
            || off + SIZE_OF_IMAGE_OFFSET + 4 > image.len() {
            None
        } else {
            Some((base, base + le_u32(image, off + SIZE_OF_IMAGE_OFFSET)))
        },
    }
}

fn nt_offset_exec(image: &[u8]) -> (r: Option<i64>)
    ensures
        r matches Some(v) ==> nt_headers_offset(image@) == Some(v as int),
        r is None <==> nt_headers_offset(image@) is None,
{
    if image.len() < DOS_LFANEW_OFFSET + 4 {
        return None;
    }
    let raw = read_u32(image, DOS_LFANEW_OFFSET);
    if raw < 0x8000_0000 {
        Some(raw as i64)
    } else {
        Some(raw as i64 - 0x1_0000_0000)
    }
}

fn is_null_exec(base: usize, off: i64) -> (r: bool)
    ensures
        r == is_null_address(base as int, off as int),
{
    let wrapped = (base as i128 + off as i128) % 0x1_0000_0000_0000_0000i128;
    wrapped == 0
}

/// The address range of the loaded image at `base`, whose bytes from `base`
/// on are `image`: from its base to the end given by `SizeOfImage`. Fails
/// with `OutOfRange` when the headers point at the null address or lie
/// outside `image`.
pub fn module_range(base: usize, image: &[u8]) -> (r: Result<(usize, usize), PatternSearchError>)
    requires
        base + 0x1_0000_0000 <= usize::MAX,
    ensures
        match module_range_spec(base as int, image@) {
            Some(range) => r matches Ok(got) && got.0 == range.0 && got.1 == range.1,
            None => r matches Err(PatternSearchError::OutOfRange),
        },
{
    let off = match nt_offset_exec(image) {
        Some(o) => o,
        None => {
            return Err(PatternSearchError::OutOfRange);
        },
    };
    if is_null_exec(base, off) || off < 0 || off as u64 + (SIZE_OF_IMAGE_OFFSET + 4) as u64 > image.len() as u64 {
        return Err(PatternSearchError::OutOfRange);
    }
    let size = read_u32(image, off as usize + SIZE_OF_IMAGE_OFFSET);
    Ok((base, base + size as usize))
}

/// The section name bytes with trailing NUL bytes removed.
pub open spec fn trim_trailing_nuls(b: Seq<u8>) -> Seq<u8>
    decreases b.len(),
{
    if b.len() > 0 && b.last() == 0 {
        trim_trailing_nuls(b.drop_last())
    } else {
        b
    }
}

/// Whether a raw 8-byte section name denotes `name` (given as UTF-8 bytes):
/// the name read up to its trailing NULs, or the empty name when that is not UTF-8.
pub open spec fn section_name_is(raw: Seq<u8>, name: Seq<u8>) -> bool {
    let t = trim_trailing_nuls(raw);
    if valid_utf8(t) { t == name } else { name.len() == 0 }
}

/// The address range of the first section named `name` among sections `i`
/// and later whose range does not start or end at address zero.
pub open spec fn find_section_from(
    image: Seq<u8>,
    base: int,
    table: int,
    count: int,
    name: Seq<u8>,
    i: int,
) -> Option<(int, int)>
    decreases count - i,
{
    if i < 0 || i >= count {
        None
    } else {
        let h = table + i * SECTION_HEADER_SIZE;
        if h + SECTION_HEADER_SIZE > image.len() {
            None
        } else {
            let start = base + le_u32(image, h + 12);
            let end = start + le_u32(image, h + 8);
            if section_name_is(image.subrange(h, h + 8), name) && start != 0 && end != 0 {
                Some((start, end))
            } else {
                find_section_from(image, base, table, count, name, i + 1)
            }
        }
    }
}

/// The address range of the section named `name` (as UTF-8 bytes) of the
/// image at `base`, or `None`.
pub open spec fn section_range_spec(base: int, image: Seq<u8>, name: Seq<u8>) -> Option<(int, int)> {
    match nt_headers_offset(image) {
        None => None,
        Some(off) => if is_null_address(base, off) || off < 0
            || off + NT_HEADERS64_SIZE > image.len() {
            None
        } else {
            find_section_from(
                image,
                base,
                off + NT_HEADERS64_SIZE,
                le_u16(image, off + NUMBER_OF_SECTIONS_OFFSET),
                name,
                0,
            )
        },
    }
}

/// `std::str::from_utf8`, of which only whether it succeeds is used.
#[verifier::external_body]
fn is_utf8(bytes: &[u8]) -> (r: bool)
    ensures
        r == valid_utf8(bytes@),
{
    std::str::from_utf8(bytes).is_ok()
}

fn section_name_is_exec(image: &[u8], h: usize, name: &[u8]) -> (r: bool)
    requires
        h + 8 <= image@.len(),
    ensures
        r == section_name_is(image@.subrange(h as int, h + 8), name@),
{
    let ghost raw = image@.subrange(h as int, h + 8);
    let mut len: usize = 8;
    proof {
        assert(raw.subrange(0, 8) =~= raw);
    }
    while len > 0 && image[h + len - 1] == 0
        invariant
            len <= 8,
            h + 8 <= image.len(),
            raw == image@.subrange(h as int, h + 8),
            trim_trailing_nuls(raw) == trim_trailing_nuls(raw.subrange(0, len as int)),
        decreases len,
    {
        proof {
            assert(raw.subrange(0, len as int).drop_last() =~= raw.subrange(0, len - 1));
        }
        len = len - 1;
    }
    let mut trimmed: Vec<u8> = Vec::new();
    let mut i: usize = 0;
    while i < len
        invariant
            i <= len <= 8,
            h + 8 <= image.len(),
            raw == image@.subrange(h as int, h + 8),
            trimmed@ == raw.subrange(0, i as int),
        decreases len - i,
    {
        trimmed.push(image[h + i]);
        i = i + 1;
    }
    if is_utf8(trimmed.as_slice()) {
        bytes_equal(trimmed.as_slice(), name)
    } else {
        name.len() == 0
    }
}

fn bytes_equal(a: &[u8], b: &[u8]) -> (r: bool)
    ensures
        r == (a@ == b@),
{
    if a.len() != b.len() {
        return false;
    }
    let mut i: usize = 0;
    while i < a.len()
        invariant
            a@.len() == b@.len(),
            i <= a@.len(),
            forall|q: int| 0 <= q < i ==> a@[q] == b@[q],
        decreases a.len() - i,
    {
        if a[i] != b[i] {
            return false;
        }
        i = i + 1;
    }
    assert(a@ =~= b@);
    true
}

/// The address range of the section named `section_name` of the image at
/// `module`, whose bytes from `module` on are `image`: the first section of
/// that name whose range neither starts nor ends at address zero. Fails with
/// `OutOfRange` when there is none, or when the headers cannot be read.
pub fn get_pe_section_range(module: usize, image: &[u8], section_name: &str) -> (r: Result<(usize, usize), PatternSearchError>)
    requires
        module + 0x2_0000_0000 <= usize::MAX,
    ensures
        match section_range_spec(module as int, image@, section_name.spec_bytes()) {
            Some(range) => r matches Ok(got) && got.0 == range.0 && got.1 == range.1,
            None => r matches Err(PatternSearchError::OutOfRange),
        },
{
    let name = section_name.as_bytes();
    let off = match nt_offset_exec(image) {
        Some(o) => o,
        None => {
            return Err(PatternSearchError::OutOfRange);
        },
    };
    if is_null_exec(module, off) || off < 0 || off as u64 + NT_HEADERS64_SIZE as u64 > image.len() as u64 {
        return Err(PatternSearchError::OutOfRange);
    }
    let nt = off as usize;
    let count = read_u16(image, nt + NUMBER_OF_SECTIONS_OFFSET);
    let table = nt + NT_HEADERS64_SIZE;
    let ghost spec_count = le_u16(image@, nt + NUMBER_OF_SECTIONS_OFFSET);
    let mut i: u16 = 0;
    while i < count
        invariant
            table == nt + NT_HEADERS64_SIZE,
            table <= image@.len(),
            name@ == section_name.spec_bytes(),
            count == spec_count,
            module + 0x2_0000_0000 <= usize::MAX,
            section_range_spec(module as int, image@, name@) == find_section_from(
                image@, module as int, table as int, count as int, name@, i as int),
        decreases count - i,
    {
        let idx = i as usize;
        if idx * SECTION_HEADER_SIZE + SECTION_HEADER_SIZE > image.len() - table {
            return Err(PatternSearchError::OutOfRange);
        }
        let h = table + idx * SECTION_HEADER_SIZE;
        let va = read_u32(image, h + 12);
        let size = read_u32(image, h + 8);
        let start = module + va as usize;
        let end = start + size as usize;
        let named = section_name_is_exec(image, h, name);
        proof {
            assert(find_section_from(image@, module as int, table as int, count as int, name@, i as int)
                == if named && start != 0 && end != 0 {
                    Some((start as int, end as int))
                } else {
                    find_section_from(image@, module as int, table as int, count as int, name@, i + 1)
                });
        }
        if named && start != 0 && end != 0 {
            return Ok((start, end));
        }
        i = i + 1;
    }
    Err(PatternSearchError::OutOfRange)
}

/// The address range of the section named `section_name` of the image at
/// `module` (see `get_pe_section_range`).
pub fn get_section(module: usize, image: &[u8], section_name: &str) -> (r: Result<(usize, usize), PatternSearchError>)
    requires
        module + 0x2_0000_0000 <= usize::MAX,
    ensures
        match section_range_spec(module as int, image@, section_name.spec_bytes()) {
            Some(range) => r matches Ok(got) && got.0 == range.0 && got.1 == range.1,
            None => r matches Err(PatternSearchError::OutOfRange),
        },
{
    get_pe_section_range(module, image, section_name)
}

/// The UTF-8 bytes of a section name made of ASCII characters.
pub open spec fn ascii_bytes(name: Seq<char>) -> Seq<u8> {
    name.map_values(|c: char| c as u8)
}

/// The range of the code section, `.text`.
pub fn get_code_section(module: usize, image: &[u8]) -> (r: Result<(usize, usize), PatternSearchError>)
    requires
        module + 0x2_0000_0000 <= usize::MAX,
    ensures
        match section_range_spec(module as int, image@, ascii_bytes(seq!['.', 't', 'e', 'x', 't'])) {
            Some(range) => r matches Ok(got) && got.0 == range.0 && got.1 == range.1,
            None => r matches Err(PatternSearchError::OutOfRange),
        },
{
    proof {
        broadcast use vstd::string::is_ascii_spec_bytes;
        reveal_strlit(".text");
        assert(vstd::string::is_ascii(".text"));
        assert(".text".spec_bytes() =~= ascii_bytes(seq!['.', 't', 'e', 'x', 't']));
    }
    get_section(module, image, ".text")
}

/// The range of the read-only data section, `.rdata`.
pub fn get_rdata_section(module: usize, image: &[u8]) -> (r: Result<(usize, usize), PatternSearchError>)
    requires
        module + 0x2_0000_0000 <= usize::MAX,
    ensures
        match section_range_spec(module as int, image@, ascii_bytes(seq!['.', 'r', 'd', 'a', 't', 'a'])) {
            Some(range) => r matches Ok(got) && got.0 == range.0 && got.1 == range.1,
            None => r matches Err(PatternSearchError::OutOfRange),
        },
{
    proof {
        broadcast use vstd::string::is_ascii_spec_bytes;
        reveal_strlit(".rdata");
        assert(vstd::string::is_ascii(".rdata"));
        assert(".rdata".spec_bytes() =~= ascii_bytes(seq!['.', 'r', 'd', 'a', 't', 'a']));
    }
    get_section(module, image, ".rdata")
}

/// The range of the data section, `.data`.
pub fn get_data_section(module: usize, image: &[u8]) -> (r: Result<(usize, usize), PatternSearchError>)
    requires
        module + 0x2_0000_0000 <= usize::MAX,
    ensures
        match section_range_spec(module as int, image@, ascii_bytes(seq!['.', 'd', 'a', 't', 'a'])) {
            Some(range) => r matches Ok(got) && got.0 == range.0 && got.1 == range.1,
            None => r matches Err(PatternSearchError::OutOfRange),
        },
{
    proof {
        broadcast use vstd::string::is_ascii_spec_bytes;
        reveal_strlit(".data");
        assert(vstd::string::is_ascii(".data"));
        assert(".data".spec_bytes() =~= ascii_bytes(seq!['.', 'd', 'a', 't', 'a']));
    }
    get_section(module, image, ".data")
}

/// The code, read-only data and data sections are the sections named
/// `.text`, `.rdata` and `.data`: `get_code_section`, `get_rdata_section` and
/// `get_data_section` give what `get_section` gives for those names.
pub proof fn law_named_sections(module: usize, image: Seq<u8>)
    ensures
        section_range_spec(module as int, image, ascii_bytes(seq!['.', 't', 'e', 'x', 't']))
            == section_range_spec(module as int, image, ".text".spec_bytes()),
        section_range_spec(module as int, image, ascii_bytes(seq!['.', 'r', 'd', 'a', 't', 'a']))
            == section_range_spec(module as int, image, ".rdata".spec_bytes()),
        section_range_spec(module as int, image, ascii_bytes(seq!['.', 'd', 'a', 't', 'a']))
            == section_range_spec(module as int, image, ".data".spec_bytes()),
{
    broadcast use vstd::string::is_ascii_spec_bytes;
    reveal_strlit(".text");
    reveal_strlit(".rdata");
    reveal_strlit(".data");
    assert(vstd::string::is_ascii(".text"));
    assert(vstd::string::is_ascii(".rdata"));
    assert(vstd::string::is_ascii(".data"));
    assert(".text".spec_bytes() =~= ascii_bytes(seq!['.', 't', 'e', 'x', 't']));
    assert(".rdata".spec_bytes() =~= ascii_bytes(seq!['.', 'r', 'd', 'a', 't', 'a']));
    assert(".data".spec_bytes() =~= ascii_bytes(seq!['.', 'd', 'a', 't', 'a']));
}

} // verus!
