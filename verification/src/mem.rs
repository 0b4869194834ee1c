//! Byte-pattern signatures ("IDA style": hex bytes, and `?` or `??` for a
//! wildcard byte) and the search for them in a block of memory.
use vstd::prelude::*;

verus! {

#[verifier::external_type_specification]
#[verifier::external_body]
pub struct ExParseIntError(std::num::ParseIntError);

/// Why a signature could not be found or resolved.
#[derive(Debug)]
pub enum PatternSearchError {
    ParseInt(std::num::ParseIntError),
    OutOfRange,
    NotFound,
}

/// The signature text with spaces removed and every wildcard written as
/// `??`: two characters per byte of the pattern. A wildcard is `??` or a lone
/// `?`; a run of question marks is read in pairs from the left.
pub open spec fn expand_mask(mask: Seq<char>) -> Seq<char>
    decreases mask.len(),
{
    if mask.len() == 0 {
        Seq::empty()
    } else if mask[0] == '?' && mask.len() >= 2 && mask[1] == '?' {
        seq!['?', '?'] + expand_mask(mask.skip(2))
    } else if mask[0] == '?' {
        seq!['?', '?'] + expand_mask(mask.drop_first())
    } else if mask[0] == ' ' {
        expand_mask(mask.drop_first())
    } else {
        seq![mask[0]] + expand_mask(mask.drop_first())
    }
}

/// Whether `c` is a hexadecimal digit.
pub open spec fn is_hex_digit(c: char) -> bool {
    ('0' <= c && c <= '9') || ('a' <= c && c <= 'f') || ('A' <= c && c <= 'F')
}

/// The value of a hexadecimal digit.
pub open spec fn hex_value(c: char) -> int {
    if '0' <= c && c <= '9' {
        c as int - '0' as int
    } else if 'a' <= c && c <= 'f' {
        c as int - 'a' as int + 10
    } else {
        c as int - 'A' as int + 10
    }
}

/// Whether the two characters `a b` denote a byte: a wildcard `??`, or text
/// that `u8::from_str_radix(_, 16)` accepts (two hex digits, or `+` and one).
pub open spec fn is_byte_token(a: char, b: char) -> bool {
    (a == '?' && b == '?') || (is_hex_digit(a) && is_hex_digit(b)) || (a == '+' && is_hex_digit(b))
}

/// The pattern cell for a byte token: the byte and whether it is a wildcard.
pub open spec fn token_cell(a: char, b: char) -> (u8, bool) {
    if a == '?' && b == '?' {
        (0u8, true)
    } else if a == '+' {
        (hex_value(b) as u8, false)
    } else {
        ((hex_value(a) * 16 + hex_value(b)) as u8, false)
    }
}

/// Whether an expanded signature splits into byte tokens.
pub open spec fn tokens_ok(e: Seq<char>) -> bool {
    &&& e.len() % 2 == 0
    &&& forall|i: int| 0 <= i < e.len() / 2 ==> #[trigger] is_byte_token(e[2 * i], e[2 * i + 1])
}

/// Whether `parse_pattern` accepts the signature text: ASCII only, and its
/// expansion splits into byte tokens.
pub open spec fn valid_pattern_text(mask: Seq<char>) -> bool {
    &&& forall|i: int| 0 <= i < mask.len() ==> (#[trigger] mask[i]) as int <= 0x7f
    &&& tokens_ok(expand_mask(mask))
}

/// The pattern cells of an expanded signature, one per pair of characters.
pub open spec fn pattern_cells(e: Seq<char>) -> Seq<(u8, bool)> {
    Seq::new((e.len() / 2) as nat, |i: int| token_cell(e[2 * i], e[2 * i + 1]))
}

fn is_hex_digit_exec(c: char) -> (r: bool)
    ensures
        r == is_hex_digit(c),
{
    ('0' <= c && c <= '9') || ('a' <= c && c <= 'f') || ('A' <= c && c <= 'F')
}

fn hex_value_exec(c: char) -> (r: u8)
    requires
        is_hex_digit(c),
    ensures
        r == hex_value(c),
{
    if '0' <= c && c <= '9' {
        (c as u32 - '0' as u32) as u8
    } else if 'a' <= c && c <= 'f' {
        (c as u32 - 'a' as u32 + 10) as u8
    } else {
        (c as u32 - 'A' as u32 + 10) as u8
    }
}

/// The expansion of `mask` (see `expand_mask`).
fn expand(mask: &str) -> (r: Vec<char>)
    ensures
        r@ == expand_mask(mask@),
{
    let n = mask.unicode_len();
    let mut expanded: Vec<char> = Vec::new();
    let mut i: usize = 0;
    proof {
        assert(mask@.subrange(0, n as int) =~= mask@);
    }
    while i < n
        invariant
            i <= n,
            n == mask@.len(),
            expanded@ + expand_mask(mask@.subrange(i as int, n as int)) == expand_mask(mask@),
        decreases n - i,
    {
        let ghost rest = mask@.subrange(i as int, n as int);
        let c = mask.get_char(i);
        if c == '?' && i + 1 < n && mask.get_char(i + 1) == '?' {
            proof {
                assert(rest.skip(2) =~= mask@.subrange(i + 2, n as int));
                assert(expanded@.push('?').push('?') =~= expanded@ + seq!['?', '?']);
            }
            expanded.push('?');
            expanded.push('?');
            i = i + 2;
        } else {
            proof {
                assert(rest.drop_first() =~= mask@.subrange(i + 1, n as int));
            }
            if c == '?' {
                proof {
                    assert(expanded@.push('?').push('?') =~= expanded@ + seq!['?', '?']);
                }
                expanded.push('?');
                expanded.push('?');
            } else if c != ' ' {
                proof {
                    assert(expanded@.push(c) =~= expanded@ + seq![c]);
                }
                expanded.push(c);
            }
            i = i + 1;
        }
    }
    proof {
        assert(expanded@ + Seq::<char>::empty() =~= expanded@);
    }
    expanded
}

/// Whether `parse_pattern` accepts `mask` (see `valid_pattern_text`).
pub fn is_valid_pattern(mask: &str) -> (r: bool)
    ensures
        r == valid_pattern_text(mask@),
{
    let n = mask.unicode_len();
    let mut i: usize = 0;
    while i < n
        invariant
            i <= n,
            n == mask@.len(),
            forall|q: int| 0 <= q < i ==> (#[trigger] mask@[q]) as int <= 0x7f,
        decreases n - i,
    {
        if mask.get_char(i) as u32 > 0x7f {
            return false;
        }
        i = i + 1;
    }
    let expanded = expand(mask);
    let ghost e = expand_mask(mask@);
    let m = expanded.len();
    if m % 2 != 0 {
        return false;
    }
    let mut k: usize = 0;
    while k < m
        invariant
            expanded@ == e,
            e == expand_mask(mask@),
            m == expanded.len(),
            m % 2 == 0,
            k % 2 == 0,
            k <= m,
            forall|q: int| 0 <= q < k / 2 ==> #[trigger] is_byte_token(e[2 * q], e[2 * q + 1]),
        decreases m - k,
    {
        let a = expanded[k];
        let b = expanded[k + 1];
        let ok = (a == '?' && b == '?') || (is_hex_digit_exec(a) && is_hex_digit_exec(b)) || (a == '+'
            && is_hex_digit_exec(b));
        if !ok {
            proof {
                assert(!is_byte_token(e[2 * (k / 2)], e[2 * (k / 2) + 1]));
            }
            return false;
        }
        k = k + 2;
    }
    true
}

/// Parses a signature such as `"48 8B 0D ? ? ? ?"` into pattern cells: one
/// `(byte, wildcard)` pair per byte. A `?` or a `??` stands for one wildcard
/// byte, and spaces are ignored.
pub fn parse_pattern(mask: &str) -> (r: Result<Vec<(u8, bool)>, PatternSearchError>)
    requires
        valid_pattern_text(mask@),
    ensures
        r matches Ok(cells) && cells@ == pattern_cells(expand_mask(mask@)),
{
    let expanded = expand(mask);
    let ghost e = expand_mask(mask@);
    let m = expanded.len();
    let mut cells: Vec<(u8, bool)> = Vec::new();
    let mut k: usize = 0;
    while k + 1 < m
        invariant
            expanded@ == e,
            m == expanded.len(),
            tokens_ok(e),
            k % 2 == 0,
            k <= m,
            cells.len() == k / 2,
            forall|q: int| 0 <= q < k / 2 ==> #[trigger] cells@[q] == token_cell(e[2 * q], e[2 * q + 1]),
        decreases m - k,
    {
        let a = expanded[k];
        let b = expanded[k + 1];
        proof {
            assert(is_byte_token(e[2 * (k / 2)], e[2 * (k / 2) + 1]));
        }
        if a == '?' && b == '?' {
            cells.push((0u8, true));
        } else if a == '+' {
            let v = hex_value_exec(b);
            cells.push((v, false));
        } else {
            let hi = hex_value_exec(a);
            let lo = hex_value_exec(b);
            cells.push((hi * 16 + lo, false));
        }
        k = k + 2;
    }
    Ok(cells)
}

/// Whether `cells` matches `data` at position `p`: each cell is a wildcard or
/// equals the byte at its place.
pub open spec fn matches_at(data: Seq<u8>, cells: Seq<(u8, bool)>, p: int) -> bool {
    &&& 0 <= p
    &&& p + cells.len() <= data.len()
    &&& forall|i: int| 0 <= i < cells.len() ==> (#[trigger] cells[i]).1 || cells[i].0 == data[p + i]
}

/// The first position at `p` or later where `cells` matches `data`.
pub open spec fn first_match_from(data: Seq<u8>, cells: Seq<(u8, bool)>, p: int) -> Option<int>
    decreases data.len() - p,
{
    if p < 0 || p + cells.len() > data.len() {
        None
    } else if matches_at(data, cells, p) {
        Some(p)
    } else {
        first_match_from(data, cells, p + 1)
    }
}

/// `first_match_from` finds the first position of a match.
pub proof fn lemma_first_match(data: Seq<u8>, cells: Seq<(u8, bool)>, p: int)
    requires
        0 <= p,
    ensures
        first_match_from(data, cells, p) matches Some(q) ==> p <= q && matches_at(data, cells, q),
        forall|q: int| p <= q && (first_match_from(data, cells, p) matches Some(f) ==> q < f) ==> !#[trigger] matches_at(data, cells, q),
    decreases data.len() - p,
{
    if p + cells.len() <= data.len() && !matches_at(data, cells, p) {
        lemma_first_match(data, cells, p + 1);
    }
}

/// The position a search reports is a match, and no earlier position matches.
pub proof fn law_search_finds_first_match(data: Seq<u8>, cells: Seq<(u8, bool)>)
    ensures
        first_match_from(data, cells, 0) matches Some(p) ==> matches_at(data, cells, p) && forall|q: int|
            0 <= q < p ==> !#[trigger] matches_at(data, cells, q),
        first_match_from(data, cells, 0) is None ==> forall|q: int| !#[trigger] matches_at(data, cells, q),
{
    lemma_first_match(data, cells, 0);
}

fn matches_at_exec(data: &[u8], cells: &Vec<(u8, bool)>, p: usize) -> (r: bool)
    requires
        p + cells.len() <= data.len(),
    ensures
        r == matches_at(data@, cells@, p as int),
{
    let mut i: usize = 0;
    while i < cells.len()
        invariant
            p + cells.len() <= data.len(),
            i <= cells.len(),
            forall|q: int| 0 <= q < i ==> (#[trigger] cells@[q]).1 || cells@[q].0 == data@[p + q],
        decreases cells.len() - i,
    {
        let (byte, wildcard) = cells[i];
        if !wildcard && byte != data[p + i] {
            return false;
        }
        i = i + 1;
    }
    true
}

/// The first position in `data` where `cells` matches.
pub fn find_cells(data: &[u8], cells: &Vec<(u8, bool)>) -> (r: Option<usize>)
    ensures
        r matches Some(p) ==> Some(p as int) == first_match_from(data@, cells@, 0),
        r is None <==> first_match_from(data@, cells@, 0) is None,
{
    if cells.len() > data.len() {
        return None;
    }
    let last = data.len() - cells.len();
    let mut p: usize = 0;
    while p <= last
        invariant
            last + cells.len() == data.len(),
            p <= last + 1,
            first_match_from(data@, cells@, 0) == first_match_from(data@, cells@, p as int),
        decreases last + 1 - p,
    {
        if matches_at_exec(data, cells, p) {
            return Some(p);
        }
        p = p + 1;
    }
    None
}

/// Searches `data`, the memory starting at address `start`, for the first
/// occurrence of the signature `mask`, and returns the address where it
/// starts. Fails with `NotFound` when there is none.
pub fn find_pattern(start: usize, data: &[u8], mask: &str) -> (r: Result<usize, PatternSearchError>)
    requires
        valid_pattern_text(mask@),
        pattern_cells(expand_mask(mask@)).len() > 0,
        start + data.len() <= usize::MAX,
    ensures
        match first_match_from(data@, pattern_cells(expand_mask(mask@)), 0) {
            Some(p) => r matches Ok(a) && a == start + p,
            None => r matches Err(PatternSearchError::NotFound),
        },
{
    let cells = match parse_pattern(mask) {
        Ok(c) => c,
        Err(e) => {
            return Err(e);
        },
    };
    let data_end = start + data.len();
    let found = find_cells(data, &cells);
    match found {
        None => Err(PatternSearchError::NotFound),
        Some(p) => {
            proof {
                lemma_first_match(data@, cells@, 0);
            }
            if p > data_end {
                Err(PatternSearchError::OutOfRange)
            } else {
                Ok(start + p)
            }
        },
    }
}

} // verus!
