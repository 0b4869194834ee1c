//! String helpers over `char` sequences.
use vstd::prelude::*;

verus! {

/// `std::string::String::push`, which appends one character.
#[verifier::external_body]
pub(crate) fn push_char(s: &mut String, c: char)
    ensures
        final(s)@ == old(s)@.push(c),
{
    s.push(c)
}

/// Character-wise equality of two string slices.
pub fn str_equals(a: &str, b: &str) -> (r: bool)
    ensures
        r == (a@ == b@),
{
    let n = a.unicode_len();
    if n != b.unicode_len() {
        return false;
    }
    let mut i: usize = 0;
    while i < n
        invariant
            n == a@.len(),
            n == b@.len(),
            i <= n,
            forall|j: int| 0 <= j < i ==> a@[j] == b@[j],
        decreases n - i,
    {
        if a.get_char(i) != b.get_char(i) {
            return false;
        }
        i = i + 1;
    }
    assert(a@ =~= b@);
    true
}

/// Whether `s` ends with `suffix`, compared character by character.
pub fn str_ends_with(s: &str, suffix: &str) -> (r: bool)
    ensures
        r == (suffix@.len() <= s@.len() && s@.subrange(s@.len() - suffix@.len(), s@.len() as int) == suffix@),
{
    let n = s.unicode_len();
    let m = suffix.unicode_len();
    if m > n {
        return false;
    }
    let off = n - m;
    let mut i: usize = 0;
    while i < m
        invariant
            n == s@.len(),
            m == suffix@.len(),
            off + m == n,
            i <= m,
            forall|j: int| 0 <= j < i ==> s@[off + j] == suffix@[j],
        decreases m - i,
    {
        if s.get_char(off + i) != suffix.get_char(i) {
            return false;
        }
        i = i + 1;
    }
    assert(s@.subrange(off as int, n as int) =~= suffix@);
    true
}

/// The decimal digit for `d`.
pub open spec fn digit_char(d: nat) -> char {
    if d == 0 { '0' }
    else if d == 1 { '1' }
    else if d == 2 { '2' }
    else if d == 3 { '3' }
    else if d == 4 { '4' }
    else if d == 5 { '5' }
    else if d == 6 { '6' }
    else if d == 7 { '7' }
    else if d == 8 { '8' }
    else { '9' }
}

/// The decimal representation of `n`, without leading zeros.
pub open spec fn decimal(n: nat) -> Seq<char>
    decreases n,
{
    if n < 10 {
        seq![digit_char(n)]
    } else {
        decimal(n / 10).push(digit_char(n % 10))
    }
}

fn digit_char_exec(d: usize) -> (c: char)
    requires
        d < 10,
    ensures
        c == digit_char(d as nat),
{
    if d == 0 { '0' }
    else if d == 1 { '1' }
    else if d == 2 { '2' }
    else if d == 3 { '3' }
    else if d == 4 { '4' }
    else if d == 5 { '5' }
    else if d == 6 { '6' }
    else if d == 7 { '7' }
    else if d == 8 { '8' }
    else { '9' }
}

/// Formats `n` in decimal, as `format!("{}", n)` does.
pub fn decimal_string(n: usize) -> (r: String)
    ensures
        r@ == decimal(n as nat),
{
    let mut low_digits: Vec<char> = Vec::new();
    let mut m: usize = n;
    let ghost mut suffix: Seq<char> = Seq::empty();
    while m >= 10
        invariant
            decimal(n as nat) == decimal(m as nat) + suffix,
            low_digits@ == suffix.reverse(),
        decreases m,
    {
        let d = m % 10;
        low_digits.push(digit_char_exec(d));
        proof {
            assert(decimal((m / 10) as nat).push(digit_char(d as nat)) + suffix
                =~= decimal((m / 10) as nat) + seq![digit_char(d as nat)].add(suffix));
            suffix = seq![digit_char(d as nat)] + suffix;
        }
        m = m / 10;
    }
    let mut r = String::new();
    push_char(&mut r, digit_char_exec(m));
    let mut i: usize = low_digits.len();
    while i > 0
        invariant
            i <= low_digits.len(),
            low_digits@ == suffix.reverse(),
            decimal(n as nat) == decimal(m as nat) + suffix,
            m < 10,
            r@ == decimal(m as nat) + suffix.subrange(0, (low_digits.len() - i) as int),
        decreases i,
    {
        i = i - 1;
        push_char(&mut r, low_digits[i]);
        proof {
            assert(suffix.subrange(0, (low_digits.len() - i) as int)
                =~= suffix.subrange(0, (low_digits.len() - i - 1) as int).push(low_digits@[i as int]));
        }
    }
    r
}

/// The texts of `parts` joined with `sep` between each two of them.
pub open spec fn joined(parts: Seq<Seq<char>>, sep: Seq<char>) -> Seq<char>
    decreases parts.len(),
{
    if parts.len() == 0 {
        Seq::empty()
    } else if parts.len() == 1 {
        parts[0]
    } else {
        joined(parts.drop_last(), sep) + sep + parts.last()
    }
}

/// Joins `parts` with `sep` between each two of them, as `[String]::join` does.
pub fn join_strings(parts: &Vec<String>, sep: &str) -> (r: String)
    ensures
        r@ == joined(parts@.map_values(|p: String| p@), sep@),
{
    let ghost views = parts@.map_values(|p: String| p@);
    let mut r = String::new();
    let mut i: usize = 0;
    while i < parts.len()
        invariant
            i <= parts.len(),
            views == parts@.map_values(|p: String| p@),
            r@ == joined(views.subrange(0, i as int), sep@),
        decreases parts.len() - i,
    {
        proof {
            assert(views.subrange(0, i + 1).drop_last() =~= views.subrange(0, i as int));
        }
        if i > 0 {
            r.append(sep);
        }
        r.append(parts[i].as_str());
        proof {
            if i == 0 {
            }
        }
        i = i + 1;
    }
    proof {
        assert(views.subrange(0, parts.len() as int) =~= views);
    }
    r
}

} // verus!
