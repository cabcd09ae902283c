//! Local checks of caller input, made before any stream is opened.
use vstd::prelude::*;

verus! {

/// An ASCII hexadecimal digit.
pub open spec fn is_hex_digit(c: char) -> bool {
    ('0' <= c && c <= '9') || ('a' <= c && c <= 'f') || ('A' <= c && c <= 'F')
}

/// A block hash: exactly 64 hexadecimal digits.
pub open spec fn spec_is_valid_hash(s: Seq<char>) -> bool {
    s.len() == 64 && forall|i: int| 0 <= i < 64 ==> #[trigger] is_hex_digit(s[i])
}

/// Whether `hash` has the format of a block hash (64 hexadecimal digits).
pub fn is_valid_hash(hash: &str) -> (r: bool)
    ensures
        r == spec_is_valid_hash(hash@),
{
    let n = hash.unicode_len();
    if n != 64 {
        return false;
    }
    let mut i: usize = 0;
    while i < 64
        invariant
            hash@.len() == 64,
            i <= 64,
            forall|j: int| 0 <= j < i ==> #[trigger] is_hex_digit(hash@[j]),
        decreases 64 - i,
    {
        let c = hash.get_char(i);
        let hex = ('0' <= c && c <= '9') || ('a' <= c && c <= 'f') || ('A' <= c && c <= 'F');
        if !hex {
            assert(!is_hex_digit(hash@[i as int]));
            return false;
        }
        i = i + 1;
    }
    true
}

/// A character with the Unicode `White_Space` property.
pub open spec fn is_white_space(c: char) -> bool {
    ('\t' <= c && c <= '\r') || c == ' ' || c == '\u{85}' || c == '\u{a0}' || c == '\u{1680}' || (
    '\u{2000}' <= c && c <= '\u{200a}') || c == '\u{2028}' || c == '\u{2029}' || c == '\u{202f}'
        || c == '\u{205f}' || c == '\u{3000}'
}

fn white_space(c: char) -> (r: bool)
    ensures
        r == is_white_space(c),
{
    ('\t' <= c && c <= '\r') || c == ' ' || c == '\u{85}' || c == '\u{a0}' || c == '\u{1680}' || (
    '\u{2000}' <= c && c <= '\u{200a}') || c == '\u{2028}' || c == '\u{2029}' || c == '\u{202f}'
        || c == '\u{205f}' || c == '\u{3000}'
}

pub open spec fn trim_start(t: Seq<char>) -> Seq<char>
    decreases t.len(),
{
    if t.len() > 0 && is_white_space(t[0]) {
        trim_start(t.drop_first())
    } else {
        t
    }
}

pub open spec fn trim_end(t: Seq<char>) -> Seq<char>
    decreases t.len(),
{
    if t.len() > 0 && is_white_space(t.last()) {
        trim_end(t.drop_last())
    } else {
        t
    }
}

/// `t` without leading or trailing white space.
pub open spec fn trimmed(t: Seq<char>) -> Seq<char> {
    trim_end(trim_start(t))
}

/// The address that one comma-separated piece stands for, if any.
pub open spec fn piece_address(t: Seq<char>) -> Seq<Seq<char>> {
    if trimmed(t).len() == 0 {
        Seq::empty()
    } else {
        seq![trimmed(t)]
    }
}

/// `k` is the position of the first comma in `s`.
pub open spec fn is_first_comma(s: Seq<char>, k: int) -> bool {
    0 <= k < s.len() && s[k] == ',' && forall|j: int| 0 <= j < k ==> s[j] != ','
}

/// The addresses of a comma-separated list: each piece trimmed of white
/// space, empty pieces dropped, order kept.
pub open spec fn address_list(s: Seq<char>) -> Seq<Seq<char>>
    decreases s.len(),
{
    if exists|k: int| is_first_comma(s, k) {
        let k = choose|k: int| is_first_comma(s, k);
        piece_address(s.subrange(0, k)) + address_list(s.subrange(k + 1, s.len() as int))
    } else {
        piece_address(s)
    }
}

proof fn lemma_first_comma_unique(s: Seq<char>, k1: int, k2: int)
    requires
        is_first_comma(s, k1),
        is_first_comma(s, k2),
    ensures
        k1 == k2,
{
}

/// The trimmed text of `s[start..end]`, if it is not empty.
fn trimmed_piece(s: &str, start: usize, end: usize) -> (r: Option<String>)
    requires
        start <= end <= s@.len(),
    ensures
        match r {
            Some(a) => piece_address(s@.subrange(start as int, end as int)) == seq![a@],
            None => piece_address(s@.subrange(start as int, end as int)) == Seq::<Seq<char>>::empty(),
        },
{
    let ghost t = s@.subrange(start as int, end as int);
    let mut lo = start;
    while lo < end && white_space(s.get_char(lo))
        invariant
            start <= lo <= end <= s@.len(),
            trim_start(t) == trim_start(s@.subrange(lo as int, end as int)),
        decreases end - lo,
    {
        assert(s@.subrange(lo as int, end as int).drop_first() == s@.subrange(lo + 1, end as int));
        lo = lo + 1;
    }
    assert(trim_start(t) == s@.subrange(lo as int, end as int));
    let mut hi = end;
    while hi > lo && white_space(s.get_char(hi - 1))
        invariant
            start <= lo <= hi <= end <= s@.len(),
            trimmed(t) == trim_end(s@.subrange(lo as int, hi as int)),
        decreases hi - lo,
    {
        assert(s@.subrange(lo as int, hi as int).drop_last() == s@.subrange(lo as int, hi - 1));
        hi = hi - 1;
    }
    assert(trimmed(t) == s@.subrange(lo as int, hi as int));
    if lo == hi {
        None
    } else {
        let piece = s.substring_char(lo, hi);
        Some(piece.to_owned())
    }
}

/// Splits a comma-separated list of addresses, trimming white space around
/// each and dropping empty pieces.
pub fn parse_addresses(s: &str) -> (r: Vec<String>)
    ensures
        r@.map_values(|a: String| a@) == address_list(s@),
{
    let n = s.unicode_len();
    let mut out: Vec<String> = Vec::new();
    let mut start: usize = 0;
    assert(s@.subrange(0, n as int) == s@);
    assert(out@.map_values(|a: String| a@) + address_list(s@) == address_list(s@));
    loop
        invariant
            n == s@.len(),
            start <= n,
            address_list(s@) == out@.map_values(|a: String| a@) + address_list(
                s@.subrange(start as int, n as int),
            ),
        decreases n - start,
    {
        let ghost rest = s@.subrange(start as int, n as int);
        let mut end = start;
        while end < n && s.get_char(end) != ','
            invariant
                start <= end <= n,
                n == s@.len(),
                forall|j: int| start <= j < end ==> s@[j] != ',',
            decreases n - end,
        {
            end = end + 1;
        }
        let piece = trimmed_piece(s, start, end);
        let ghost before = out@.map_values(|a: String| a@);
        match piece {
            Some(a) => {
                out.push(a);
                assert(out@.map_values(|a: String| a@) == before + seq![a@]);
            },
            None => {},
        }
        assert(rest.subrange(0, end - start) == s@.subrange(start as int, end as int));
        if end == n {
            assert(!exists|k: int| is_first_comma(rest, k));
            assert(rest == s@.subrange(start as int, end as int));
            assert(out@.map_values(|a: String| a@) + Seq::<Seq<char>>::empty() == out@.map_values(
                |a: String| a@,
            ));
            assert(address_list(s@.subrange(n as int, n as int)) == Seq::<Seq<char>>::empty()) by {
                assert(!exists|k: int| is_first_comma(s@.subrange(n as int, n as int), k));
                reveal_with_fuel(address_list, 1);
            }
            assert(address_list(s@) == out@.map_values(|a: String| a@));
            return out;
        }
        assert(is_first_comma(rest, end - start));
        let ghost k = choose|k: int| is_first_comma(rest, k);
        proof {
            lemma_first_comma_unique(rest, k, end - start);
        }
        assert(rest.subrange(end - start + 1, rest.len() as int) == s@.subrange(
            end + 1,
            n as int,
        ));
        start = end + 1;
    }
}

} // verus!
