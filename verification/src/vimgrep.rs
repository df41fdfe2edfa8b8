//! The `file:line:column:text` lines that ripgrep and ag print with
//! `--vimgrep`.

use vstd::prelude::*;
use crate::text::{chars_of, string_of_range, parse_unsigned, parse_unsigned_range, decimal, is_digit,
    lemma_decimal_digits, lemma_parse_decimal};

verus! {

/// The first index at or after `start` where `s` holds `c`.
pub open spec fn find_from(s: Seq<char>, start: int, c: char) -> Option<int>
    decreases s.len() - start,
{
    if start < 0 || start >= s.len() {
        None
    } else if s[start] == c {
        Some(start)
    } else {
        find_from(s, start + 1, c)
    }
}

/// The four pieces that `str::splitn(4, ':')` yields for `s`, when it yields
/// four: the text up to the first colon, up to the second, up to the third,
/// and the rest (which may hold further colons).
pub open spec fn four_fields(s: Seq<char>) -> Option<(Seq<char>, Seq<char>, Seq<char>, Seq<char>)> {
    match find_from(s, 0, ':') {
        None => None,
        Some(a) => match find_from(s, a + 1, ':') {
            None => None,
            Some(b) => match find_from(s, b + 1, ':') {
                None => None,
                Some(c) => Some((
                    s.subrange(0, a),
                    s.subrange(a + 1, b),
                    s.subrange(b + 1, c),
                    s.subrange(c + 1, s.len() as int),
                )),
            },
        },
    }
}

/// A parsed `file:line:column:text` line: the four fields, with line and
/// column read as `u32` numbers the way std's `parse` reads them.
pub open spec fn vimgrep_line(s: Seq<char>) -> Option<(Seq<char>, u32, u32, Seq<char>)> {
    match four_fields(s) {
        None => None,
        Some((f, l, c, t)) => match (parse_unsigned(l, u32::MAX as nat), parse_unsigned(c, u32::MAX as nat)) {
            (Some(ln), Some(cn)) => Some((f, ln as u32, cn as u32, t)),
            _ => None,
        },
    }
}

proof fn lemma_find_from_none(s: Seq<char>, start: int, c: char)
    requires
        0 <= start,
        forall|k: int| start <= k < s.len() ==> s[k] != c,
    ensures
        find_from(s, start, c) is None,
    decreases s.len() - start,
{
    if start < s.len() {
        lemma_find_from_none(s, start + 1, c);
    }
}

proof fn lemma_find_from_some(s: Seq<char>, start: int, c: char, k: int)
    requires
        0 <= start <= k < s.len(),
        s[k] == c,
        forall|m: int| start <= m < k ==> s[m] != c,
    ensures
        find_from(s, start, c) == Some(k),
    decreases k - start,
{
    if start < k {
        lemma_find_from_some(s, start + 1, c, k);
    }
}

/// A hit written as `file:line:column:text`, the form ag and rg print.
pub open spec fn vimgrep_text(f: Seq<char>, l: u32, c: u32, t: Seq<char>) -> Seq<char> {
    f + seq![':'] + decimal(l as nat) + seq![':'] + decimal(c as nat) + seq![':'] + t
}

/// A hit written as `file:line:column:text` reads back as its four parts,
/// whenever the file name holds no colon (the text may hold any).
pub proof fn lemma_vimgrep_round_trip(f: Seq<char>, l: u32, c: u32, t: Seq<char>)
    requires
        forall|i: int| 0 <= i < f.len() ==> f[i] != ':',
    ensures
        vimgrep_line(vimgrep_text(f, l, c, t)) == Some((f, l, c, t)),
{
    let dl = decimal(l as nat);
    let dc = decimal(c as nat);
    lemma_decimal_digits(l as nat);
    lemma_decimal_digits(c as nat);
    lemma_parse_decimal(l as nat, u32::MAX as nat);
    lemma_parse_decimal(c as nat, u32::MAX as nat);
    let s = vimgrep_text(f, l, c, t);
    let a = f.len() as int;
    let b = a + 1 + dl.len();
    let e = b + 1 + dc.len();
    assert(s =~= f + seq![':'] + dl + seq![':'] + dc + seq![':'] + t);
    assert forall|k: int| 0 <= k < a implies s[k] != ':' by {
        assert(s[k] == f[k]);
    }
    assert(s[a] == ':');
    lemma_find_from_some(s, 0, ':', a);
    assert forall|k: int| a + 1 <= k < b implies s[k] != ':' by {
        assert(s[k] == dl[k - a - 1]);
        assert(is_digit(dl[k - a - 1]));
    }
    assert(s[b] == ':');
    lemma_find_from_some(s, a + 1, ':', b);
    assert forall|k: int| b + 1 <= k < e implies s[k] != ':' by {
        assert(s[k] == dc[k - b - 1]);
        assert(is_digit(dc[k - b - 1]));
    }
    assert(s[e] == ':');
    lemma_find_from_some(s, b + 1, ':', e);
    assert(s.subrange(0, a) =~= f);
    assert(s.subrange(a + 1, b) =~= dl);
    assert(s.subrange(b + 1, e) =~= dc);
    assert(s.subrange(e + 1, s.len() as int) =~= t);
}

/// The first index at or after `start` where `v` holds `c`.
pub fn find_char_from(v: &Vec<char>, start: usize, c: char) -> (r: Option<usize>)
    requires
        start <= v@.len(),
    ensures
        match find_from(v@, start as int, c) {
            Some(k) => r == Some(k as usize),
            None => r is None,
        },
        r matches Some(k) ==> start <= k < v@.len() && v@[k as int] == c
            && find_from(v@, start as int, c) == Some(k as int),
{
    let mut i = start;
    while i < v.len()
        invariant
            start <= i <= v@.len(),
            forall|m: int| start <= m < i ==> v@[m] != c,
        decreases v@.len() - i,
    {
        if v[i] == c {
            proof { lemma_find_from_some(v@, start as int, c, i as int); }
            return Some(i);
        }
        i = i + 1;
    }
    proof { lemma_find_from_none(v@, start as int, c); }
    None
}

/// Parses a `file:line:column:text` line; `None` when the line has fewer
/// than three colons or line or column is not a `u32` number.
pub fn parse_vimgrep_line(line: &str) -> (r: Option<(String, u32, u32, String)>)
    ensures
        match vimgrep_line(line@) {
            None => r is None,
            Some((f, l, c, t)) => r matches Some(x) && x.0@ == f && x.1 == l && x.2 == c && x.3@ == t,
        },
{
    let v = chars_of(line);
    let a = match find_char_from(&v, 0, ':') {
        Some(a) => a,
        None => return None,
    };
    assert(find_from(v@, 0, ':') == Some(a as int));
    let b = match find_char_from(&v, a + 1, ':') {
        Some(b) => b,
        None => {
            assert(find_from(v@, a + 1, ':') is None);
            assert(four_fields(v@) is None);
            return None;
        },
    };
    assert(find_from(v@, a + 1, ':') == Some(b as int));
    let c = match find_char_from(&v, b + 1, ':') {
        Some(c) => c,
        None => {
            assert(find_from(v@, b + 1, ':') is None);
            assert(four_fields(v@) is None);
            return None;
        },
    };
    assert(find_from(v@, b + 1, ':') == Some(c as int));
    let ln = parse_unsigned_range(&v, a + 1, b, 0xffff_ffff);
    let cn = parse_unsigned_range(&v, b + 1, c, 0xffff_ffff);
    match (ln, cn) {
        (Some(ln), Some(cn)) => {
            let f = string_of_range(&v, 0, a);
            let t = string_of_range(&v, c + 1, v.len());
            Some((f, ln as u32, cn as u32, t))
        },
        _ => None,
    }
}

} // verus!
