//! Text helpers over sequences of characters: conversion between strings,
//! characters and UTF-8 bytes, whitespace trimming and line splitting.

use vstd::prelude::*;
use vstd::string::StrSliceExecFns;
use vstd::utf8::{decode_utf8, encode_utf8, is_scalar, valid_utf8};

verus! {

/// `String::push`: appends `c` to `s`.
#[verifier::external_body]
fn push_char(s: &mut String, c: char)
    ensures final(s)@ == old(s)@.push(c),
{
    s.push(c);
}

/// `char::from_u32`: the character with code point `code`, if `code` is a
/// Unicode scalar value (not a surrogate, at most 0x10FFFF).
#[verifier::external_body]
pub fn char_from_u32(code: u32) -> (r: Option<char>)
    ensures
        is_scalar(code) <==> r is Some,
        r matches Some(c) ==> c as u32 == code && c == code as char,
{
    char::from_u32(code)
}

/// `core::str::from_utf8`: the string that the bytes encode, if they are valid UTF-8.
#[verifier::external_body]
pub fn str_from_utf8(bytes: &[u8]) -> (r: Option<&str>)
    ensures
        valid_utf8(bytes@) <==> r is Some,
        r matches Some(s) ==> s@ == decode_utf8(bytes@),
{
    match core::str::from_utf8(bytes) {
        Ok(s) => Some(s),
        Err(_) => None,
    }
}

/// The characters of a string.
pub fn str_to_chars(s: &str) -> (r: Vec<char>)
    ensures r@ == s@,
{
    let n = s.unicode_len();
    let mut r: Vec<char> = Vec::new();
    let mut i: usize = 0;
    while i < n
        invariant
            i <= n,
            n == s@.len(),
            r@ == s@.subrange(0, i as int),
        decreases n - i,
    {
        let c = s.get_char(i);
        r.push(c);
        i = i + 1;
    }
    r
}

/// Whether two strings hold the same characters.
pub fn str_eq(a: &str, b: &str) -> (r: bool)
    ensures r == (a@ == b@),
{
    let n = a.unicode_len();
    if n != b.unicode_len() {
        return false;
    }
    let mut i: usize = 0;
    while i < n
        invariant
            i <= n,
            n == a@.len(),
            n == b@.len(),
            a@.subrange(0, i as int) == b@.subrange(0, i as int),
        decreases n - i,
    {
        if a.get_char(i) != b.get_char(i) {
            return false;
        }
        assert(a@.subrange(0, i + 1) =~= a@.subrange(0, i as int).push(a@[i as int]));
        assert(b@.subrange(0, i + 1) =~= b@.subrange(0, i as int).push(b@[i as int]));
        i = i + 1;
    }
    assert(a@ =~= a@.subrange(0, n as int));
    assert(b@ =~= b@.subrange(0, n as int));
    true
}

/// The string made of the characters `v`.
pub fn chars_to_string(v: &Vec<char>) -> (r: String)
    ensures r@ == v@,
{
    let mut r = String::new();
    let mut i: usize = 0;
    while i < v.len()
        invariant
            i <= v.len(),
            r@ == v@.subrange(0, i as int),
        decreases v.len() - i,
    {
        push_char(&mut r, v[i]);
        i = i + 1;
    }
    r
}

/// The UTF-8 bytes of a string.
pub fn str_bytes(s: &str) -> (r: Vec<u8>)
    ensures r@ == encode_utf8(s@),
{
    s.as_bytes_vec()
}

/// White space as Unicode's White_Space property defines it (`char::is_whitespace`).
pub open spec fn spec_is_white_space(c: char) -> bool {
    let u = c as u32;
    (0x9 <= u <= 0xD) || u == 0x20 || u == 0x85 || u == 0xA0 || u == 0x1680
        || (0x2000 <= u <= 0x200A) || u == 0x2028 || u == 0x2029 || u == 0x202F
        || u == 0x205F || u == 0x3000
}

/// Whether `c` is white space.
pub fn is_white_space(c: char) -> (r: bool)
    ensures r == spec_is_white_space(c),
{
    let u = c as u32;
    (0x9 <= u && u <= 0xD) || u == 0x20 || u == 0x85 || u == 0xA0 || u == 0x1680
        || (0x2000 <= u && u <= 0x200A) || u == 0x2028 || u == 0x2029 || u == 0x202F
        || u == 0x205F || u == 0x3000
}

/// Index of the first character at or after `from` that is not white space (`s.len()` if none).
pub open spec fn spec_trim_start_index(s: Seq<char>, from: int) -> int
    decreases s.len() - from,
{
    if from >= s.len() || from < 0 {
        s.len() as int
    } else if spec_is_white_space(s[from]) {
        spec_trim_start_index(s, from + 1)
    } else {
        from
    }
}

/// One past the last character before `to` that is not white space (`lo` if none).
pub open spec fn spec_trim_end_index(s: Seq<char>, lo: int, to: int) -> int
    decreases to - lo,
{
    if to <= lo {
        lo
    } else if spec_is_white_space(s[to - 1]) {
        spec_trim_end_index(s, lo, to - 1)
    } else {
        to
    }
}

/// `s` without leading and trailing white space (`str::trim`).
pub open spec fn spec_trim(s: Seq<char>) -> Seq<char> {
    let lo = spec_trim_start_index(s, 0);
    s.subrange(lo, spec_trim_end_index(s, lo, s.len() as int))
}

pub proof fn lemma_trim_start_bounds(s: Seq<char>, from: int)
    requires 0 <= from <= s.len(),
    ensures from <= spec_trim_start_index(s, from) <= s.len(),
    decreases s.len() - from,
{
    if from < s.len() && spec_is_white_space(s[from]) {
        lemma_trim_start_bounds(s, from + 1);
    }
}

pub proof fn lemma_trim_end_bounds(s: Seq<char>, lo: int, to: int)
    requires lo <= to,
    ensures lo <= spec_trim_end_index(s, lo, to) <= to,
    decreases to - lo,
{
    if to > lo && spec_is_white_space(s[to - 1]) {
        lemma_trim_end_bounds(s, lo, to - 1);
    }
}

/// `s` without leading and trailing white space.
pub fn trim(s: &Vec<char>) -> (r: Vec<char>)
    ensures r@ == spec_trim(s@),
{
    let mut lo: usize = 0;
    while lo < s.len() && is_white_space(s[lo])
        invariant
            lo <= s.len(),
            spec_trim_start_index(s@, lo as int) == spec_trim_start_index(s@, 0),
        decreases s.len() - lo,
    {
        lo = lo + 1;
    }
    let mut hi: usize = s.len();
    while hi > lo && is_white_space(s[hi - 1])
        invariant
            lo <= hi <= s.len(),
            spec_trim_end_index(s@, lo as int, hi as int) == spec_trim_end_index(s@, lo as int, s@.len() as int),
        decreases hi,
    {
        hi = hi - 1;
    }
    let mut r: Vec<char> = Vec::new();
    let mut i: usize = lo;
    while i < hi
        invariant
            lo <= i <= hi,
            hi <= s.len(),
            r@ == s@.subrange(lo as int, i as int),
        decreases hi - i,
    {
        r.push(s[i]);
        i = i + 1;
    }
    r
}

/// Index of the first `c` in `s` at or after `from`, if any.
pub open spec fn spec_find_char(s: Seq<char>, c: char, from: int) -> Option<int>
    decreases s.len() - from,
{
    if from >= s.len() || from < 0 {
        None
    } else if s[from] == c {
        Some(from)
    } else {
        spec_find_char(s, c, from + 1)
    }
}

pub proof fn lemma_find_char_bounds(s: Seq<char>, c: char, from: int)
    requires 0 <= from,
    ensures spec_find_char(s, c, from) matches Some(i) ==> from <= i < s.len() && s[i] == c,
    decreases s.len() - from,
{
    if from < s.len() && s[from] != c {
        lemma_find_char_bounds(s, c, from + 1);
    }
}

/// Index of the first `c` in `s`, if any.
pub fn find_char(s: &Vec<char>, c: char) -> (r: Option<usize>)
    ensures
        r matches Some(i) ==> spec_find_char(s@, c, 0) == Some(i as int) && i < s@.len() && s@[i as int] == c,
        r is None ==> spec_find_char(s@, c, 0) is None,
{
    let mut i: usize = 0;
    while i < s.len()
        invariant
            i <= s.len(),
            spec_find_char(s@, c, i as int) == spec_find_char(s@, c, 0),
        decreases s.len() - i,
    {
        if s[i] == c {
            return Some(i);
        }
        i = i + 1;
    }
    None
}

/// The part of `s` from `lo` to `hi`.
pub fn sub_chars(s: &Vec<char>, lo: usize, hi: usize) -> (r: Vec<char>)
    requires lo <= hi <= s@.len(),
    ensures r@ == s@.subrange(lo as int, hi as int),
{
    let mut r: Vec<char> = Vec::new();
    let mut i: usize = lo;
    while i < hi
        invariant
            lo <= i <= hi,
            hi <= s@.len(),
            r@ == s@.subrange(lo as int, i as int),
        decreases hi - i,
    {
        r.push(s[i]);
        i = i + 1;
    }
    r
}

/// A line that a `'\n'` ended, without its terminator: a `'\r'` before the
/// `'\n'` is dropped too (`str::lines`).
pub open spec fn spec_line_body(line: Seq<char>) -> Seq<char> {
    if line.len() > 0 && line[line.len() - 1] == '\r' { line.drop_last() } else { line }
}

/// The lines of `s` from `from` on, as `str::lines` gives them: split at
/// `'\n'`, a `'\r'` just before a `'\n'` removed, no empty line after a final `'\n'`.
pub open spec fn spec_lines_from(s: Seq<char>, from: int) -> Seq<Seq<char>>
    decreases s.len() - from,
{
    if from >= s.len() || from < 0 {
        Seq::empty()
    } else {
        match spec_find_char(s, '\n', from) {
            Some(i) => {
                if i >= from + 0 && i < s.len() {
                    seq![spec_line_body(s.subrange(from, i))] + spec_lines_from(s, i + 1)
                } else {
                    Seq::empty()
                }
            },
            None => seq![s.subrange(from, s.len() as int)],
        }
    }
}

/// The lines of `s`.
pub open spec fn spec_lines(s: Seq<char>) -> Seq<Seq<char>> {
    spec_lines_from(s, 0)
}

/// The lines of `s` (see `spec_lines`).
pub fn lines(s: &Vec<char>) -> (r: Vec<Vec<char>>)
    ensures
        r@.len() == spec_lines(s@).len(),
        forall|k: int| 0 <= k < r@.len() ==> #[trigger] r@[k]@ == spec_lines(s@)[k],
{
    let mut r: Vec<Vec<char>> = Vec::new();
    let mut from: usize = 0;
    while from < s.len()
        invariant
            from <= s.len(),
            r@.len() + spec_lines_from(s@, from as int).len() == spec_lines(s@).len(),
            forall|k: int| 0 <= k < r@.len() ==> #[trigger] r@[k]@ == spec_lines(s@)[k],
            forall|k: int| 0 <= k < spec_lines_from(s@, from as int).len() ==>
                spec_lines(s@)[r@.len() + k] == #[trigger] spec_lines_from(s@, from as int)[k],
        decreases s.len() - from,
    {
        // find the end of the line
        let mut i: usize = from;
        while i < s.len() && s[i] != '\n'
            invariant
                from <= i <= s.len(),
                spec_find_char(s@, '\n', i as int) == spec_find_char(s@, '\n', from as int),
            decreases s.len() - i,
        {
            i = i + 1;
        }
        let mut hi = i;
        if i < s.len() && hi > from && s[hi - 1] == '\r' {
            hi = hi - 1;
        }
        let line = sub_chars(s, from, hi);
        proof {
            lemma_find_char_bounds(s@, '\n', from as int);
            if i < s.len() {
                assert(line@ == spec_line_body(s@.subrange(from as int, i as int)));
            } else {
                assert(line@ == s@.subrange(from as int, i as int));
            }
            assert(spec_lines_from(s@, from as int)[0] == line@);
        }
        r.push(line);
        if i < s.len() {
            proof {
                assert forall|k: int| 0 <= k < spec_lines_from(s@, (i + 1) as int).len() implies
                    spec_lines_from(s@, from as int)[1 + k] == #[trigger] spec_lines_from(s@, (i + 1) as int)[k] by {}
            }
            from = i + 1;
        } else {
            from = s.len();
        }
    }
    r
}


/// The text of the lines `ls`, each followed by a `'\n'`.
pub open spec fn spec_join_lines(ls: Seq<Seq<char>>) -> Seq<char>
    decreases ls.len(),
{
    if ls.len() == 0 {
        Seq::empty()
    } else {
        ls[0] + seq!['\n'] + spec_join_lines(ls.drop_first())
    }
}

/// A line that `str::lines` gives back as it is: no `'\n'` in it, no `'\r'` at its end.
pub open spec fn spec_plain_line(l: Seq<char>) -> bool {
    (forall|k: int| 0 <= k < l.len() ==> l[k] != '\n') && (l.len() == 0 || l.last() != '\r')
}

proof fn lemma_find_char_shift(a: Seq<char>, b: Seq<char>, c: char, from: int)
    requires 0 <= from,
    ensures
        spec_find_char(a + b, c, a.len() + from) == (match spec_find_char(b, c, from) {
            Some(i) => Some(a.len() + i),
            None => None,
        }),
    decreases b.len() - from,
{
    if from < b.len() {
        assert((a + b)[a.len() + from] == b[from]);
        if b[from] != c {
            lemma_find_char_shift(a, b, c, from + 1);
        }
    }
}

proof fn lemma_lines_shift(a: Seq<char>, b: Seq<char>, from: int)
    requires 0 <= from,
    ensures spec_lines_from(a + b, a.len() + from) == spec_lines_from(b, from),
    decreases b.len() - from,
{
    if from < b.len() {
        lemma_find_char_shift(a, b, '\n', from);
        lemma_find_char_bounds(b, '\n', from);
        match spec_find_char(b, '\n', from) {
            Some(i) => {
                assert((a + b).subrange(a.len() + from, a.len() + i) =~= b.subrange(from, i));
                lemma_lines_shift(a, b, i + 1);
                assert(a.len() + i + 1 == a.len() + (i + 1));
            },
            None => {
                assert((a + b).subrange(a.len() + from, (a + b).len() as int) =~= b.subrange(from, b.len() as int));
            },
        }
    }
}

pub proof fn lemma_find_char_first(s: Seq<char>, c: char, from: int, i: int)
    requires
        0 <= from <= i < s.len(),
        s[i] == c,
        forall|k: int| from <= k < i ==> s[k] != c,
    ensures spec_find_char(s, c, from) == Some(i),
    decreases i - from,
{
    if from < i {
        lemma_find_char_first(s, c, from + 1, i);
    }
}

/// The lines of the text of plain lines `ls` are `ls`.
pub proof fn lemma_lines_of_join(ls: Seq<Seq<char>>)
    requires forall|k: int| 0 <= k < ls.len() ==> spec_plain_line(#[trigger] ls[k]),
    ensures spec_lines(spec_join_lines(ls)) == ls,
    decreases ls.len(),
{
    if ls.len() > 0 {
        let l0 = ls[0];
        let rest = ls.drop_first();
        assert forall|k: int| 0 <= k < rest.len() implies spec_plain_line(#[trigger] rest[k]) by {
            assert(rest[k] == ls[k + 1]);
        }
        lemma_lines_of_join(rest);
        let head = l0 + seq!['\n'];
        let s = spec_join_lines(ls);
        assert(s =~= head + spec_join_lines(rest));
        assert(spec_plain_line(l0));
        assert forall|k: int| 0 <= k < l0.len() implies s[k] != '\n' by {
            assert(s[k] == l0[k]);
        }
        lemma_find_char_first(s, '\n', 0, l0.len() as int);
        assert(s.subrange(0, l0.len() as int) =~= l0);
        lemma_lines_shift(head, spec_join_lines(rest), 0);
        assert(spec_lines_from(s, 0) =~= seq![l0] + spec_lines_from(s, (l0.len() + 1) as int));
        assert(spec_lines(spec_join_lines(ls)) =~= ls);
    } else {
        assert(spec_join_lines(ls) =~= Seq::<char>::empty());
    }
}


/// No `c` at or after `from`: none is found.
pub proof fn lemma_find_char_none(s: Seq<char>, c: char, from: int)
    requires
        0 <= from,
        forall|k: int| from <= k < s.len() ==> s[k] != c,
    ensures spec_find_char(s, c, from) is None,
    decreases s.len() - from,
{
    if from < s.len() {
        lemma_find_char_none(s, c, from + 1);
    }
}

/// Trimming text without white space leaves it as it is.
pub proof fn lemma_trim_plain(s: Seq<char>)
    requires forall|k: int| 0 <= k < s.len() ==> !spec_is_white_space(#[trigger] s[k]),
    ensures spec_trim(s) == s,
{
    assert(spec_trim_start_index(s, 0) == (if s.len() == 0 { 0 } else { 0int }));
    if s.len() > 0 {
        assert(!spec_is_white_space(s[s.len() - 1]));
        assert(spec_trim_end_index(s, 0, s.len() as int) == s.len());
    }
    assert(spec_trim(s) =~= s);
}


/// Joining one more line appends it and its `'\n'`.
pub proof fn lemma_join_lines_push(ls: Seq<Seq<char>>, l: Seq<char>)
    ensures spec_join_lines(ls.push(l)) == spec_join_lines(ls) + l + seq!['\n'],
    decreases ls.len(),
{
    let p = ls.push(l);
    if ls.len() == 0 {
        assert(p.drop_first() =~= Seq::<Seq<char>>::empty());
        assert(spec_join_lines(p.drop_first()) == Seq::<char>::empty());
        assert(spec_join_lines(ls) == Seq::<char>::empty());
        assert(p[0] == l);
        assert(spec_join_lines(p) == p[0] + seq!['\n'] + spec_join_lines(p.drop_first()));
        assert(spec_join_lines(p) =~= spec_join_lines(ls) + l + seq!['\n']);
    } else {
        assert(p.drop_first() =~= ls.drop_first().push(l));
        lemma_join_lines_push(ls.drop_first(), l);
        assert(p[0] == ls[0]);
        assert(spec_join_lines(p) == p[0] + seq!['\n'] + spec_join_lines(p.drop_first()));
        assert(spec_join_lines(ls) == ls[0] + seq!['\n'] + spec_join_lines(ls.drop_first()));
        assert(spec_join_lines(p) =~= spec_join_lines(ls) + l + seq!['\n']);
    }
}

} // verus!
