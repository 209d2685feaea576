//! Character-level helpers shared by the path and metric-name code.
//!
//! Strings are modelled by their view, a `Seq<char>`. The executable helpers
//! work on `Vec<char>` and convert at the edges.

use vstd::prelude::*;
use vstd::string::{group_string_axioms, StringSliceAdditionalSpecFns};
use vstd::utf8::encode_utf8_decode_utf8;

verus! {

broadcast use group_string_axioms;

/// Whether `c` is an ASCII lower-case letter.
pub open spec fn is_ascii_lower(c: char) -> bool {
    'a' <= c && c <= 'z'
}

/// Whether `c` is an ASCII upper-case letter.
pub open spec fn is_ascii_upper(c: char) -> bool {
    'A' <= c && c <= 'Z'
}

/// Whether `c` is an ASCII hexadecimal digit, in either case.
pub open spec fn is_hex_digit(c: char) -> bool {
    ('0' <= c && c <= '9') || ('a' <= c && c <= 'f') || ('A' <= c && c <= 'F')
}

/// ASCII upper-casing of one character; every other character is unchanged.
pub open spec fn ascii_upper(c: char) -> char {
    if is_ascii_lower(c) {
        ((c as u8) - 32) as char
    } else {
        c
    }
}

/// ASCII lower-casing of one character; every other character is unchanged.
pub open spec fn ascii_lower(c: char) -> char {
    if is_ascii_upper(c) {
        ((c as u8) + 32) as char
    } else {
        c
    }
}

/// `s` with every character upper-cased by `ascii_upper`.
pub open spec fn upper(s: Seq<char>) -> Seq<char> {
    Seq::new(s.len(), |i: int| ascii_upper(s[i]))
}

/// `s` with every character lower-cased by `ascii_lower`.
pub open spec fn lower(s: Seq<char>) -> Seq<char> {
    Seq::new(s.len(), |i: int| ascii_lower(s[i]))
}

/// `s` without any occurrence of `c`, the other characters in their order.
pub open spec fn without(s: Seq<char>, c: char) -> Seq<char>
    decreases s.len(),
{
    if s.len() == 0 {
        s
    } else if s.last() == c {
        without(s.drop_last(), c)
    } else {
        without(s.drop_last(), c).push(s.last())
    }
}

/// Index of the first occurrence of `c` in `s`, or `s.len()` if there is none.
pub open spec fn position(s: Seq<char>, c: char) -> int
    decreases s.len(),
{
    if s.len() == 0 {
        0
    } else if s[0] == c {
        0
    } else {
        1 + position(s.drop_first(), c)
    }
}

/// The pieces of `s` between occurrences of `sep`. There is always at least
/// one piece; `n` separators give `n + 1` pieces, some of which may be empty.
pub open spec fn split(s: Seq<char>, sep: char) -> Seq<Seq<char>>
    decreases s.len(),
{
    let i = position(s, sep);
    if 0 <= i < s.len() {
        seq![s.take(i)] + split(s.skip(i + 1), sep)
    } else {
        seq![s]
    }
}

/// The pieces with `sep` between each two neighbours.
pub open spec fn join(pieces: Seq<Seq<char>>, sep: char) -> Seq<char>
    decreases pieces.len(),
{
    if pieces.len() == 0 {
        Seq::empty()
    } else if pieces.len() == 1 {
        pieces[0]
    } else {
        join(pieces.drop_last(), sep).push(sep) + pieces.last()
    }
}

/// The decimal digit for `d`, which is below ten.
pub open spec fn digit(d: nat) -> char
    recommends
        d < 10,
{
    (('0' as u8) + d) as char
}

/// `n` in decimal, without sign or leading zeros.
pub open spec fn decimal(n: nat) -> Seq<char>
    decreases n,
{
    if n < 10 {
        seq![digit(n)]
    } else {
        decimal(n / 10).push(digit(n % 10))
    }
}

/// `-` for a number below zero, nothing for any other.
pub open spec fn sign_text(n: int) -> Seq<char> {
    if n < 0 {
        seq!['-']
    } else {
        Seq::empty()
    }
}

/// The distance of `n` from zero.
pub open spec fn magnitude(n: int) -> nat {
    if n < 0 {
        (-n) as nat
    } else {
        n as nat
    }
}

/// A number of tenths in decimal: `5.1` for 51, `-13.1` for -131, `5` for 50.
pub open spec fn tenths_text(tenths: int) -> Seq<char> {
    let m = magnitude(tenths);
    let fraction = if m % 10 == 0 {
        Seq::empty()
    } else {
        seq!['.', digit(m % 10)]
    };
    sign_text(tenths) + decimal(m / 10) + fraction
}

/// A number of hundredths in decimal: `41.18` for 4118, `41.1` for 4110,
/// `41` for 4100, `-0.4` for -40.
pub open spec fn hundredths_text(hundredths: int) -> Seq<char> {
    let m = magnitude(hundredths);
    let f = m % 100;
    let fraction = if f == 0 {
        Seq::empty()
    } else if f % 10 == 0 {
        seq!['.', digit(f / 10)]
    } else {
        seq!['.', digit(f / 10), digit(f % 10)]
    };
    sign_text(hundredths) + decimal(m / 100) + fraction
}

/// The views of the pieces held in `pieces`.
pub open spec fn views(pieces: Seq<Vec<char>>) -> Seq<Seq<char>> {
    Seq::new(pieces.len(), |i: int| pieces[i]@)
}

/// `position` stays within the sequence.
pub proof fn lemma_position_bounds(s: Seq<char>, c: char)
    ensures
        0 <= position(s, c) <= s.len(),
        position(s, c) < s.len() ==> s[position(s, c)] == c,
        forall|j: int| 0 <= j < position(s, c) ==> s[j] != c,
    decreases s.len(),
{
    if s.len() > 0 && s[0] != c {
        let rest = s.drop_first();
        lemma_position_bounds(rest, c);
        assert forall|j: int| 0 <= j < position(s, c) implies s[j] != c by {
            if j > 0 {
                assert(rest[j - 1] == s[j]);
            }
        }
    }
}

/// `position` is the one index that holds `c` with no `c` before it.
pub proof fn lemma_position_is(s: Seq<char>, c: char, i: int)
    requires
        0 <= i <= s.len(),
        forall|j: int| 0 <= j < i ==> s[j] != c,
        i < s.len() ==> s[i] == c,
    ensures
        position(s, c) == i,
{
    lemma_position_bounds(s, c);
}

/// There is always at least one piece.
pub proof fn lemma_split_nonempty(s: Seq<char>, sep: char)
    ensures
        split(s, sep).len() >= 1,
{
}

/// Upper-cases one character, leaving non-letters and non-ASCII characters as they are.
pub fn to_ascii_upper(c: char) -> (r: char)
    ensures
        r == ascii_upper(c),
{
    if 'a' <= c && c <= 'z' {
        let b: u8 = c as u8;
        (b - 32) as char
    } else {
        c
    }
}

/// Lower-cases one character, leaving non-letters and non-ASCII characters as they are.
pub fn to_ascii_lower(c: char) -> (r: char)
    ensures
        r == ascii_lower(c),
{
    if 'A' <= c && c <= 'Z' {
        let b: u8 = c as u8;
        (b + 32) as char
    } else {
        c
    }
}

/// Tells whether `c` is one of `0-9`, `a-f`, `A-F`.
pub fn hex_digit(c: char) -> (r: bool)
    ensures
        r == is_hex_digit(c),
{
    ('0' <= c && c <= '9') || ('a' <= c && c <= 'f') || ('A' <= c && c <= 'F')
}

/// The decimal digit for `d`.
pub fn digit_char(d: u8) -> (c: char)
    requires
        d < 10,
    ensures
        c == digit(d as nat),
{
    (48u8 + d) as char
}

/// `n` in decimal.
pub fn decimal_chars(n: u64) -> (r: Vec<char>)
    ensures
        r@ == decimal(n as nat),
    decreases n,
{
    if n < 10 {
        let mut r: Vec<char> = Vec::new();
        r.push(digit_char(n as u8));
        r
    } else {
        let mut r = decimal_chars(n / 10);
        r.push(digit_char((n % 10) as u8));
        r
    }
}

/// A number of tenths in decimal.
pub fn tenths_chars(tenths: i32) -> (r: Vec<char>)
    ensures
        r@ == tenths_text(tenths as int),
{
    let m: u64 = if tenths < 0 {
        (-(tenths as i64)) as u64
    } else {
        tenths as u64
    };
    let mut r: Vec<char> = Vec::new();
    if tenths < 0 {
        r.push('-');
    }
    let mut whole = decimal_chars(m / 10);
    r.append(&mut whole);
    if m % 10 != 0 {
        r.push('.');
        r.push(digit_char((m % 10) as u8));
    }
    assert(r@ =~= tenths_text(tenths as int));
    r
}

/// A number of hundredths in decimal.
pub fn hundredths_chars(hundredths: i64) -> (r: Vec<char>)
    ensures
        r@ == hundredths_text(hundredths as int),
{
    let m: u64 = if hundredths < 0 {
        ((-(hundredths + 1)) as u64) + 1
    } else {
        hundredths as u64
    };
    let mut r: Vec<char> = Vec::new();
    if hundredths < 0 {
        r.push('-');
    }
    let mut whole = decimal_chars(m / 100);
    r.append(&mut whole);
    let f = m % 100;
    if f != 0 {
        r.push('.');
        r.push(digit_char((f / 10) as u8));
        if f % 10 != 0 {
            r.push(digit_char((f % 10) as u8));
        }
    }
    assert(r@ =~= hundredths_text(hundredths as int));
    r
}

/// The characters of `s`, in order.
pub fn chars_of(s: &str) -> (v: Vec<char>)
    ensures
        v@ == s@,
{
    let mut v: Vec<char> = Vec::new();
    for c in it: s.chars()
        invariant
            it.seq() == s@,
            v@ == s@.take(it.index() as int),
    {
        v.push(c);
        assert(s@.take(it.index() + 1) == s@.take(it.index() as int).push(s@[it.index() as int]));
    }
    assert(s@.take(s@.len() as int) == s@);
    v
}

/// Appends one character to `s`, as `String::push` of the standard library
/// does: afterwards `s` holds what it held before, followed by `c`.
#[verifier::external_body]
fn push_char(s: &mut String, c: char)
    ensures
        final(s)@ == old(s)@.push(c),
{
    s.push(c);
}

/// The string made of the characters of `v`, in order.
pub fn string_of(v: &Vec<char>) -> (s: String)
    ensures
        s@ == v@,
{
    let mut s = String::new();
    let mut i: usize = 0;
    while i < v.len()
        invariant
            i <= v.len(),
            s@ == v@.take(i as int),
        decreases v.len() - i,
    {
        push_char(&mut s, v[i]);
        assert(v@.take(i + 1) == v@.take(i as int).push(v@[i as int]));
        i = i + 1;
    }
    s
}

/// Tells whether two strings hold the same characters.
pub fn same_text(a: &str, b: &str) -> (r: bool)
    ensures
        r == (a@ == b@),
{
    let x = a.as_bytes();
    let y = b.as_bytes();
    proof {
        // Two strings with the same encoding decode to the same characters.
        encode_utf8_decode_utf8(a@);
        encode_utf8_decode_utf8(b@);
    }
    if x.len() != y.len() {
        return false;
    }
    let mut i: usize = 0;
    while i < x.len()
        invariant
            x@ == a.spec_bytes(),
            y@ == b.spec_bytes(),
            x@.len() == y@.len(),
            i <= x@.len(),
            forall|j: int| 0 <= j < i ==> x@[j] == y@[j],
        decreases x@.len() - i,
    {
        if x[i] != y[i] {
            return false;
        }
        i = i + 1;
    }
    assert(x@ =~= y@);
    true
}

/// Upper-cases every ASCII letter of `v`.
pub fn upper_chars(v: &Vec<char>) -> (r: Vec<char>)
    ensures
        r@ == upper(v@),
{
    let mut r: Vec<char> = Vec::new();
    let mut i: usize = 0;
    while i < v.len()
        invariant
            i <= v.len(),
            r@.len() == i,
            forall|j: int| 0 <= j < i ==> r@[j] == ascii_upper(v@[j]),
        decreases v.len() - i,
    {
        r.push(to_ascii_upper(v[i]));
        i = i + 1;
    }
    assert(r@ =~= upper(v@));
    r
}

/// Lower-cases every ASCII letter of `v`.
pub fn lower_chars(v: &Vec<char>) -> (r: Vec<char>)
    ensures
        r@ == lower(v@),
{
    let mut r: Vec<char> = Vec::new();
    let mut i: usize = 0;
    while i < v.len()
        invariant
            i <= v.len(),
            r@.len() == i,
            forall|j: int| 0 <= j < i ==> r@[j] == ascii_lower(v@[j]),
        decreases v.len() - i,
    {
        r.push(to_ascii_lower(v[i]));
        i = i + 1;
    }
    assert(r@ =~= lower(v@));
    r
}

/// Drops every occurrence of `c` from `v`.
pub fn without_char(v: &Vec<char>, c: char) -> (r: Vec<char>)
    ensures
        r@ == without(v@, c),
{
    let mut r: Vec<char> = Vec::new();
    let mut i: usize = 0;
    while i < v.len()
        invariant
            i <= v.len(),
            r@ == without(v@.take(i as int), c),
        decreases v.len() - i,
    {
        assert(v@.take(i + 1).drop_last() == v@.take(i as int));
        if v[i] != c {
            r.push(v[i]);
        }
        i = i + 1;
    }
    assert(v@.take(v@.len() as int) == v@);
    r
}

/// Cuts `s` at every occurrence of `sep`.
pub fn split_chars(s: &Vec<char>, sep: char) -> (pieces: Vec<Vec<char>>)
    ensures
        views(pieces@) == split(s@, sep),
{
    let mut pieces: Vec<Vec<char>> = Vec::new();
    let mut current: Vec<char> = Vec::new();
    let mut start: usize = 0;
    let mut i: usize = 0;
    assert(s@.skip(0) == s@);
    assert(views(pieces@) + split(s@, sep) == split(s@, sep));
    while i < s.len()
        invariant
            start <= i <= s.len(),
            current@ == s@.subrange(start as int, i as int),
            forall|j: int| start <= j < i ==> s@[j] != sep,
            split(s@, sep) == views(pieces@) + split(s@.skip(start as int), sep),
        decreases s.len() - i,
    {
        let c = s[i];
        if c == sep {
            proof {
                let rest = s@.skip(start as int);
                lemma_position_is(rest, sep, i - start);
                assert(rest.take(i - start) == current@);
                assert(rest.skip(i - start + 1) == s@.skip(i + 1));
                assert(views(pieces@.push(current)) == views(pieces@).push(current@));
                assert(views(pieces@).push(current@) + split(s@.skip(i + 1), sep) == views(pieces@)
                    + (seq![current@] + split(s@.skip(i + 1), sep)));
            }
            pieces.push(current);
            current = Vec::new();
            start = i + 1;
            assert(current@ == s@.subrange(start as int, i + 1));
        } else {
            current.push(c);
            assert(current@ == s@.subrange(start as int, i + 1));
        }
        i = i + 1;
    }
    proof {
        let rest = s@.skip(start as int);
        lemma_position_is(rest, sep, rest.len() as int);
        assert(rest == current@);
        assert(views(pieces@.push(current)) == views(pieces@).push(current@));
        assert(views(pieces@).push(current@) == views(pieces@) + seq![current@]);
    }
    pieces.push(current);
    pieces
}

/// The pieces from index `from` on, with `sep` between each two neighbours.
pub fn join_chars(pieces: &Vec<Vec<char>>, from: usize, sep: char) -> (r: Vec<char>)
    requires
        from <= pieces.len(),
    ensures
        r@ == join(views(pieces@).skip(from as int), sep),
{
    let ghost all = views(pieces@).skip(from as int);
    let mut r: Vec<char> = Vec::new();
    let mut k: usize = from;
    assert(all.take(0).len() == 0);
    while k < pieces.len()
        invariant
            from <= k <= pieces.len(),
            all == views(pieces@).skip(from as int),
            r@ == join(all.take(k - from), sep),
        decreases pieces.len() - k,
    {
        let ghost done = all.take(k - from);
        let ghost next = all.take(k - from + 1);
        assert(next.drop_last() == done);
        assert(next.last() == pieces@[k as int]@);
        if k > from {
            r.push(sep);
        }
        let ghost head = r@;
        let piece = &pieces[k];
        let mut j: usize = 0;
        while j < piece.len()
            invariant
                j <= piece.len(),
                r@ == head + piece@.take(j as int),
            decreases piece.len() - j,
        {
            r.push(piece[j]);
            assert(piece@.take(j + 1) == piece@.take(j as int).push(piece@[j as int]));
            j = j + 1;
        }
        assert(piece@.take(piece@.len() as int) == piece@);
        assert(r@ == join(next, sep)) by {
            if k == from {
                assert(head + piece@ == piece@);
            }
        }
        k = k + 1;
    }
    assert(all.take(all.len() as int) == all);
    r
}

} // verus!
