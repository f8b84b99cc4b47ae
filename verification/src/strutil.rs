//! Character-level helpers shared by the label, query and path modules.
//!
//! All user-visible text the library produces is specified over
//! `Seq<char>`; these helpers build such text: decimal rendering of
//! numbers, concatenation, padding, joining with a separator and
//! lexicographic comparison.

use vstd::prelude::*;

verus! {

/// The decimal digit character for a value below ten.
pub open spec fn dec_digit(d: nat) -> char {
    if d == 0 {
        '0'
    } else if d == 1 {
        '1'
    } else if d == 2 {
        '2'
    } else if d == 3 {
        '3'
    } else if d == 4 {
        '4'
    } else if d == 5 {
        '5'
    } else if d == 6 {
        '6'
    } else if d == 7 {
        '7'
    } else if d == 8 {
        '8'
    } else {
        '9'
    }
}

/// Decimal rendering of a natural number, most significant digit first.
pub open spec fn dec_chars(n: nat) -> Seq<char>
    decreases n,
{
    if n < 10 {
        seq![dec_digit(n)]
    } else {
        dec_chars(n / 10).push(dec_digit(n % 10))
    }
}

fn digit_char(d: u64) -> (c: char)
    requires
        d < 10,
    ensures
        c == dec_digit(d as nat),
{
    if d == 0 {
        '0'
    } else if d == 1 {
        '1'
    } else if d == 2 {
        '2'
    } else if d == 3 {
        '3'
    } else if d == 4 {
        '4'
    } else if d == 5 {
        '5'
    } else if d == 6 {
        '6'
    } else if d == 7 {
        '7'
    } else if d == 8 {
        '8'
    } else {
        '9'
    }
}

/// The decimal digits of `n`, as characters.
pub fn u64_chars(n: u64) -> (v: Vec<char>)
    ensures
        v@ == dec_chars(n as nat),
    decreases n,
{
    if n < 10 {
        let mut v: Vec<char> = Vec::new();
        v.push(digit_char(n));
        assert(v@ =~= dec_chars(n as nat));
        v
    } else {
        let mut v = u64_chars(n / 10);
        v.push(digit_char(n % 10));
        assert(v@ =~= dec_chars(n as nat));
        v
    }
}

/// Builds a `String` from a vector of characters.
///
/// Relies on `core::iter::Iterator::collect` via `String`'s
/// `FromIterator<char>` implementation: collecting characters into a
/// `String` yields exactly those characters in order.
#[verifier::external_body]
pub fn string_from_chars(v: &Vec<char>) -> (s: String)
    ensures
        s@ == v@,
{
    v.iter().collect()
}

/// Appends every character of `s` to `out`.
pub fn append_str_chars(out: &mut Vec<char>, s: &str)
    ensures
        final(out)@ == old(out)@ + s@,
{
    let n = s.unicode_len();
    let mut i: usize = 0;
    while i < n
        invariant
            n == s@.len(),
            i <= n,
            out@ == old(out)@ + s@.subrange(0, i as int),
        decreases n - i,
    {
        out.push(s.get_char(i));
        assert(out@ =~= old(out)@ + s@.subrange(0, i + 1 as int));
        i = i + 1;
    }
    assert(out@ =~= old(out)@ + s@);
}

/// A run of `n` space characters.
pub open spec fn spaces(n: nat) -> Seq<char> {
    Seq::new(n, |i: int| ' ')
}

/// Pads `out` with spaces on the right up to `width` characters.
pub fn pad_chars(out: &mut Vec<char>, width: usize)
    ensures
        old(out)@.len() >= width ==> final(out)@ == old(out)@,
        old(out)@.len() < width ==> final(out)@ == old(out)@ + spaces(
            (width - old(out)@.len()) as nat,
        ),
{
    let start = out.len();
    assert(out@ =~= old(out)@ + spaces(0));
    let mut i = start;
    while i < width
        invariant
            start == old(out)@.len(),
            out@.len() == i,
            i >= start,
            i <= width || i == start,
            out@ == old(out)@ + spaces((i - start) as nat),
        decreases width - i,
    {
        out.push(' ');
        assert(out@ =~= old(out)@ + spaces((i + 1 - start) as nat));
        i = i + 1;
    }
    if start >= width {
        assert(out@ =~= old(out)@);
    }
}

/// Strict lexicographic order on character sequences, by code point.
pub open spec fn lex_lt(a: Seq<char>, b: Seq<char>) -> bool
    decreases a.len(),
{
    if b.len() == 0 {
        false
    } else if a.len() == 0 {
        true
    } else if a[0] != b[0] {
        (a[0] as u32) < (b[0] as u32)
    } else {
        lex_lt(a.drop_first(), b.drop_first())
    }
}

/// Compares two strings lexicographically by code point.
pub fn str_lex_lt(a: &str, b: &str) -> (r: bool)
    ensures
        r == lex_lt(a@, b@),
{
    let an = a.unicode_len();
    let bn = b.unicode_len();
    assert(a@.subrange(0, an as int) =~= a@);
    assert(b@.subrange(0, bn as int) =~= b@);
    let mut i: usize = 0;
    loop
        invariant
            an == a@.len(),
            bn == b@.len(),
            i <= an,
            i <= bn,
            lex_lt(a@, b@) == lex_lt(
                a@.subrange(i as int, an as int),
                b@.subrange(i as int, bn as int),
            ),
        decreases an - i,
    {
        if i >= bn {
            assert(b@.subrange(i as int, bn as int).len() == 0);
            return false;
        }
        if i >= an {
            assert(a@.subrange(i as int, an as int).len() == 0);
            assert(b@.subrange(i as int, bn as int).len() > 0);
            return true;
        }
        let ac = a.get_char(i);
        let bc = b.get_char(i);
        assert(a@.subrange(i as int, an as int)[0] == a@[i as int]);
        assert(b@.subrange(i as int, bn as int)[0] == b@[i as int]);
        if ac != bc {
            return (ac as u32) < (bc as u32);
        }
        assert(a@.subrange(i as int, an as int).drop_first() =~= a@.subrange(i + 1, an as int));
        assert(b@.subrange(i as int, bn as int).drop_first() =~= b@.subrange(i + 1, bn as int));
        i = i + 1;
    }
}

/// The order is asymmetric: two sequences never precede each other.
pub proof fn lemma_lex_lt_asym(a: Seq<char>, b: Seq<char>)
    ensures
        lex_lt(a, b) ==> !lex_lt(b, a),
    decreases a.len(),
{
    if b.len() > 0 && a.len() > 0 && a[0] == b[0] {
        lemma_lex_lt_asym(a.drop_first(), b.drop_first());
    }
}

/// The order is transitive.
pub proof fn lemma_lex_lt_trans(a: Seq<char>, b: Seq<char>, c: Seq<char>)
    requires
        lex_lt(a, b),
        lex_lt(b, c),
    ensures
        lex_lt(a, c),
    decreases a.len(),
{
    if a.len() > 0 && b.len() > 0 && c.len() > 0 && a[0] == b[0] && b[0] == c[0] {
        lemma_lex_lt_trans(a.drop_first(), b.drop_first(), c.drop_first());
    }
}

/// `s` padded with spaces on the right to width `w`.
pub open spec fn padded(s: Seq<char>, w: nat) -> Seq<char> {
    if s.len() >= w {
        s
    } else {
        s + spaces((w - s.len()) as nat)
    }
}

/// Joins the parts with the separator between consecutive parts.
pub open spec fn join_sep(parts: Seq<Seq<char>>, sep: Seq<char>) -> Seq<char>
    decreases parts.len(),
{
    if parts.len() == 0 {
        Seq::empty()
    } else if parts.len() == 1 {
        parts[0]
    } else {
        parts[0] + sep + join_sep(parts.drop_first(), sep)
    }
}

/// Joins strings with `", "` between consecutive entries.
pub fn join_comma(parts: &Vec<String>) -> (s: String)
    ensures
        s@ == join_sep(parts@.map_values(|p: String| p@), ", "@),
{
    let ghost gparts = parts@.map_values(|p: String| p@);
    let ghost sep = ", "@;
    let ghost n = gparts.len() as int;
    let mut out: Vec<char> = Vec::new();
    assert(gparts.subrange(0, n) =~= gparts);
    let mut i: usize = 0;
    while i < parts.len()
        invariant
            gparts == parts@.map_values(|p: String| p@),
            n == gparts.len(),
            parts@.len() == n,
            i <= n,
            i == 0 ==> out@ == Seq::<char>::empty(),
            0 < i < n ==> out@ + sep + join_sep(gparts.subrange(i as int, n), sep) == join_sep(
                gparts,
                sep,
            ),
            i == n && n > 0 ==> out@ == join_sep(gparts, sep),
            sep == ", "@,
        decreases n - i,
    {
        proof {
            lemma_join_step(gparts, i as int);
        }
        if i > 0 {
            append_str_chars(&mut out, ", ");
        }
        append_str_chars(&mut out, parts[i].as_str());
        assert(gparts[i as int] == parts@[i as int]@);
        if i + 1 < parts.len() {
            assert(out@ + sep + join_sep(gparts.subrange(i + 1, n), sep) =~= join_sep(
                gparts,
                sep,
            ));
        } else {
            assert(out@ =~= join_sep(gparts, sep));
        }
        i = i + 1;
    }
    if parts.len() == 0 {
        assert(out@ =~= join_sep(gparts, sep));
    }
    string_from_chars(&out)
}

proof fn lemma_join_step(parts: Seq<Seq<char>>, i: int)
    requires
        0 <= i < parts.len(),
    ensures
        i + 1 < parts.len() ==> join_sep(parts.subrange(i, parts.len() as int), ", "@) == parts[i]
            + ", "@ + join_sep(parts.subrange(i + 1, parts.len() as int), ", "@),
        i + 1 == parts.len() ==> join_sep(parts.subrange(i, parts.len() as int), ", "@) == parts[i],
{
    let tail = parts.subrange(i, parts.len() as int);
    if i + 1 < parts.len() {
        assert(tail.drop_first() =~= parts.subrange(i + 1, parts.len() as int));
        assert(tail.len() > 1);
        assert(tail[0] == parts[i]);
    } else {
        assert(tail.len() == 1);
        assert(tail[0] == parts[i]);
    }
}

/// Compares two strings for equal content.
pub fn str_eq(a: &str, b: &str) -> (r: bool)
    ensures
        r == (a@ == b@),
{
    let an = a.unicode_len();
    let bn = b.unicode_len();
    if an != bn {
        return false;
    }
    let mut i: usize = 0;
    while i < an
        invariant
            an == a@.len(),
            bn == b@.len(),
            an == bn,
            i <= an,
            forall|j: int| 0 <= j < i ==> a@[j] == b@[j],
        decreases an - i,
    {
        if a.get_char(i) != b.get_char(i) {
            return false;
        }
        i = i + 1;
    }
    proof {
        assert(a@ =~= b@);
    }
    true
}

/// The index of the first occurrence of `c` in `s`, if any.
pub fn index_of_char(s: &str, c: char) -> (r: Option<usize>)
    ensures
        match r {
            Some(i) => i < s@.len() && s@[i as int] == c && forall|j: int|
                0 <= j < i ==> s@[j] != c,
            None => forall|j: int| 0 <= j < s@.len() ==> s@[j] != c,
        },
{
    let n = s.unicode_len();
    let mut i: usize = 0;
    while i < n
        invariant
            n == s@.len(),
            i <= n,
            forall|j: int| 0 <= j < i ==> s@[j] != c,
        decreases n - i,
    {
        if s.get_char(i) == c {
            return Some(i);
        }
        i = i + 1;
    }
    None
}

} // verus!
