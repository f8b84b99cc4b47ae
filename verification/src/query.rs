//! Version search queries.
//!
//! Grammar (the user-visible query syntax):
//!
//! ```text
//! [repository/]<major>.<minor>.<patch>[-<branch>][(+|#)<build_hash>][@<commit_time>]
//! ```
//!
//! Each of `major`, `minor` and `patch` is an integer or one of `^`
//! (match the largest/newest), `*` (match anything), `-` (match the
//! smallest/oldest). `commit_time` accepts only `^`, `*` or `-` and
//! defaults to `*`. A query that fails this grammar is rejected, and the
//! caller reports the offending input string.

use vstd::prelude::*;

verus! {

/// Constraint on one ordered component (a version number or a time).
#[derive(Debug, Clone, Copy, PartialEq, Eq, Structural)]
pub enum OrdPlacement {
    /// `*`: match anything.
    Any,
    /// `^`: match only the largest value present.
    Largest,
    /// `-`: match only the smallest value present.
    Smallest,
    /// A literal number: match exactly it.
    Exact(u64),
}

/// Constraint on the commit time: only wildcards, no literal timestamps.
#[derive(Debug, Clone, Copy, PartialEq, Eq, Structural)]
pub enum TimePlacement {
    Any,
    Largest,
    Smallest,
}

/// Constraint on a textual component (repository, branch, build hash).
#[derive(Debug, Clone, PartialEq)]
pub enum WildPlacement {
    Any,
    Exact(String),
}

impl View for WildPlacement {
    type V = Option<Seq<char>>;

    open spec fn view(&self) -> Option<Seq<char>> {
        match self {
            WildPlacement::Any => None,
            WildPlacement::Exact(s) => Some(s@),
        }
    }
}

/// Mathematical model of a parsed query.
#[verifier::ext_equal]
pub ghost struct QueryV {
    pub repository: Option<Seq<char>>,
    pub major: OrdPlacement,
    pub minor: OrdPlacement,
    pub patch: OrdPlacement,
    pub branch: Option<Seq<char>>,
    pub build_hash: Option<Seq<char>>,
    pub commit_dt: TimePlacement,
}

/// A parsed version search query.
#[derive(Debug, Clone, PartialEq)]
pub struct VersionSearchQuery {
    pub repository: WildPlacement,
    pub major: OrdPlacement,
    pub minor: OrdPlacement,
    pub patch: OrdPlacement,
    pub branch: WildPlacement,
    pub build_hash: WildPlacement,
    pub commit_dt: TimePlacement,
}

impl View for VersionSearchQuery {
    type V = QueryV;

    open spec fn view(&self) -> QueryV {
        QueryV {
            repository: self.repository@,
            major: self.major,
            minor: self.minor,
            patch: self.patch,
            branch: self.branch@,
            build_hash: self.build_hash@,
            commit_dt: self.commit_dt,
        }
    }
}

impl VersionSearchQuery {
    /// The query that matches everything: every component a wildcard.
    pub fn any() -> (q: VersionSearchQuery)
        ensures
            q@ == (QueryV {
                repository: None,
                major: OrdPlacement::Any,
                minor: OrdPlacement::Any,
                patch: OrdPlacement::Any,
                branch: None,
                build_hash: None,
                commit_dt: TimePlacement::Any,
            }),
    {
        VersionSearchQuery {
            repository: WildPlacement::Any,
            major: OrdPlacement::Any,
            minor: OrdPlacement::Any,
            patch: OrdPlacement::Any,
            branch: WildPlacement::Any,
            build_hash: WildPlacement::Any,
            commit_dt: TimePlacement::Any,
        }
    }
}

/// Whether `c` is a decimal digit.
pub open spec fn is_digit(c: char) -> bool {
    48 <= (c as u32) <= 57
}

/// The value of a decimal digit character.
pub open spec fn digit_of(c: char) -> int {
    (c as u32) - 48
}

/// The value of a sequence of decimal digit characters.
pub open spec fn digits_val(s: Seq<char>) -> int
    decreases s.len(),
{
    if s.len() == 0 {
        0
    } else {
        digits_val(s.drop_last()) * 10 + digit_of(s.last())
    }
}

/// The first position at or after `p` holding a non-digit (or the end).
pub open spec fn digits_end(s: Seq<char>, p: int) -> int
    decreases s.len() - p,
{
    if p < s.len() && is_digit(s[p]) {
        digits_end(s, p + 1)
    } else {
        p
    }
}

/// The first position at or after `p` holding `c` (or the end).
pub open spec fn find_from(s: Seq<char>, p: int, c: char) -> int
    decreases s.len() - p,
{
    if p >= s.len() {
        s.len() as int
    } else if s[p] == c {
        p
    } else {
        find_from(s, p + 1, c)
    }
}

/// Whether `c` ends the branch part of a query.
pub open spec fn is_tail_delim(c: char) -> bool {
    c == '+' || c == '#' || c == '@'
}

/// The first position at or after `p` holding a tail delimiter (or the end).
pub open spec fn find_tail_delim(s: Seq<char>, p: int) -> int
    decreases s.len() - p,
{
    if p >= s.len() {
        s.len() as int
    } else if is_tail_delim(s[p]) {
        p
    } else {
        find_tail_delim(s, p + 1)
    }
}

/// Parses one ordered component at position `p`: a wildcard character or
/// a run of digits whose value fits in 64 bits. Returns the component and
/// the position just after it.
pub open spec fn spec_parse_vcomp(s: Seq<char>, p: int) -> Option<(OrdPlacement, int)> {
    if p >= s.len() {
        None
    } else if s[p] == '^' {
        Some((OrdPlacement::Largest, p + 1))
    } else if s[p] == '*' {
        Some((OrdPlacement::Any, p + 1))
    } else if s[p] == '-' {
        Some((OrdPlacement::Smallest, p + 1))
    } else {
        let e = digits_end(s, p);
        if e == p {
            None
        } else if digits_val(s.subrange(p, e)) > u64::MAX {
            None
        } else {
            Some((OrdPlacement::Exact(digits_val(s.subrange(p, e)) as u64), e))
        }
    }
}

/// Parses the optional query tail at position `p`: branch, build hash and
/// commit-time wildcard.
pub open spec fn spec_parse_tail(
    s: Seq<char>,
    p: int,
    repository: Option<Seq<char>>,
    major: OrdPlacement,
    minor: OrdPlacement,
    patch: OrdPlacement,
) -> Option<QueryV> {
    let be = find_tail_delim(s, p + 1);
    let branch: Option<Seq<char>> = if p < s.len() && s[p] == '-' {
        Some(s.subrange(p + 1, be))
    } else {
        None
    };
    let p1 = if p < s.len() && s[p] == '-' {
        be
    } else {
        p
    };
    let he = find_from(s, p1 + 1, '@');
    let build_hash: Option<Seq<char>> = if p1 < s.len() && (s[p1] == '+' || s[p1] == '#') {
        Some(s.subrange(p1 + 1, he))
    } else {
        None
    };
    let p2 = if p1 < s.len() && (s[p1] == '+' || s[p1] == '#') {
        he
    } else {
        p1
    };
    if p2 == s.len() {
        Some(QueryV { repository, major, minor, patch, branch, build_hash, commit_dt: TimePlacement::Any })
    } else if s[p2] == '@' && p2 + 2 == s.len() {
        if s[p2 + 1] == '^' {
            Some(
                QueryV {
                    repository,
                    major,
                    minor,
                    patch,
                    branch,
                    build_hash,
                    commit_dt: TimePlacement::Largest,
                },
            )
        } else if s[p2 + 1] == '*' {
            Some(
                QueryV {
                    repository,
                    major,
                    minor,
                    patch,
                    branch,
                    build_hash,
                    commit_dt: TimePlacement::Any,
                },
            )
        } else if s[p2 + 1] == '-' {
            Some(
                QueryV {
                    repository,
                    major,
                    minor,
                    patch,
                    branch,
                    build_hash,
                    commit_dt: TimePlacement::Smallest,
                },
            )
        } else {
            None
        }
    } else {
        None
    }
}

/// Parses a whole query string.
pub open spec fn spec_parse_query(s: Seq<char>) -> Option<QueryV> {
    let sl = find_from(s, 0, '/');
    let repository: Option<Seq<char>> = if sl < s.len() {
        Some(s.subrange(0, sl))
    } else {
        None
    };
    let start = if sl < s.len() {
        sl + 1
    } else {
        0
    };
    match spec_parse_vcomp(s, start) {
        None => None,
        Some((major, p1)) => if p1 < s.len() && s[p1] == '.' {
            match spec_parse_vcomp(s, p1 + 1) {
                None => None,
                Some((minor, p2)) => if p2 < s.len() && s[p2] == '.' {
                    match spec_parse_vcomp(s, p2 + 1) {
                        None => None,
                        Some((patch, p3)) => spec_parse_tail(s, p3, repository, major, minor, patch),
                    }
                } else {
                    None
                },
            }
        } else {
            None
        },
    }
}

fn exec_is_digit(c: char) -> (r: bool)
    ensures
        r == is_digit(c),
{
    let u = c as u32;
    48 <= u && u <= 57
}

fn exec_digits_end(s: &str, p: usize) -> (e: usize)
    requires
        p <= s@.len(),
    ensures
        e == digits_end(s@, p as int),
        p <= e <= s@.len(),
        forall|j: int| p <= j < e ==> is_digit(s@[j]),
{
    let n = s.unicode_len();
    let mut i = p;
    while i < n && exec_is_digit(s.get_char(i))
        invariant
            n == s@.len(),
            p <= i <= n,
            forall|j: int| p <= j < i ==> is_digit(s@[j]),
            digits_end(s@, p as int) == digits_end(s@, i as int),
        decreases n - i,
    {
        i = i + 1;
    }
    proof {
        if i < n {
            assert(digits_end(s@, i as int) == i);
        }
    }
    i
}

fn exec_find_from(s: &str, p: usize, c: char) -> (e: usize)
    requires
        p <= s@.len(),
    ensures
        e == find_from(s@, p as int, c),
        p <= e <= s@.len(),
{
    let n = s.unicode_len();
    let mut i = p;
    while i < n && s.get_char(i) != c
        invariant
            n == s@.len(),
            p <= i <= n,
            find_from(s@, p as int, c) == find_from(s@, i as int, c),
        decreases n - i,
    {
        i = i + 1;
    }
    i
}

fn exec_is_tail_delim(c: char) -> (r: bool)
    ensures
        r == is_tail_delim(c),
{
    c == '+' || c == '#' || c == '@'
}

fn exec_find_tail_delim(s: &str, p: usize) -> (e: usize)
    requires
        p <= s@.len(),
    ensures
        e == find_tail_delim(s@, p as int),
        p <= e <= s@.len(),
{
    let n = s.unicode_len();
    let mut i = p;
    while i < n && !exec_is_tail_delim(s.get_char(i))
        invariant
            n == s@.len(),
            p <= i <= n,
            find_tail_delim(s@, p as int) == find_tail_delim(s@, i as int),
        decreases n - i,
    {
        i = i + 1;
    }
    i
}

proof fn lemma_digits_val_nonneg(s: Seq<char>)
    requires
        forall|i: int| 0 <= i < s.len() ==> is_digit(s[i]),
    ensures
        digits_val(s) >= 0,
    decreases s.len(),
{
    if s.len() > 0 {
        lemma_digits_val_nonneg(s.drop_last());
    }
}

/// Extending a digit run to the right can only increase its value.
proof fn lemma_digits_val_mono(s: Seq<char>, p: int, j: int, k: int)
    requires
        0 <= p <= j <= k <= s.len(),
        forall|i: int| p <= i < k ==> is_digit(s[i]),
    ensures
        digits_val(s.subrange(p, j)) <= digits_val(s.subrange(p, k)),
    decreases k - j,
{
    if j < k {
        lemma_digits_val_mono(s, p, j, k - 1);
        let prev = s.subrange(p, k - 1);
        let cur = s.subrange(p, k);
        assert(cur.drop_last() =~= prev);
        assert(forall|i: int| 0 <= i < prev.len() ==> is_digit(prev[i]));
        lemma_digits_val_nonneg(prev);
        assert(cur.last() == s[k - 1]);
        assert(digits_val(cur) == digits_val(prev) * 10 + digit_of(s[k - 1]));
    }
}

fn exec_parse_vcomp(s: &str, p: usize) -> (r: Option<(OrdPlacement, usize)>)
    requires
        p <= s@.len(),
    ensures
        match r {
            Some(pr) => spec_parse_vcomp(s@, p as int) == Some((pr.0, pr.1 as int)) && p < pr.1
                <= s@.len(),
            None => spec_parse_vcomp(s@, p as int) is None,
        },
{
    let n = s.unicode_len();
    if p >= n {
        return None;
    }
    let c = s.get_char(p);
    if c == '^' {
        return Some((OrdPlacement::Largest, p + 1));
    }
    if c == '*' {
        return Some((OrdPlacement::Any, p + 1));
    }
    if c == '-' {
        return Some((OrdPlacement::Smallest, p + 1));
    }
    let e = exec_digits_end(s, p);
    if e == p {
        return None;
    }
    let mut val: u64 = 0;
    let mut i = p;
    assert(s@.subrange(p as int, p as int) =~= Seq::<char>::empty());
    while i < e
        invariant
            p <= i <= e <= s@.len(),
            e == digits_end(s@, p as int),
            forall|j: int| p <= j < e ==> is_digit(s@[j]),
            val == digits_val(s@.subrange(p as int, i as int)),
        decreases e - i,
    {
        let c = s.get_char(i);
        let d = (c as u32 - 48) as u64;
        assert(is_digit(s@[i as int]));
        assert(d == digit_of(s@[i as int]));
        let ghost cur = s@.subrange(p as int, i + 1);
        proof {
            assert(cur.drop_last() =~= s@.subrange(p as int, i as int));
            assert(cur.last() == s@[i as int]);
            assert(digits_val(cur) == val * 10 + d);
        }
        let next = match val.checked_mul(10) {
            Some(v) => v.checked_add(d),
            None => None,
        };
        match next {
            Some(v) => {
                val = v;
            },
            None => {
                proof {
                    lemma_digits_val_mono(s@, p as int, i + 1, e as int);
                    assert(digits_val(s@.subrange(p as int, e as int)) >= digits_val(cur));
                    assert(digits_val(cur) > u64::MAX);
                }
                return None;
            },
        }
        i = i + 1;
    }
    Some((OrdPlacement::Exact(val), e))
}

/// Error produced when a query string fails the grammar.
#[derive(Debug, Clone, Copy, PartialEq, Eq, Structural)]
pub struct QueryParseError;

/// Parses a version search query, accepting exactly the strings of the
/// grammar; any other string is rejected.
pub fn parse_query(s: &str) -> (r: Result<VersionSearchQuery, QueryParseError>)
    ensures
        match r {
            Ok(q) => spec_parse_query(s@) == Some(q@),
            Err(_) => spec_parse_query(s@) is None,
        },
{
    let n = s.unicode_len();
    let sl = exec_find_from(s, 0, '/');
    let repository = if sl < n {
        WildPlacement::Exact(s.substring_char(0, sl).to_owned())
    } else {
        WildPlacement::Any
    };
    let start = if sl < n {
        sl + 1
    } else {
        0
    };
    let (major, p1) = match exec_parse_vcomp(s, start) {
        Some(pr) => pr,
        None => {
            return Err(QueryParseError);
        },
    };
    if !(p1 < n && s.get_char(p1) == '.') {
        return Err(QueryParseError);
    }
    let (minor, p2) = match exec_parse_vcomp(s, p1 + 1) {
        Some(pr) => pr,
        None => {
            return Err(QueryParseError);
        },
    };
    if !(p2 < n && s.get_char(p2) == '.') {
        return Err(QueryParseError);
    }
    let (patch, p3) = match exec_parse_vcomp(s, p2 + 1) {
        Some(pr) => pr,
        None => {
            return Err(QueryParseError);
        },
    };

    // tail
    let (branch, p4) = if p3 < n && s.get_char(p3) == '-' {
        let be = exec_find_tail_delim(s, p3 + 1);
        (WildPlacement::Exact(s.substring_char(p3 + 1, be).to_owned()), be)
    } else {
        (WildPlacement::Any, p3)
    };
    let (build_hash, p5) = if p4 < n && (s.get_char(p4) == '+' || s.get_char(p4) == '#') {
        let he = exec_find_from(s, p4 + 1, '@');
        (WildPlacement::Exact(s.substring_char(p4 + 1, he).to_owned()), he)
    } else {
        (WildPlacement::Any, p4)
    };
    let commit_dt = if p5 == n {
        TimePlacement::Any
    } else if s.get_char(p5) == '@' && n - p5 == 2 {
        let t = s.get_char(p5 + 1);
        if t == '^' {
            TimePlacement::Largest
        } else if t == '*' {
            TimePlacement::Any
        } else if t == '-' {
            TimePlacement::Smallest
        } else {
            return Err(QueryParseError);
        }
    } else {
        return Err(QueryParseError);
    };
    let q = VersionSearchQuery { repository, major, minor, patch, branch, build_hash, commit_dt };
    assert(spec_parse_query(s@) == Some(q@));
    Ok(q)
}

} // verus!
