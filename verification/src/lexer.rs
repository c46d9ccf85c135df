//! Character-level building blocks of the grammar parser: whitespace and
//! comment skipping, keyword matching, identifiers and integer literals.
//!
//! Each specification function works on the *remaining input*, a
//! `Seq<char>` suffix, and returns the remainder it leaves; each
//! executable function walks a character vector from a position and is
//! proved to land exactly where its specification twin says.

use vstd::prelude::*;

verus! {

// ---------------------------------------------------------------------
// Character classes.
// ---------------------------------------------------------------------

pub open spec fn spec_is_ws(c: char) -> bool {
    c == ' ' || c == '\t' || c == '\n' || c == '\r'
}

pub open spec fn spec_is_digit(c: char) -> bool {
    '0' <= c && c <= '9'
}

pub open spec fn spec_is_upper(c: char) -> bool {
    'A' <= c && c <= 'Z'
}

pub open spec fn spec_is_lower(c: char) -> bool {
    'a' <= c && c <= 'z'
}

pub open spec fn spec_is_alpha(c: char) -> bool {
    spec_is_upper(c) || spec_is_lower(c)
}

pub open spec fn spec_is_alnum(c: char) -> bool {
    spec_is_alpha(c) || spec_is_digit(c)
}

fn is_ws(c: char) -> (r: bool)
    ensures
        r == spec_is_ws(c),
{
    c == ' ' || c == '\t' || c == '\n' || c == '\r'
}

fn is_digit(c: char) -> (r: bool)
    ensures
        r == spec_is_digit(c),
{
    '0' <= c && c <= '9'
}

fn is_upper(c: char) -> (r: bool)
    ensures
        r == spec_is_upper(c),
{
    'A' <= c && c <= 'Z'
}

fn is_lower(c: char) -> (r: bool)
    ensures
        r == spec_is_lower(c),
{
    'a' <= c && c <= 'z'
}

/// Exec test for a lower-case letter, for callers outside this module.
pub fn is_lower_exec(c: char) -> (r: bool)
    ensures
        r == spec_is_lower(c),
{
    'a' <= c && c <= 'z'
}

/// Exec test for an upper-case letter, for callers outside this module.
pub fn is_upper_exec(c: char) -> (r: bool)
    ensures
        r == spec_is_upper(c),
{
    'A' <= c && c <= 'Z'
}

fn is_alnum(c: char) -> (r: bool)
    ensures
        r == spec_is_alnum(c),
{
    is_upper(c) || is_lower(c) || is_digit(c)
}

// ---------------------------------------------------------------------
// Suffix algebra.
// ---------------------------------------------------------------------

/// Skipping `a + b` characters is skipping `a`, then `b`.
pub proof fn lemma_skip_skip(s: Seq<char>, a: int, b: int)
    requires
        0 <= a,
        0 <= b,
        a + b <= s.len(),
    ensures
        s.skip(a).skip(b) == s.skip(a + b),
{
    assert(s.skip(a).skip(b) =~= s.skip(a + b));
}

// ---------------------------------------------------------------------
// Whitespace and comments.
// ---------------------------------------------------------------------

/// Remainder after whitespace and `--` line comments.
pub open spec fn spec_skip_ws(t: Seq<char>) -> Seq<char>
    decreases t.len(), 1int,
{
    if t.len() == 0 {
        t
    } else if spec_is_ws(t[0]) {
        spec_skip_ws(t.skip(1))
    } else if t.len() >= 2 && t[0] == '-' && t[1] == '-' {
        spec_skip_comment(t.skip(2))
    } else {
        t
    }
}

/// Remainder after the body of a `--` comment: everything up to and
/// including the next line break.
pub open spec fn spec_skip_comment(t: Seq<char>) -> Seq<char>
    decreases t.len(), 0int,
{
    if t.len() == 0 {
        t
    } else if t[0] == '\n' {
        spec_skip_ws(t.skip(1))
    } else {
        spec_skip_comment(t.skip(1))
    }
}

/// Advances past whitespace and comments; the twin of `spec_skip_ws`.
pub fn skip_ws(s: &Vec<char>, pos: usize) -> (r: usize)
    requires
        pos <= s@.len(),
    ensures
        pos <= r <= s@.len(),
        s@.skip(r as int) == spec_skip_ws(s@.skip(pos as int)),
    decreases s@.len() - pos, 1int,
{
    if pos < s.len() {
        let c = s[pos];
        if is_ws(c) {
            proof {
                lemma_skip_skip(s@, pos as int, 1);
            }
            skip_ws(s, pos + 1)
        } else if c == '-' && pos + 1 < s.len() && s[pos + 1] == '-' {
            proof {
                lemma_skip_skip(s@, pos as int, 2);
            }
            skip_comment(s, pos + 2)
        } else {
            pos
        }
    } else {
        pos
    }
}

/// Advances past a comment body; the twin of `spec_skip_comment`.
pub fn skip_comment(s: &Vec<char>, pos: usize) -> (r: usize)
    requires
        pos <= s@.len(),
    ensures
        pos <= r <= s@.len(),
        s@.skip(r as int) == spec_skip_comment(s@.skip(pos as int)),
    decreases s@.len() - pos, 0int,
{
    if pos < s.len() {
        proof {
            lemma_skip_skip(s@, pos as int, 1);
        }
        if s[pos] == '\n' {
            skip_ws(s, pos + 1)
        } else {
            skip_comment(s, pos + 1)
        }
    } else {
        pos
    }
}

// ---------------------------------------------------------------------
// Exact token matching.
// ---------------------------------------------------------------------

/// Remainder after an exact token, or `None` when the input does not
/// start with it.
pub open spec fn spec_expect(t: Seq<char>, tok: Seq<char>) -> Option<Seq<char>> {
    if tok.len() <= t.len() && t.take(tok.len() as int) == tok {
        Some(t.skip(tok.len() as int))
    } else {
        None
    }
}

/// Matches an exact token at `pos`; the twin of `spec_expect`.
pub fn expect(s: &Vec<char>, pos: usize, tok: &str) -> (r: Option<usize>)
    requires
        pos <= s@.len(),
    ensures
        match r {
            Some(p) => {
                &&& pos <= p <= s@.len()
                &&& spec_expect(s@.skip(pos as int), tok@) == Some(s@.skip(p as int))
            },
            None => spec_expect(s@.skip(pos as int), tok@) is None,
        },
{
    let tv = crate::text::chars_of(tok);
    if tv.len() > s.len() - pos {
        return None;
    }
    let mut i: usize = 0;
    while i < tv.len()
        invariant
            s@.len() <= usize::MAX,
            pos + tv@.len() <= s@.len(),
            i <= tv@.len(),
            tv@ == tok@,
            forall|j: int| 0 <= j < i ==> s@.skip(pos as int)[j] == tok@[j],
        decreases tv@.len() - i,
    {
        if s[pos + i] != tv[i] {
            proof {
                assert(s@.skip(pos as int)[i as int] != tok@[i as int]);
                assert(t_neq(s@.skip(pos as int), tok@, i as int));
            }
            return None;
        }
        i = i + 1;
    }
    proof {
        assert(s@.skip(pos as int).take(tok@.len() as int) =~= tok@);
        lemma_skip_skip(s@, pos as int, tok@.len() as int);
    }
    Some(pos + tv.len())
}

/// Helper fact: sequences differing at one index differ as prefixes.
spec fn t_neq(t: Seq<char>, tok: Seq<char>, i: int) -> bool {
    0 <= i < tok.len() && i < t.len() && t[i] != tok[i]
}

// ---------------------------------------------------------------------
// Identifiers.
// ---------------------------------------------------------------------

/// Length of the identifier tail starting at `t`: alphanumeric runs,
/// with single hyphens allowed between them (a double hyphen opens a
/// comment and never belongs to a name).
pub open spec fn spec_ident_len(t: Seq<char>) -> nat
    decreases t.len(),
{
    if t.len() == 0 {
        0
    } else if spec_is_alnum(t[0]) {
        1 + spec_ident_len(t.skip(1))
    } else if t[0] == '-' && t.len() >= 2 && spec_is_alnum(t[1]) {
        2 + spec_ident_len(t.skip(2))
    } else {
        0
    }
}

proof fn lemma_ident_len_bound(t: Seq<char>)
    ensures
        spec_ident_len(t) <= t.len(),
    decreases t.len(),
{
    if t.len() > 0 {
        if spec_is_alnum(t[0]) {
            lemma_ident_len_bound(t.skip(1));
        } else if t[0] == '-' && t.len() >= 2 && spec_is_alnum(t[1]) {
            lemma_ident_len_bound(t.skip(2));
        }
    }
}

/// An identifier: an alphabetic first character, then the tail above.
/// Returns the name and the remainder.
pub open spec fn spec_identifier(t: Seq<char>) -> Option<(Seq<char>, Seq<char>)> {
    if t.len() > 0 && spec_is_alpha(t[0]) {
        let n = 1 + spec_ident_len(t.skip(1));
        Some((t.take(n as int), t.skip(n as int)))
    } else {
        None
    }
}

/// Measures the identifier tail; the twin of `spec_ident_len`.
fn ident_len(s: &Vec<char>, pos: usize) -> (r: usize)
    requires
        pos <= s@.len(),
    ensures
        pos + r <= s@.len(),
        r == spec_ident_len(s@.skip(pos as int)),
    decreases s@.len() - pos,
{
    proof {
        lemma_ident_len_bound(s@.skip(pos as int));
    }
    if pos < s.len() && is_alnum(s[pos]) {
        proof {
            lemma_skip_skip(s@, pos as int, 1);
        }
        1 + ident_len(s, pos + 1)
    } else if pos < s.len() && s[pos] == '-' && pos + 1 < s.len() && is_alnum(s[pos + 1]) {
        proof {
            lemma_skip_skip(s@, pos as int, 2);
            assert(s@.skip(pos as int)[1] == s@[pos + 1]);
        }
        2 + ident_len(s, pos + 2)
    } else {
        0
    }
}

/// Parses an identifier at `pos`; the twin of `spec_identifier`.
/// On success returns the name and the position after it.
pub fn identifier(s: &Vec<char>, pos: usize) -> (r: Option<(String, usize)>)
    requires
        pos <= s@.len(),
    ensures
        match r {
            Some((name, p)) => {
                &&& pos < p <= s@.len()
                &&& spec_identifier(s@.skip(pos as int)) == Some(
                    (name@, s@.skip(p as int)),
                )
            },
            None => spec_identifier(s@.skip(pos as int)) is None,
        },
{
    if pos < s.len() && (is_upper(s[pos]) || is_lower(s[pos])) {
        proof {
            lemma_skip_skip(s@, pos as int, 1);
        }
        let tail = ident_len(s, pos + 1);
        let n = 1 + tail;
        let mut name: Vec<char> = Vec::new();
        let mut i: usize = 0;
        while i < n
            invariant
                s@.len() <= usize::MAX,
                pos + n <= s@.len(),
                i <= n,
                name@ == s@.skip(pos as int).take(n as int).take(i as int),
            decreases n - i,
        {
            name.push(s[pos + i]);
            proof {
                let t = s@.skip(pos as int).take(n as int);
                assert(t.take(i + 1) =~= t.take(i as int).push(t[i as int]));
            }
            i = i + 1;
        }
        proof {
            let t = s@.skip(pos as int).take(n as int);
            assert(t.take(n as int) =~= t);
            lemma_skip_skip(s@, pos as int, n as int);
        }
        Some((crate::text::string_of(&name), pos + n))
    } else {
        None
    }
}

// ---------------------------------------------------------------------
// Integer literals.
// ---------------------------------------------------------------------

/// Number of leading decimal digits.
pub open spec fn spec_digit_count(t: Seq<char>) -> nat
    decreases t.len(),
{
    if t.len() > 0 && spec_is_digit(t[0]) {
        1 + spec_digit_count(t.skip(1))
    } else {
        0
    }
}

proof fn lemma_digit_count_bound(t: Seq<char>)
    ensures
        spec_digit_count(t) <= t.len(),
    decreases t.len(),
{
    if t.len() > 0 && spec_is_digit(t[0]) {
        lemma_digit_count_bound(t.skip(1));
    }
}

/// Value of a digit string, most significant first.
pub open spec fn spec_digits_value(ds: Seq<char>) -> int
    decreases ds.len(),
{
    if ds.len() == 0 {
        0
    } else {
        spec_digits_value(ds.take(ds.len() - 1)) * 10 + (ds[ds.len() - 1] as int - '0' as int)
    }
}

/// An integer literal: an optional minus sign and one to eighteen
/// digits (larger literals are outside the supported subset).
pub open spec fn spec_integer(t: Seq<char>) -> Option<(i128, Seq<char>)> {
    if t.len() > 0 && t[0] == '-' {
        let d = spec_digit_count(t.skip(1));
        if 1 <= d <= 18 {
            Some((
                (0 - spec_digits_value(t.skip(1).take(d as int))) as i128,
                t.skip(1 + d as int),
            ))
        } else {
            None
        }
    } else {
        let d = spec_digit_count(t);
        if 1 <= d <= 18 {
            Some((spec_digits_value(t.take(d as int)) as i128, t.skip(d as int)))
        } else {
            None
        }
    }
}

/// Counts leading digits; the twin of `spec_digit_count`.
fn digit_count(s: &Vec<char>, pos: usize) -> (r: usize)
    requires
        pos <= s@.len(),
    ensures
        pos + r <= s@.len(),
        r == spec_digit_count(s@.skip(pos as int)),
    decreases s@.len() - pos,
{
    proof {
        lemma_digit_count_bound(s@.skip(pos as int));
    }
    if pos < s.len() && is_digit(s[pos]) {
        proof {
            lemma_skip_skip(s@, pos as int, 1);
        }
        1 + digit_count(s, pos + 1)
    } else {
        0
    }
}

/// The value of the digit run `s[pos .. pos + d]` is bounded by
/// `10^d`, shown here for the lengths the parser admits.
proof fn lemma_digits_value_bound(ds: Seq<char>)
    requires
        forall|j: int| 0 <= j < ds.len() ==> spec_is_digit(#[trigger] ds[j]),
    ensures
        0 <= spec_digits_value(ds),
        spec_digits_value(ds) < vstd::arithmetic::power::pow(10, ds.len() as nat),
    decreases ds.len(),
{
    vstd::arithmetic::power::lemma_pow_positive(10, ds.len() as nat);
    if ds.len() > 0 {
        lemma_digits_value_bound(ds.take(ds.len() - 1));
        vstd::arithmetic::power::lemma_pow_adds(10, (ds.len() - 1) as nat, 1);
        vstd::arithmetic::power::lemma_pow1(10);
    }
}

/// Parses an integer literal; the twin of `spec_integer`.
pub fn integer(s: &Vec<char>, pos: usize) -> (r: Option<(i128, usize)>)
    requires
        pos <= s@.len(),
    ensures
        match r {
            Some((v, p)) => {
                &&& pos < p <= s@.len()
                &&& spec_integer(s@.skip(pos as int)) == Some((v, s@.skip(p as int)))
            },
            None => spec_integer(s@.skip(pos as int)) is None,
        },
{
    let neg = pos < s.len() && s[pos] == '-';
    let dpos = if neg { pos + 1 } else { pos };
    proof {
        if neg {
            lemma_skip_skip(s@, pos as int, 1);
        }
    }
    let d = digit_count(s, dpos);
    if d < 1 || d > 18 {
        return None;
    }
    let ghost ds = s@.skip(dpos as int).take(d as int);
    proof {
        lemma_digit_run(s@.skip(dpos as int), d as nat);
    }
    let mut acc: i128 = 0;
    let mut i: usize = 0;
    proof {
        vstd::arithmetic::power::lemma_pow0(10);
        assert(ds.take(0) =~= Seq::<char>::empty());
    }
    while i < d
        invariant
            s@.len() <= usize::MAX,
            pos <= dpos,
            dpos + d <= s@.len(),
            i <= d,
            d <= 18,
            ds == s@.skip(dpos as int).take(d as int),
            forall|j: int| 0 <= j < d ==> spec_is_digit(#[trigger] ds[j]),
            acc == spec_digits_value(ds.take(i as int)),
            0 <= acc < vstd::arithmetic::power::pow(10, i as nat),
        decreases d - i,
    {
        proof {
            assert(ds.take(i + 1).take(i as int) =~= ds.take(i as int));
            assert(ds[i as int] == s@[dpos + i]);
            lemma_digits_value_bound(ds.take(i as int));
            vstd::arithmetic::power::lemma_pow_adds(10, i as nat, 1);
            vstd::arithmetic::power::lemma_pow1(10);
            assert(vstd::arithmetic::power::pow(10, 18) == 1000000000000000000) by {
                reveal_with_fuel(vstd::arithmetic::power::pow, 19);
            }
            vstd::arithmetic::power::lemma_pow_increases(10, (i + 1) as nat, 18);
        }
        let c = s[dpos + i];
        acc = acc * 10 + ((c as u8) - ('0' as u8)) as i128;
        i = i + 1;
    }
    proof {
        assert(ds.take(d as int) =~= ds);
        lemma_skip_skip(s@, dpos as int, d as int);
    }
    if neg {
        Some((0 - acc, dpos + d))
    } else {
        Some((acc, dpos + d))
    }
}

/// Within a counted digit run, every character is a digit.
proof fn lemma_digit_run(t: Seq<char>, d: nat)
    requires
        d == spec_digit_count(t),
    ensures
        d <= t.len(),
        forall|j: int| 0 <= j < d ==> spec_is_digit(#[trigger] t.take(d as int)[j]),
    decreases t.len(),
{
    lemma_digit_count_bound(t);
    if t.len() > 0 && spec_is_digit(t[0]) {
        lemma_digit_run(t.skip(1), (d - 1) as nat);
        assert forall|j: int| 0 <= j < d implies spec_is_digit(#[trigger] t.take(d as int)[j]) by {
            if j > 0 {
                assert(t.take(d as int)[j] == t.skip(1).take(d - 1)[j - 1]);
            }
        }
    }
}

} // verus!
