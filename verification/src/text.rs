//! Character-level plumbing shared by the parser and the generator:
//! turning `&str` input into an indexable character vector, and turning
//! the generated character sequence back into a `String`.

use vstd::prelude::*;

verus! {

/// Relies on `str::chars`: the iterator yields exactly the characters
/// of the slice, in order, which is also how Verus views a `&str`.
#[verifier::external_body]
pub fn chars_of(s: &str) -> (r: Vec<char>)
    ensures
        r@ == s@,
{
    s.chars().collect()
}

/// Relies on `String`'s `FromIterator<char>` implementation: collecting
/// an iterator of characters yields the string of exactly those
/// characters, in order.
#[verifier::external_body]
pub fn string_of(v: &Vec<char>) -> (r: String)
    ensures
        r@ == v@,
{
    v.iter().collect()
}

/// Appends `suffix` to `out`.
pub fn push_chars(out: &mut Vec<char>, suffix: &Vec<char>)
    ensures
        final(out)@ == old(out)@ + suffix@,
{
    let mut i: usize = 0;
    while i < suffix.len()
        invariant
            i <= suffix@.len(),
            out@ == old(out)@ + suffix@.take(i as int),
        decreases suffix@.len() - i,
    {
        out.push(suffix[i]);
        proof {
            assert(suffix@.take(i + 1) =~= suffix@.take(i as int).push(suffix@[i as int]));
        }
        i = i + 1;
    }
    proof {
        assert(suffix@.take(suffix@.len() as int) =~= suffix@);
    }
}

/// Appends the characters of a string literal to `out`.
pub fn push_str_chars(out: &mut Vec<char>, s: &str)
    ensures
        final(out)@ == old(out)@ + s@,
{
    let v = chars_of(s);
    push_chars(out, &v);
}

} // verus!
