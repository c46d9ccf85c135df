//! The backend code generator: walks the fully resolved assignment
//! list and emits one Rust declaration per type assignment and one
//! constant per value assignment, annotated with the codec metadata the
//! paired runtime consumes.  Declarations are emitted lexically by
//! name, so the output does not depend on source order.
//!
//! Every emission function is proved equal to a specification twin
//! over character sequences; generated text is therefore a function of
//! the resolved assignments alone.

use vstd::prelude::*;

use crate::intermediate::ASN1Type;
use crate::intermediate::ASN1TypeV;
use crate::intermediate::ASN1Value;
use crate::intermediate::ASN1ValueV;
use crate::intermediate::Assignment;
use crate::intermediate::AssignmentV;
use crate::intermediate::CharacterStringKind;
use crate::intermediate::ConstraintV;
use crate::intermediate::Constraint;
use crate::intermediate::ElementOrSetOperationV;
use crate::intermediate::SequenceOrSetMemberV;
use crate::intermediate::SubtypeElementV;
use crate::intermediate::TaggingMode;
use crate::text::push_str_chars;
use crate::text::push_chars;

verus! {

broadcast use
    vstd::std_specs::vec::axiom_vec_index_decreases,
    vstd::std_specs::vec::axiom_vec_decreases_to_view,
    vstd::seq::axiom_seq_index_decreases;

// ---------------------------------------------------------------------
// Characters and numbers.
// ---------------------------------------------------------------------

/// Upper-case image of an ASCII letter; other characters unchanged.
pub open spec fn spec_upper_char(c: char) -> char {
    if 'a' <= c && c <= 'z' {
        (c as u8 - 32) as char
    } else {
        c
    }
}

/// Lower-case image of an ASCII letter; other characters unchanged.
pub open spec fn spec_lower_char(c: char) -> char {
    if 'A' <= c && c <= 'Z' {
        (c as u8 + 32) as char
    } else {
        c
    }
}

fn upper_char(c: char) -> (r: char)
    ensures
        r == spec_upper_char(c),
{
    if 'a' <= c && c <= 'z' {
        (c as u8 - 32) as char
    } else {
        c
    }
}

fn lower_char(c: char) -> (r: char)
    ensures
        r == spec_lower_char(c),
{
    if 'A' <= c && c <= 'Z' {
        (c as u8 + 32) as char
    } else {
        c
    }
}

/// Decimal digits of a non-negative number, most significant first.
pub open spec fn spec_digits(n: nat) -> Seq<char>
    decreases n,
{
    if n < 10 {
        seq![(('0' as u8) + n as u8) as char]
    } else {
        spec_digits(n / 10) + seq![(('0' as u8) + (n % 10) as u8) as char]
    }
}

/// Decimal image of an integer.
pub open spec fn spec_int_chars(n: int) -> Seq<char> {
    if n < 0 {
        seq!['-'] + spec_digits((-n) as nat)
    } else {
        spec_digits(n as nat)
    }
}

/// Writes the decimal digits of `n`; the twin of `spec_digits`.
fn push_digits(out: &mut Vec<char>, n: i128)
    requires
        n >= 0,
    ensures
        final(out)@ == old(out)@ + spec_digits(n as nat),
    decreases n,
{
    if n < 10 {
        out.push(('0' as u8 + (n % 10) as u8) as char);
    } else {
        push_digits(out, n / 10);
        out.push(('0' as u8 + (n % 10) as u8) as char);
    }
}

/// Writes the decimal image of `n`; the twin of `spec_int_chars`.
pub fn push_int(out: &mut Vec<char>, n: i128)
    requires
        n > i128::MIN,
    ensures
        final(out)@ == old(out)@ + spec_int_chars(n as int),
{
    if n < 0 {
        out.push('-');
        push_digits(out, -n);
        proof {
            assert(old(out)@ + (seq!['-'] + spec_digits((-n) as nat)) =~= old(out)@.push('-')
                + spec_digits((-n) as nat));
        }
    } else {
        push_digits(out, n);
    }
}

// ---------------------------------------------------------------------
// Name conversions.
// ---------------------------------------------------------------------

/// Pascal-case image of a notation name: hyphens dropped, each part's
/// first letter upper-cased.
pub open spec fn spec_pascal(t: Seq<char>, i: int, cap: bool) -> Seq<char>
    decreases t.len() - i,
{
    if i < 0 || i >= t.len() {
        Seq::empty()
    } else if t[i] == '-' {
        spec_pascal(t, i + 1, true)
    } else if cap {
        seq![spec_upper_char(t[i])] + spec_pascal(t, i + 1, false)
    } else {
        seq![t[i]] + spec_pascal(t, i + 1, false)
    }
}

/// Snake-case image: an underscore before each interior upper-case
/// letter, all letters lower-cased, hyphens becoming underscores.
pub open spec fn spec_snake(t: Seq<char>, i: int) -> Seq<char>
    decreases t.len() - i,
{
    if i < 0 || i >= t.len() {
        Seq::empty()
    } else if t[i] == '-' {
        seq!['_'] + spec_snake(t, i + 1)
    } else if 'A' <= t[i] && t[i] <= 'Z' && i > 0 && t[i - 1] != '-' {
        seq!['_', spec_lower_char(t[i])] + spec_snake(t, i + 1)
    } else {
        seq![spec_lower_char(t[i])] + spec_snake(t, i + 1)
    }
}

/// Upper-snake image for constant names.
pub open spec fn spec_screaming(t: Seq<char>, i: int) -> Seq<char>
    decreases t.len() - i,
{
    if i < 0 || i >= t.len() {
        Seq::empty()
    } else if t[i] == '-' {
        seq!['_'] + spec_screaming(t, i + 1)
    } else {
        seq![spec_upper_char(t[i])] + spec_screaming(t, i + 1)
    }
}

/// Writes the pascal-case image; the twin of `spec_pascal`.
pub fn push_pascal(out: &mut Vec<char>, name: &String)
    ensures
        final(out)@ == old(out)@ + spec_pascal(name@, 0, true),
{
    let v = crate::text::chars_of(name.as_str());
    let mut i: usize = 0;
    let mut cap: bool = true;
    while i < v.len()
        invariant
            i <= v@.len(),
            v@ == name@,
            old(out)@ + spec_pascal(name@, 0, true) == out@ + spec_pascal(
                name@,
                i as int,
                cap,
            ),
        decreases v@.len() - i,
    {
        let c = v[i];
        if c == '-' {
            cap = true;
        } else if cap {
            out.push(upper_char(c));
            cap = false;
            proof {
                assert(out@ + spec_pascal(name@, i + 1, false) =~= old(out)@ + spec_pascal(
                    name@,
                    0,
                    true,
                ));
            }
        } else {
            out.push(c);
            proof {
                assert(out@ + spec_pascal(name@, i + 1, false) =~= old(out)@ + spec_pascal(
                    name@,
                    0,
                    true,
                ));
            }
        }
        i = i + 1;
    }
    proof {
        assert(out@ + Seq::<char>::empty() =~= out@);
    }
}

/// Writes the snake-case image; the twin of `spec_snake`.
pub fn push_snake(out: &mut Vec<char>, name: &String)
    ensures
        final(out)@ == old(out)@ + spec_snake(name@, 0),
{
    let v = crate::text::chars_of(name.as_str());
    let mut i: usize = 0;
    while i < v.len()
        invariant
            i <= v@.len(),
            v@ == name@,
            old(out)@ + spec_snake(name@, 0) == out@ + spec_snake(name@, i as int),
        decreases v@.len() - i,
    {
        let c = v[i];
        if c == '-' {
            out.push('_');
        } else if 'A' <= c && c <= 'Z' && i > 0 && v[i - 1] != '-' {
            out.push('_');
            out.push(lower_char(c));
        } else {
            out.push(lower_char(c));
        }
        proof {
            assert(out@ + spec_snake(name@, i + 1) =~= old(out)@ + spec_snake(name@, 0));
        }
        i = i + 1;
    }
    proof {
        assert(out@ + Seq::<char>::empty() =~= out@);
    }
}

/// Writes the upper-snake image; the twin of `spec_screaming`.
pub fn push_screaming(out: &mut Vec<char>, name: &String)
    ensures
        final(out)@ == old(out)@ + spec_screaming(name@, 0),
{
    let v = crate::text::chars_of(name.as_str());
    let mut i: usize = 0;
    while i < v.len()
        invariant
            i <= v@.len(),
            v@ == name@,
            old(out)@ + spec_screaming(name@, 0) == out@ + spec_screaming(name@, i as int),
        decreases v@.len() - i,
    {
        let c = v[i];
        if c == '-' {
            out.push('_');
        } else {
            out.push(upper_char(c));
        }
        proof {
            assert(out@ + spec_screaming(name@, i + 1) =~= old(out)@ + spec_screaming(
                name@,
                0,
            ));
        }
        i = i + 1;
    }
    proof {
        assert(out@ + Seq::<char>::empty() =~= out@);
    }
}

// ---------------------------------------------------------------------
// Constraint metadata.
// ---------------------------------------------------------------------

/// The first closed or half-open value range among the constraints:
/// low bound, high bound and its extensibility marker.  A single value
/// stands for the range holding only itself.
pub open spec fn spec_first_range(cs: Seq<ConstraintV>) -> Option<
    (Option<i128>, Option<i128>, bool),
>
    decreases cs.len(),
{
    if cs.len() == 0 {
        None
    } else {
        match cs[0] {
            ConstraintV::SubtypeConstraint(es) => match es.set {
                ElementOrSetOperationV::Element(el) => match el {
                    SubtypeElementV::ValueRange { min, max, extensible } => {
                        let lo = match min {
                            Some(ASN1ValueV::Integer(a)) => Some(a),
                            _ => None,
                        };
                        let hi = match max {
                            Some(ASN1ValueV::Integer(b)) => Some(b),
                            _ => None,
                        };
                        Some((lo, hi, extensible))
                    },
                    SubtypeElementV::SingleValue { value, extensible } => match value {
                        ASN1ValueV::Integer(a) => Some((Some(a), Some(a), extensible)),
                        _ => spec_first_range(cs.skip(1)),
                    },
                    _ => spec_first_range(cs.skip(1)),
                },
                _ => spec_first_range(cs.skip(1)),
            },
            _ => spec_first_range(cs.skip(1)),
        }
    }
}

/// The first size constraint among the constraints, as a range over
/// lengths.
pub open spec fn spec_first_size(cs: Seq<ConstraintV>) -> Option<
    (Option<i128>, Option<i128>, bool),
>
    decreases cs.len(),
{
    if cs.len() == 0 {
        None
    } else {
        match cs[0] {
            ConstraintV::SubtypeConstraint(es) => match es.set {
                ElementOrSetOperationV::Element(el) => match el {
                    SubtypeElementV::SizeConstraint(inner) => {
                        if inner.len() == 1 {
                            match inner[0] {
                                ElementOrSetOperationV::Element(iel) => match iel {
                                    SubtypeElementV::ValueRange { min, max, extensible } => {
                                        let lo = match min {
                                            Some(ASN1ValueV::Integer(a)) => Some(a),
                                            _ => None,
                                        };
                                        let hi = match max {
                                            Some(ASN1ValueV::Integer(b)) => Some(b),
                                            _ => None,
                                        };
                                        Some((lo, hi, extensible))
                                    },
                                    SubtypeElementV::SingleValue { value, extensible } => {
                                        match value {
                                            ASN1ValueV::Integer(a) => Some(
                                                (Some(a), Some(a), extensible),
                                            ),
                                            _ => spec_first_size(cs.skip(1)),
                                        }
                                    },
                                    _ => spec_first_size(cs.skip(1)),
                                },
                                _ => spec_first_size(cs.skip(1)),
                            }
                        } else {
                            spec_first_size(cs.skip(1))
                        }
                    },
                    _ => spec_first_size(cs.skip(1)),
                },
                _ => spec_first_size(cs.skip(1)),
            },
            _ => spec_first_size(cs.skip(1)),
        }
    }
}

/// Finds the first value range; the twin of `spec_first_range`.
#[verifier::rlimit(60)]
pub fn first_range(cs: &Vec<Constraint>, i: usize) -> (r: Option<
    (Option<i128>, Option<i128>, bool),
>)
    requires
        i <= cs@.len(),
    ensures
        r == spec_first_range(cs.deep_view().skip(i as int)),
    decreases cs@.len() - i,
{
    proof {
        if i < cs@.len() {
            assert(cs.deep_view().skip(i as int)[0] == cs.deep_view()[i as int]);
            assert(cs.deep_view().skip(i as int).skip(1) =~= cs.deep_view().skip(i + 1));
        } else {
            assert(cs.deep_view().skip(i as int) =~= Seq::<ConstraintV>::empty());
        }
    }
    if i >= cs.len() {
        return None;
    }
    proof {
        assert(cs.deep_view()[i as int] == cs@[i as int].deep_view());
    }
    match &cs[i] {
        Constraint::SubtypeConstraint(es) => match &es.set {
            crate::intermediate::ElementOrSetOperation::Element(el) => match el {
                crate::intermediate::SubtypeElement::ValueRange { min, max, extensible } => {
                    let lo: Option<i128> = match min {
                        Some(ASN1Value::Integer(a)) => Some(*a),
                        _ => None,
                    };
                    let hi: Option<i128> = match max {
                        Some(ASN1Value::Integer(b)) => Some(*b),
                        _ => None,
                    };
                    proof {
                        let t = cs.deep_view().skip(i as int);
                        assert(t.len() > 0);
                        assert(t[0] == cs@[i as int].deep_view());
                        assert(cs@[i as int].deep_view() == ConstraintV::SubtypeConstraint(
                            es.deep_view(),
                        ));
                        assert(es.deep_view().set == es.set.deep_view());
                        assert(es.set.deep_view() == ElementOrSetOperationV::Element(
                            el.deep_view(),
                        ));
                        assert(el.deep_view() matches SubtypeElementV::ValueRange {
                            min: m2,
                            max: x2,
                            extensible: e2,
                        } && e2 == *extensible);
                        assert(spec_first_range(t) == Some((lo, hi, *extensible)));
                    }
                    Some((lo, hi, *extensible))
                },
                crate::intermediate::SubtypeElement::SingleValue { value, extensible } => {
                    match value {
                        ASN1Value::Integer(a) => {
                            proof {
                                assert(spec_first_range(cs.deep_view().skip(i as int)) == Some(
                                    (Some(*a), Some(*a), *extensible),
                                ));
                            }
                            Some((Some(*a), Some(*a), *extensible))
                        },
                        _ => {
                            proof {
                                assert(spec_first_range(cs.deep_view().skip(i as int))
                                    == spec_first_range(cs.deep_view().skip(i + 1)));
                            }
                            first_range(cs, i + 1)
                        },
                    }
                },
                _ => {
                    proof {
                        assert(spec_first_range(cs.deep_view().skip(i as int))
                            == spec_first_range(cs.deep_view().skip(i + 1)));
                    }
                    first_range(cs, i + 1)
                },
            },
            _ => {
                proof {
                    assert(spec_first_range(cs.deep_view().skip(i as int))
                        == spec_first_range(cs.deep_view().skip(i + 1)));
                }
                first_range(cs, i + 1)
            },
        },
        _ => {
            proof {
                assert(spec_first_range(cs.deep_view().skip(i as int))
                    == spec_first_range(cs.deep_view().skip(i + 1)));
            }
            first_range(cs, i + 1)
        },
    }
}

/// Finds the first size constraint; the twin of `spec_first_size`.
#[verifier::rlimit(60)]
pub fn first_size(cs: &Vec<Constraint>, i: usize) -> (r: Option<
    (Option<i128>, Option<i128>, bool),
>)
    requires
        i <= cs@.len(),
    ensures
        r == spec_first_size(cs.deep_view().skip(i as int)),
    decreases cs@.len() - i,
{
    proof {
        if i < cs@.len() {
            assert(cs.deep_view().skip(i as int)[0] == cs.deep_view()[i as int]);
            assert(cs.deep_view().skip(i as int).skip(1) =~= cs.deep_view().skip(i + 1));
        } else {
            assert(cs.deep_view().skip(i as int) =~= Seq::<ConstraintV>::empty());
        }
    }
    if i >= cs.len() {
        return None;
    }
    proof {
        assert(cs.deep_view()[i as int] == cs@[i as int].deep_view());
    }
    match &cs[i] {
        Constraint::SubtypeConstraint(es) => match &es.set {
            crate::intermediate::ElementOrSetOperation::Element(el) => match el {
                crate::intermediate::SubtypeElement::SizeConstraint(inner) => {
                    proof {
                        let t = cs.deep_view().skip(i as int);
                        assert(t[0] == cs@[i as int].deep_view());
                        assert(cs@[i as int].deep_view() == ConstraintV::SubtypeConstraint(
                            es.deep_view(),
                        ));
                        assert(es.deep_view().set == es.set.deep_view());
                        assert(es.set.deep_view() == ElementOrSetOperationV::Element(
                            el.deep_view(),
                        ));
                        assert(el.deep_view() == SubtypeElementV::SizeConstraint(
                            seq![(**inner).deep_view()],
                        ));
                        assert(seq![(**inner).deep_view()].len() == 1);
                        assert(seq![(**inner).deep_view()][0] == (**inner).deep_view());
                    }
                    match &**inner {
                        crate::intermediate::ElementOrSetOperation::Element(iel) => {
                            proof {
                                assert((**inner).deep_view() == ElementOrSetOperationV::Element(
                                    iel.deep_view(),
                                ));
                            }
                            match iel {
                                crate::intermediate::SubtypeElement::ValueRange {
                                    min,
                                    max,
                                    extensible,
                                } => {
                                    let lo: Option<i128> = match min {
                                        Some(ASN1Value::Integer(a)) => Some(*a),
                                        _ => None,
                                    };
                                    let hi: Option<i128> = match max {
                                        Some(ASN1Value::Integer(b)) => Some(*b),
                                        _ => None,
                                    };
                                    Some((lo, hi, *extensible))
                                },
                                crate::intermediate::SubtypeElement::SingleValue {
                                    value,
                                    extensible,
                                } => match value {
                                    ASN1Value::Integer(a) => Some(
                                        (Some(*a), Some(*a), *extensible),
                                    ),
                                    _ => first_size(cs, i + 1),
                                },
                                _ => first_size(cs, i + 1),
                            }
                        },
                        _ => first_size(cs, i + 1),
                    }
                },
                _ => first_size(cs, i + 1),
            },
            _ => first_size(cs, i + 1),
        },
        _ => first_size(cs, i + 1),
    }
}

/// The smallest sufficient Rust integer representation for a closed
/// range, or the arbitrary-precision `Integer` otherwise.
pub open spec fn spec_int_repr(r: Option<(Option<i128>, Option<i128>, bool)>) -> Seq<char> {
    match r {
        Some((Some(lo), Some(hi), _)) => {
            if lo >= 0 {
                if hi <= 255 {
                    "u8"@
                } else if hi <= 65535 {
                    "u16"@
                } else if hi <= 4294967295 {
                    "u32"@
                } else if hi <= 18446744073709551615 {
                    "u64"@
                } else {
                    "Integer"@
                }
            } else {
                if -128 <= lo && hi <= 127 {
                    "i8"@
                } else if -32768 <= lo && hi <= 32767 {
                    "i16"@
                } else if -2147483648 <= lo && hi <= 2147483647 {
                    "i32"@
                } else if -9223372036854775808 <= lo && hi <= 9223372036854775807 {
                    "i64"@
                } else {
                    "Integer"@
                }
            }
        },
        _ => "Integer"@,
    }
}

/// Picks the integer representation; the twin of `spec_int_repr`.
pub fn int_repr(r: Option<(Option<i128>, Option<i128>, bool)>) -> (s: &'static str)
    ensures
        s@ == spec_int_repr(r),
{
    match r {
        Some((Some(lo), Some(hi), _)) => {
            if lo >= 0 {
                if hi <= 255 {
                    "u8"
                } else if hi <= 65535 {
                    "u16"
                } else if hi <= 4294967295 {
                    "u32"
                } else if hi <= 18446744073709551615 {
                    "u64"
                } else {
                    "Integer"
                }
            } else {
                if -128 <= lo && hi <= 127 {
                    "i8"
                } else if -32768 <= lo && hi <= 32767 {
                    "i16"
                } else if -2147483648 <= lo && hi <= 2147483647 {
                    "i32"
                } else if -9223372036854775808 <= lo && hi <= 9223372036854775807 {
                    "i64"
                } else {
                    "Integer"
                }
            }
        },
        _ => "Integer",
    }
}

/// The `value("lo..=hi")` (or `size(...)`) attribute fragment for a
/// resolved range; an extensible range is flagged distinctly, and an
/// open or absent range contributes nothing.
pub open spec fn spec_range_attr(
    kw: Seq<char>,
    r: Option<(Option<i128>, Option<i128>, bool)>,
) -> Seq<char> {
    match r {
        Some((Some(lo), Some(hi), ext)) => {
            if lo == i128::MIN || hi == i128::MIN {
                Seq::empty()
            } else {
                let body = ", "@ + kw + "(\""@ + spec_int_chars(lo as int) + "..="@
                    + spec_int_chars(hi as int) + "\""@;
                if ext {
                    body + ", extensible)"@
                } else {
                    body + ")"@
                }
            }
        },
        _ => Seq::empty(),
    }
}

/// Writes a range attribute fragment; the twin of `spec_range_attr`.
pub fn push_range_attr(
    out: &mut Vec<char>,
    kw: &str,
    r: Option<(Option<i128>, Option<i128>, bool)>,
)
    ensures
        final(out)@ == old(out)@ + spec_range_attr(kw@, r),
{
    match r {
        Some((Some(lo), Some(hi), ext)) => {
            if lo == i128::MIN || hi == i128::MIN {
                proof {
                    assert(out@ =~= old(out)@ + spec_range_attr(kw@, r));
                }
                return;
            }
            push_str_chars(out, ", ");
            push_str_chars(out, kw);
            push_str_chars(out, "(\"");
            push_int(out, lo);
            push_str_chars(out, "..=");
            push_int(out, hi);
            push_str_chars(out, "\"");
            if ext {
                push_str_chars(out, ", extensible)");
            } else {
                push_str_chars(out, ")");
            }
            proof {
                assert(out@ =~= old(out)@ + spec_range_attr(kw@, r));
            }
        },
        _ => {
            proof {
                assert(out@ =~= old(out)@ + spec_range_attr(kw@, r));
            }
        },
    }
}


// ---------------------------------------------------------------------
// Type representations and value wrapping.
// ---------------------------------------------------------------------

/// The Rust type a resolved type compiles to when it appears as a
/// field or element.
pub open spec fn spec_type_repr(tv: ASN1TypeV) -> Seq<char>
    decreases tv,
{
    match tv {
        ASN1TypeV::Boolean(_) => "bool"@,
        ASN1TypeV::Integer(i) => spec_int_repr(spec_first_range(i.constraints)),
        ASN1TypeV::CharacterString(c) => match c.kind {
            CharacterStringKind::BMPString => "BmpString"@,
            CharacterStringKind::UTF8String => "Utf8String"@,
            CharacterStringKind::IA5String => "Ia5String"@,
            CharacterStringKind::PrintableString => "PrintableString"@,
        },
        ASN1TypeV::ElsewhereDeclaredType(d) => spec_pascal(d.identifier, 0, true),
        ASN1TypeV::SequenceOf(so) => {
            if so.element_type.len() == 1 {
                "SequenceOf<"@ + spec_type_repr(so.element_type[0]) + ">"@
            } else {
                "SequenceOf<Any>"@
            }
        },
        ASN1TypeV::SetOf(so) => {
            if so.element_type.len() == 1 {
                "SequenceOf<"@ + spec_type_repr(so.element_type[0]) + ">"@
            } else {
                "SequenceOf<Any>"@
            }
        },
        _ => "Any"@,
    }
}

/// Writes a type representation; the twin of `spec_type_repr`.
pub fn push_type_repr(out: &mut Vec<char>, ty: &ASN1Type)
    ensures
        final(out)@ == old(out)@ + spec_type_repr(ty.deep_view()),
    decreases ty,
{
    match ty {
        ASN1Type::Boolean(_) => push_str_chars(out, "bool"),
        ASN1Type::Integer(i) => {
            proof {
                assert(i.constraints.deep_view().skip(0) =~= i.constraints.deep_view());
            }
            let r = first_range(&i.constraints, 0);
            push_str_chars(out, int_repr(r));
        },
        ASN1Type::CharacterString(c) => match c.kind {
            CharacterStringKind::BMPString => push_str_chars(out, "BmpString"),
            CharacterStringKind::UTF8String => push_str_chars(out, "Utf8String"),
            CharacterStringKind::IA5String => push_str_chars(out, "Ia5String"),
            CharacterStringKind::PrintableString => push_str_chars(out, "PrintableString"),
        },
        ASN1Type::ElsewhereDeclaredType(d) => push_pascal(out, &d.identifier),
        ASN1Type::SequenceOf(so) => {
            push_str_chars(out, "SequenceOf<");
            push_type_repr(out, &so.element_type);
            push_str_chars(out, ">");
            proof {
                assert(out@ =~= old(out)@ + spec_type_repr(ty.deep_view()));
            }
        },
        ASN1Type::SetOf(so) => {
            push_str_chars(out, "SequenceOf<");
            push_type_repr(out, &so.element_type);
            push_str_chars(out, ">");
            proof {
                assert(out@ =~= old(out)@ + spec_type_repr(ty.deep_view()));
            }
        },
        _ => push_str_chars(out, "Any"),
    }
}

/// A literal in generated text, by the shape of the resolved value.
pub open spec fn spec_literal_text(v: ASN1ValueV) -> Seq<char> {
    match v {
        ASN1ValueV::Boolean(b) => if b {
            "true"@
        } else {
            "false"@
        },
        ASN1ValueV::Integer(n) => if n == i128::MIN {
            "Integer::MIN"@
        } else {
            spec_int_chars(n as int)
        },
        ASN1ValueV::StringValue(body) => "\""@ + body + "\".try_into().unwrap()"@,
        _ => "Default::default()"@,
    }
}

/// Writes a literal; the twin of `spec_literal_text`.
pub fn push_literal(out: &mut Vec<char>, v: &ASN1Value)
    ensures
        final(out)@ == old(out)@ + spec_literal_text(v.deep_view()),
{
    match v {
        ASN1Value::Boolean(b) => {
            if *b {
                push_str_chars(out, "true");
            } else {
                push_str_chars(out, "false");
            }
        },
        ASN1Value::Integer(n) => {
            if *n == i128::MIN {
                push_str_chars(out, "Integer::MIN");
            } else {
                push_int(out, *n);
            }
        },
        ASN1Value::StringValue(body) => {
            push_str_chars(out, "\"");
            let bv = crate::text::chars_of(body.as_str());
            push_chars(out, &bv);
            push_str_chars(out, "\".try_into().unwrap()");
            proof {
                assert(out@ =~= old(out)@ + spec_literal_text(v.deep_view()));
            }
        },
        _ => push_str_chars(out, "Default::default()"),
    }
}

/// A compiled value wrapped through its delegation chain: one wrapper
/// constructor per named link, the ground literal innermost.
pub open spec fn spec_wrap_value(
    ctx: Seq<AssignmentV>,
    tv: ASN1TypeV,
    v: ASN1ValueV,
    fuel: nat,
) -> Seq<char>
    decreases fuel,
{
    if fuel == 0 {
        spec_literal_text(v)
    } else {
        match tv {
            ASN1TypeV::ElsewhereDeclaredType(d) => match crate::resolver::spec_find_type(
                ctx,
                d.identifier,
            ) {
                Some(target) => spec_pascal(d.identifier, 0, true) + "("@ + spec_wrap_value(
                    ctx,
                    target,
                    v,
                    (fuel - 1) as nat,
                ) + ")"@,
                None => spec_literal_text(v),
            },
            _ => spec_literal_text(v),
        }
    }
}

/// Writes a wrapped value; the twin of `spec_wrap_value`.
pub fn push_wrap_value(
    out: &mut Vec<char>,
    ctx: &Vec<Assignment>,
    ty: &ASN1Type,
    v: &ASN1Value,
    fuel: usize,
)
    ensures
        final(out)@ == old(out)@ + spec_wrap_value(
            ctx.deep_view(),
            ty.deep_view(),
            v.deep_view(),
            fuel as nat,
        ),
    decreases fuel,
{
    if fuel == 0 {
        push_literal(out, v);
        return;
    }
    match ty {
        ASN1Type::ElsewhereDeclaredType(d) => match crate::resolver::find_type(
            ctx,
            &d.identifier,
        ) {
            Some(idx) => {
                push_pascal(out, &d.identifier);
                push_str_chars(out, "(");
                match &ctx[idx] {
                    Assignment::Type(ta) => {
                        push_wrap_value(out, ctx, &ta.ty, v, fuel - 1);
                    },
                    _ => {
                        proof {
                            assert(false);
                        }
                    },
                }
                push_str_chars(out, ")");
                proof {
                    assert(out@ =~= old(out)@ + spec_wrap_value(
                        ctx.deep_view(),
                        ty.deep_view(),
                        v.deep_view(),
                        fuel as nat,
                    ));
                }
            },
            None => push_literal(out, v),
        },
        _ => push_literal(out, v),
    }
}

// ---------------------------------------------------------------------
// Declarations.
// ---------------------------------------------------------------------

/// The derive list shared by every generated declaration.
pub open spec fn spec_base_derives() -> Seq<char> {
    "#[derive(AsnType, Debug, Clone, Decode, Encode, PartialEq)] "@
}

/// Provider name for a defaulted member: the owning type and member in
/// snake case.
pub open spec fn spec_provider_name(tyname: Seq<char>, mname: Seq<char>) -> Seq<char> {
    spec_snake(tyname, 0) + "_"@ + spec_snake(mname, 0) + "_default"@
}

/// One generated struct field, with its tag and default metadata.
pub open spec fn spec_gen_member(tyname: Seq<char>, m: SequenceOrSetMemberV) -> Seq<char> {
    let tag_attr = match m.tag {
        Some(t) => {
            if !t.automatic {
                "#[rasn(tag(context, "@ + spec_int_chars(t.number as int) + "))] "@
            } else {
                Seq::<char>::empty()
            }
        },
        None => Seq::<char>::empty(),
    };
    let default_attr = match m.default_value {
        Some(_) => "#[rasn(default = \""@ + spec_provider_name(tyname, m.name) + "\")] "@,
        None => Seq::<char>::empty(),
    };
    let base = spec_type_repr(m.member_type);
    let fieldty = if m.is_optional {
        "Option<"@ + base + ">"@
    } else {
        base
    };
    tag_attr + default_attr + "pub "@ + spec_snake(m.name, 0) + ": "@ + fieldty + ", "@
}

/// All fields of a structured declaration.
pub open spec fn spec_gen_fields(tyname: Seq<char>, ms: Seq<SequenceOrSetMemberV>) -> Seq<char>
    decreases ms.len(),
{
    if ms.len() == 0 {
        Seq::empty()
    } else {
        spec_gen_member(tyname, ms[0]) + spec_gen_fields(tyname, ms.skip(1))
    }
}

/// The zero-argument default providers of a structured declaration.
pub open spec fn spec_gen_providers(
    ctx: Seq<AssignmentV>,
    tyname: Seq<char>,
    ms: Seq<SequenceOrSetMemberV>,
    fuel: nat,
) -> Seq<char>
    decreases ms.len(),
{
    if ms.len() == 0 {
        Seq::empty()
    } else {
        let head = match ms[0].default_value {
            Some(d) => "fn "@ + spec_provider_name(tyname, ms[0].name) + "() -> "@
                + spec_type_repr(ms[0].member_type) + " { "@ + spec_wrap_value(
                ctx,
                ms[0].member_type,
                d,
                fuel,
            ) + " } "@,
            None => Seq::<char>::empty(),
        };
        head + spec_gen_providers(ctx, tyname, ms.skip(1), fuel)
    }
}

/// The field initializers of a structured constant.
pub open spec fn spec_gen_field_values(
    ctx: Seq<AssignmentV>,
    ms: Seq<SequenceOrSetMemberV>,
    vals: Seq<ASN1ValueV>,
    fuel: nat,
) -> Seq<char>
    decreases ms.len(),
{
    if ms.len() == 0 || vals.len() == 0 {
        Seq::empty()
    } else {
        spec_snake(ms[0].name, 0) + ": "@ + spec_wrap_value(ctx, ms[0].member_type, vals[0], fuel)
            + ", "@ + spec_gen_field_values(ctx, ms.skip(1), vals.skip(1), fuel)
    }
}

/// The variants of a generated choice or enumerated declaration.
pub open spec fn spec_gen_variants(ms: Seq<SequenceOrSetMemberV>) -> Seq<char>
    decreases ms.len(),
{
    if ms.len() == 0 {
        Seq::empty()
    } else {
        spec_pascal(ms[0].name, 0, true) + "("@ + spec_type_repr(ms[0].member_type) + "), "@
            + spec_gen_variants(ms.skip(1))
    }
}

pub open spec fn spec_gen_enumerals(ms: Seq<crate::intermediate::DistinguishedValueV>) -> Seq<
    char,
>
    decreases ms.len(),
{
    if ms.len() == 0 {
        Seq::empty()
    } else {
        spec_pascal(ms[0].name, 0, true) + ", "@ + spec_gen_enumerals(ms.skip(1))
    }
}

/// One declaration group per assignment: a delegate wrapper, a
/// structured declaration with its providers, an enum, or a constant.
pub open spec fn spec_gen_assignment(
    ctx: Seq<AssignmentV>,
    a: AssignmentV,
    mode: TaggingMode,
    fuel: nat,
) -> Seq<char> {
    match a {
        AssignmentV::Type(ta) => {
            let pname = spec_pascal(ta.name, 0, true);
            match ta.ty {
                ASN1TypeV::Boolean(_) => {
                    "#[derive(AsnType, Debug, Clone, Copy, Decode, Encode, PartialEq)] "@
                        + "#[rasn(delegate)] pub struct "@ + pname + "(pub bool); "@
                },
                ASN1TypeV::Integer(i) => {
                    let range = spec_first_range(i.constraints);
                    "#[derive(AsnType, Debug, Clone, Decode, Encode, PartialEq, PartialOrd, Eq, Ord, Hash)] "@
                        + "#[rasn(delegate"@ + spec_range_attr("value"@, range) + ")] pub struct "@
                        + pname + "(pub "@ + spec_int_repr(range) + "); "@
                },
                ASN1TypeV::CharacterString(_) => {
                    spec_base_derives() + "#[rasn(delegate)] pub struct "@ + pname + "(pub "@
                        + spec_type_repr(ta.ty) + "); "@
                },
                ASN1TypeV::Enumerated(e) => {
                    "#[derive(AsnType, Debug, Clone, Copy, Decode, Encode, PartialEq)] "@
                        + "#[rasn(enumerated)] pub enum "@ + pname + " { "@
                        + spec_gen_enumerals(e.members) + "} "@
                },
                ASN1TypeV::Sequence(st) => {
                    let attr = if mode is Automatic {
                        "#[rasn(automatic_tags)] "@
                    } else {
                        Seq::<char>::empty()
                    };
                    spec_base_derives() + attr + "pub struct "@ + pname + " { "@
                        + spec_gen_fields(ta.name, st.members) + "} "@ + spec_gen_providers(
                        ctx,
                        ta.name,
                        st.members,
                        fuel,
                    )
                },
                ASN1TypeV::SetType(st) => {
                    let attr = if mode is Automatic {
                        "#[rasn(set, automatic_tags)] "@
                    } else {
                        "#[rasn(set)] "@
                    };
                    spec_base_derives() + attr + "pub struct "@ + pname + " { "@
                        + spec_gen_fields(ta.name, st.members) + "} "@ + spec_gen_providers(
                        ctx,
                        ta.name,
                        st.members,
                        fuel,
                    )
                },
                ASN1TypeV::Choice(st) => {
                    let attr = if mode is Automatic {
                        "#[rasn(choice, automatic_tags)] "@
                    } else {
                        "#[rasn(choice)] "@
                    };
                    spec_base_derives() + attr + "pub enum "@ + pname + " { "@
                        + spec_gen_variants(st.members) + "} "@
                },
                ASN1TypeV::SequenceOf(so) => {
                    spec_base_derives() + "#[rasn(delegate"@ + spec_range_attr(
                        "size"@,
                        spec_first_size(so.constraints),
                    ) + ")] pub struct "@ + pname + "(pub "@ + spec_type_repr(ta.ty) + "); "@
                },
                ASN1TypeV::SetOf(so) => {
                    spec_base_derives() + "#[rasn(delegate"@ + spec_range_attr(
                        "size"@,
                        spec_first_size(so.constraints),
                    ) + ")] pub struct "@ + pname + "(pub "@ + spec_type_repr(ta.ty) + "); "@
                },
                ASN1TypeV::ElsewhereDeclaredType(d) => {
                    spec_base_derives() + "#[rasn(delegate"@ + spec_range_attr(
                        "value"@,
                        spec_first_range(d.constraints),
                    ) + ")] pub struct "@ + pname + "(pub "@ + spec_pascal(d.identifier, 0, true)
                        + "); "@
                },
                ASN1TypeV::InformationObjectFieldReference(_) => {
                    spec_base_derives() + "#[rasn(delegate)] pub struct "@ + pname
                        + "(pub Any); "@
                },
            }
        },
        AssignmentV::Value(va) => {
            let cname = spec_screaming(va.name, 0);
            let tyrepr = spec_type_repr(va.type_ref);
            match va.value {
                ASN1ValueV::Boolean(_) => "pub const "@ + cname + ": "@ + tyrepr + " = "@
                    + spec_wrap_value(ctx, va.type_ref, va.value, fuel) + "; "@,
                ASN1ValueV::Integer(_) => "pub const "@ + cname + ": "@ + tyrepr + " = "@
                    + spec_wrap_value(ctx, va.type_ref, va.value, fuel) + "; "@,
                ASN1ValueV::SequenceOrSetOf(vals) => {
                    let fields = match crate::resolver::spec_struct_members(
                        ctx,
                        va.type_ref,
                        fuel,
                    ) {
                        Ok(ms) => spec_gen_field_values(ctx, ms, vals, fuel),
                        Err(_) => Seq::<char>::empty(),
                    };
                    "lazy_static! { pub static ref "@ + cname + ": "@ + tyrepr + " = "@ + tyrepr
                        + " { "@ + fields + "}; } "@
                },
                _ => "lazy_static! { pub static ref "@ + cname + ": "@ + tyrepr + " = "@
                    + spec_wrap_value(ctx, va.type_ref, va.value, fuel) + "; } "@,
            }
        },
    }
}

/// Writes one field; the twin of `spec_gen_member`.
#[verifier::rlimit(100)]
fn push_member(out: &mut Vec<char>, tyname: &String, m: &crate::intermediate::SequenceOrSetMember)
    ensures
        final(out)@ == old(out)@ + spec_gen_member(tyname@, m.deep_view()),
{
    match &m.tag {
        Some(t) => {
            if !t.automatic {
                push_str_chars(out, "#[rasn(tag(context, ");
                push_int(out, t.number as i128);
                push_str_chars(out, "))] ");
            }
        },
        None => {},
    }
    match &m.default_value {
        Some(_) => {
            push_str_chars(out, "#[rasn(default = \"");
            push_snake(out, tyname);
            push_str_chars(out, "_");
            push_snake(out, &m.name);
            push_str_chars(out, "_default");
            push_str_chars(out, "\")] ");
        },
        None => {},
    }
    push_str_chars(out, "pub ");
    push_snake(out, &m.name);
    push_str_chars(out, ": ");
    if m.is_optional {
        push_str_chars(out, "Option<");
        push_type_repr(out, &m.member_type);
        push_str_chars(out, ">");
    } else {
        push_type_repr(out, &m.member_type);
    }
    push_str_chars(out, ", ");
    proof {
        assert(out@ =~= old(out)@ + spec_gen_member(tyname@, m.deep_view()));
    }
}

/// Writes one default provider, if the member has a default; the twin
/// of the head case of `spec_gen_providers`.
fn push_provider(
    out: &mut Vec<char>,
    ctx: &Vec<Assignment>,
    tyname: &String,
    m: &crate::intermediate::SequenceOrSetMember,
    fuel: usize,
)
    ensures
        final(out)@ == old(out)@ + (match m.deep_view().default_value {
            Some(d) => "fn "@ + spec_provider_name(tyname@, m.deep_view().name) + "() -> "@
                + spec_type_repr(m.deep_view().member_type) + " { "@ + spec_wrap_value(
                ctx.deep_view(),
                m.deep_view().member_type,
                d,
                fuel as nat,
            ) + " } "@,
            None => Seq::<char>::empty(),
        }),
{
    match &m.default_value {
        Some(d) => {
            push_str_chars(out, "fn ");
            push_snake(out, tyname);
            push_str_chars(out, "_");
            push_snake(out, &m.name);
            push_str_chars(out, "_default");
            push_str_chars(out, "() -> ");
            push_type_repr(out, &m.member_type);
            push_str_chars(out, " { ");
            push_wrap_value(out, ctx, &m.member_type, d, fuel);
            push_str_chars(out, " } ");
            proof {
                assert(out@ =~= old(out)@ + ("fn "@ + spec_provider_name(
                    tyname@,
                    m.deep_view().name,
                ) + "() -> "@ + spec_type_repr(m.deep_view().member_type) + " { "@
                    + spec_wrap_value(
                    ctx.deep_view(),
                    m.deep_view().member_type,
                    d.deep_view(),
                    fuel as nat,
                ) + " } "@));
            }
        },
        None => {
            proof {
                assert(out@ =~= old(out)@ + Seq::<char>::empty());
            }
        },
    }
}

/// Writes the fields of a structured declaration; the twin of
/// `spec_gen_fields`.
fn push_fields(out: &mut Vec<char>, tyname: &String, ms: &Vec<crate::intermediate::SequenceOrSetMember>)
    ensures
        final(out)@ == old(out)@ + spec_gen_fields(tyname@, ms.deep_view()),
{
    let ghost msd = ms.deep_view();
    let mut i: usize = 0;
    proof {
        assert(msd.skip(0) =~= msd);
    }
    while i < ms.len()
        invariant
            i <= ms@.len(),
            msd == ms.deep_view(),
            old(out)@ + spec_gen_fields(tyname@, msd) == out@ + spec_gen_fields(
                tyname@,
                msd.skip(i as int),
            ),
        decreases ms@.len() - i,
    {
        proof {
            assert(msd.skip(i as int)[0] == msd[i as int]);
            assert(msd.skip(i as int).skip(1) =~= msd.skip(i + 1));
            assert(msd[i as int] == ms@[i as int].deep_view());
        }
        push_member(out, tyname, &ms[i]);
        proof {
            assert(out@ + spec_gen_fields(tyname@, msd.skip(i + 1)) =~= old(out)@
                + spec_gen_fields(tyname@, msd));
        }
        i = i + 1;
    }
    proof {
        assert(msd.skip(ms@.len() as int) =~= Seq::<SequenceOrSetMemberV>::empty());
        assert(out@ + Seq::<char>::empty() =~= out@);
    }
}

/// Writes the default providers; the twin of `spec_gen_providers`.
fn push_providers(
    out: &mut Vec<char>,
    ctx: &Vec<Assignment>,
    tyname: &String,
    ms: &Vec<crate::intermediate::SequenceOrSetMember>,
    fuel: usize,
)
    ensures
        final(out)@ == old(out)@ + spec_gen_providers(
            ctx.deep_view(),
            tyname@,
            ms.deep_view(),
            fuel as nat,
        ),
{
    let ghost msd = ms.deep_view();
    let mut i: usize = 0;
    proof {
        assert(msd.skip(0) =~= msd);
    }
    while i < ms.len()
        invariant
            i <= ms@.len(),
            msd == ms.deep_view(),
            old(out)@ + spec_gen_providers(ctx.deep_view(), tyname@, msd, fuel as nat) == out@
                + spec_gen_providers(ctx.deep_view(), tyname@, msd.skip(i as int), fuel as nat),
        decreases ms@.len() - i,
    {
        proof {
            assert(msd.skip(i as int)[0] == msd[i as int]);
            assert(msd.skip(i as int).skip(1) =~= msd.skip(i + 1));
            assert(msd[i as int] == ms@[i as int].deep_view());
        }
        push_provider(out, ctx, tyname, &ms[i], fuel);
        proof {
            assert(out@ + spec_gen_providers(ctx.deep_view(), tyname@, msd.skip(i + 1), fuel as nat)
                =~= old(out)@ + spec_gen_providers(ctx.deep_view(), tyname@, msd, fuel as nat));
        }
        i = i + 1;
    }
    proof {
        assert(msd.skip(ms@.len() as int) =~= Seq::<SequenceOrSetMemberV>::empty());
        assert(out@ + Seq::<char>::empty() =~= out@);
    }
}

/// Writes the field initializers of a structured constant; the twin of
/// `spec_gen_field_values`.
fn push_field_values(
    out: &mut Vec<char>,
    ctx: &Vec<Assignment>,
    ms: &Vec<crate::intermediate::SequenceOrSetMember>,
    vals: &Vec<ASN1Value>,
    fuel: usize,
)
    ensures
        final(out)@ == old(out)@ + spec_gen_field_values(
            ctx.deep_view(),
            ms.deep_view(),
            vals.deep_view(),
            fuel as nat,
        ),
{
    let ghost msd = ms.deep_view();
    let ghost vsd = vals.deep_view();
    let mut i: usize = 0;
    proof {
        assert(msd.skip(0) =~= msd);
        assert(vsd.skip(0) =~= vsd);
    }
    while i < ms.len() && i < vals.len()
        invariant
            i <= ms@.len(),
            i <= vals@.len(),
            msd == ms.deep_view(),
            vsd == vals.deep_view(),
            old(out)@ + spec_gen_field_values(ctx.deep_view(), msd, vsd, fuel as nat) == out@
                + spec_gen_field_values(
                ctx.deep_view(),
                msd.skip(i as int),
                vsd.skip(i as int),
                fuel as nat,
            ),
        decreases ms@.len() - i,
    {
        proof {
            assert(msd.skip(i as int)[0] == msd[i as int]);
            assert(msd.skip(i as int).skip(1) =~= msd.skip(i + 1));
            assert(vsd.skip(i as int)[0] == vsd[i as int]);
            assert(vsd.skip(i as int).skip(1) =~= vsd.skip(i + 1));
        }
        let m = &ms[i];
        push_snake(out, &m.name);
        push_str_chars(out, ": ");
        push_wrap_value(out, ctx, &m.member_type, &vals[i], fuel);
        push_str_chars(out, ", ");
        proof {
            assert(out@ + spec_gen_field_values(
                ctx.deep_view(),
                msd.skip(i + 1),
                vsd.skip(i + 1),
                fuel as nat,
            ) =~= old(out)@ + spec_gen_field_values(ctx.deep_view(), msd, vsd, fuel as nat));
        }
        i = i + 1;
    }
    proof {
        if i >= ms@.len() {
            assert(msd.skip(i as int) =~= Seq::<SequenceOrSetMemberV>::empty());
        } else {
            assert(vsd.skip(i as int) =~= Seq::<ASN1ValueV>::empty());
        }
        assert(out@ + Seq::<char>::empty() =~= out@);
    }
}

/// Writes choice variants; the twin of `spec_gen_variants`.
fn push_variants(out: &mut Vec<char>, ms: &Vec<crate::intermediate::SequenceOrSetMember>)
    ensures
        final(out)@ == old(out)@ + spec_gen_variants(ms.deep_view()),
{
    let ghost msd = ms.deep_view();
    let mut i: usize = 0;
    proof {
        assert(msd.skip(0) =~= msd);
    }
    while i < ms.len()
        invariant
            i <= ms@.len(),
            msd == ms.deep_view(),
            old(out)@ + spec_gen_variants(msd) == out@ + spec_gen_variants(msd.skip(i as int)),
        decreases ms@.len() - i,
    {
        proof {
            assert(msd.skip(i as int)[0] == msd[i as int]);
            assert(msd.skip(i as int).skip(1) =~= msd.skip(i + 1));
        }
        push_pascal(out, &ms[i].name);
        push_str_chars(out, "(");
        push_type_repr(out, &ms[i].member_type);
        push_str_chars(out, "), ");
        proof {
            assert(out@ + spec_gen_variants(msd.skip(i + 1)) =~= old(out)@ + spec_gen_variants(
                msd,
            ));
        }
        i = i + 1;
    }
    proof {
        assert(msd.skip(ms@.len() as int) =~= Seq::<SequenceOrSetMemberV>::empty());
        assert(out@ + Seq::<char>::empty() =~= out@);
    }
}

/// Writes enumerated members; the twin of `spec_gen_enumerals`.
fn push_enumerals(out: &mut Vec<char>, ms: &Vec<crate::intermediate::DistinguishedValue>)
    ensures
        final(out)@ == old(out)@ + spec_gen_enumerals(ms.deep_view()),
{
    let ghost msd = ms.deep_view();
    let mut i: usize = 0;
    proof {
        assert(msd.skip(0) =~= msd);
    }
    while i < ms.len()
        invariant
            i <= ms@.len(),
            msd == ms.deep_view(),
            old(out)@ + spec_gen_enumerals(msd) == out@ + spec_gen_enumerals(
                msd.skip(i as int),
            ),
        decreases ms@.len() - i,
    {
        proof {
            assert(msd.skip(i as int)[0] == msd[i as int]);
            assert(msd.skip(i as int).skip(1) =~= msd.skip(i + 1));
        }
        push_pascal(out, &ms[i].name);
        push_str_chars(out, ", ");
        proof {
            assert(out@ + spec_gen_enumerals(msd.skip(i + 1)) =~= old(out)@
                + spec_gen_enumerals(msd));
        }
        i = i + 1;
    }
    proof {
        assert(msd.skip(ms@.len() as int)
            =~= Seq::<crate::intermediate::DistinguishedValueV>::empty());
        assert(out@ + Seq::<char>::empty() =~= out@);
    }
}

/// Writes one declaration group; the twin of `spec_gen_assignment`.
pub fn push_assignment(
    out: &mut Vec<char>,
    ctx: &Vec<Assignment>,
    a: &Assignment,
    mode: TaggingMode,
    fuel: usize,
)
    ensures
        final(out)@ == old(out)@ + spec_gen_assignment(
            ctx.deep_view(),
            a.deep_view(),
            mode,
            fuel as nat,
        ),
{
    match a {
        Assignment::Type(ta) => push_type_decl(out, ctx, a, ta, mode, fuel),
        Assignment::Value(va) => push_value_decl(out, ctx, a, va, mode, fuel),
    }
}

/// Writes a structured declaration (sequence, set or choice) with its
/// fields, attributes and default providers.
#[verifier::rlimit(100)]
fn push_struct_like(
    out: &mut Vec<char>,
    ctx: &Vec<Assignment>,
    a: &Assignment,
    ta: &crate::intermediate::TypeAssignment,
    mode: TaggingMode,
    fuel: usize,
)
    requires
        a matches Assignment::Type(t) && t == ta,
        ta.ty is Sequence || ta.ty is SetType || ta.ty is Choice,
    ensures
        final(out)@ == old(out)@ + spec_gen_assignment(
            ctx.deep_view(),
            a.deep_view(),
            mode,
            fuel as nat,
        ),
{
    match &ta.ty {
        ASN1Type::Sequence(st) => {
            proof {
                crate::intermediate::lemma_member_list_deep(st.members);
            }
            push_str_chars(
                out,
                "#[derive(AsnType, Debug, Clone, Decode, Encode, PartialEq)] ",
            );
            if matches!(mode, TaggingMode::Automatic) {
                push_str_chars(out, "#[rasn(automatic_tags)] ");
            }
            push_str_chars(out, "pub struct ");
            push_pascal(out, &ta.name);
            push_str_chars(out, " { ");
            push_fields(out, &ta.name, &st.members);
            push_str_chars(out, "} ");
            push_providers(out, ctx, &ta.name, &st.members, fuel);
            proof {
                assert(out@ =~= old(out)@ + spec_gen_assignment(
                    ctx.deep_view(),
                    a.deep_view(),
                    mode,
                    fuel as nat,
                ));
            }
        },
        ASN1Type::SetType(st) => {
            proof {
                crate::intermediate::lemma_member_list_deep(st.members);
            }
            push_str_chars(
                out,
                "#[derive(AsnType, Debug, Clone, Decode, Encode, PartialEq)] ",
            );
            if matches!(mode, TaggingMode::Automatic) {
                push_str_chars(out, "#[rasn(set, automatic_tags)] ");
            } else {
                push_str_chars(out, "#[rasn(set)] ");
            }
            push_str_chars(out, "pub struct ");
            push_pascal(out, &ta.name);
            push_str_chars(out, " { ");
            push_fields(out, &ta.name, &st.members);
            push_str_chars(out, "} ");
            push_providers(out, ctx, &ta.name, &st.members, fuel);
            proof {
                assert(out@ =~= old(out)@ + spec_gen_assignment(
                    ctx.deep_view(),
                    a.deep_view(),
                    mode,
                    fuel as nat,
                ));
            }
        },
        ASN1Type::Choice(st) => {
            proof {
                crate::intermediate::lemma_member_list_deep(st.members);
            }
            push_str_chars(
                out,
                "#[derive(AsnType, Debug, Clone, Decode, Encode, PartialEq)] ",
            );
            if matches!(mode, TaggingMode::Automatic) {
                push_str_chars(out, "#[rasn(choice, automatic_tags)] ");
            } else {
                push_str_chars(out, "#[rasn(choice)] ");
            }
            push_str_chars(out, "pub enum ");
            push_pascal(out, &ta.name);
            push_str_chars(out, " { ");
            push_variants(out, &st.members);
            push_str_chars(out, "} ");
            proof {
                assert(out@ =~= old(out)@ + spec_gen_assignment(
                    ctx.deep_view(),
                    a.deep_view(),
                    mode,
                    fuel as nat,
                ));
            }
        },
        _ => {
            proof {
                assert(false);
            }
        },
    }
}

/// Writes a type declaration group.
#[verifier::rlimit(100)]
fn push_type_decl(
    out: &mut Vec<char>,
    ctx: &Vec<Assignment>,
    a: &Assignment,
    ta: &crate::intermediate::TypeAssignment,
    mode: TaggingMode,
    fuel: usize,
)
    requires
        a matches Assignment::Type(t) && t == ta,
    ensures
        final(out)@ == old(out)@ + spec_gen_assignment(
            ctx.deep_view(),
            a.deep_view(),
            mode,
            fuel as nat,
        ),
{
    match a {
        Assignment::Type(ta) => {
            match &ta.ty {
                ASN1Type::Boolean(_) => {
                    push_str_chars(
                        out,
                        "#[derive(AsnType, Debug, Clone, Copy, Decode, Encode, PartialEq)] ",
                    );
                    push_str_chars(out, "#[rasn(delegate)] pub struct ");
                    push_pascal(out, &ta.name);
                    push_str_chars(out, "(pub bool); ");
                },
                ASN1Type::Integer(i) => {
                    proof {
                        assert(i.constraints.deep_view().skip(0) =~= i.constraints.deep_view());
                    }
                    let range = first_range(&i.constraints, 0);
                    push_str_chars(
                        out,
                        "#[derive(AsnType, Debug, Clone, Decode, Encode, PartialEq, PartialOrd, Eq, Ord, Hash)] ",
                    );
                    push_str_chars(out, "#[rasn(delegate");
                    push_range_attr(out, "value", range);
                    push_str_chars(out, ")] pub struct ");
                    push_pascal(out, &ta.name);
                    push_str_chars(out, "(pub ");
                    push_str_chars(out, int_repr(range));
                    push_str_chars(out, "); ");
                },
                ASN1Type::CharacterString(_) => {
                    push_str_chars(
                        out,
                        "#[derive(AsnType, Debug, Clone, Decode, Encode, PartialEq)] ",
                    );
                    push_str_chars(out, "#[rasn(delegate)] pub struct ");
                    push_pascal(out, &ta.name);
                    push_str_chars(out, "(pub ");
                    push_type_repr(out, &ta.ty);
                    push_str_chars(out, "); ");
                },
                ASN1Type::Enumerated(e) => {
                    push_str_chars(
                        out,
                        "#[derive(AsnType, Debug, Clone, Copy, Decode, Encode, PartialEq)] ",
                    );
                    push_str_chars(out, "#[rasn(enumerated)] pub enum ");
                    push_pascal(out, &ta.name);
                    push_str_chars(out, " { ");
                    push_enumerals(out, &e.members);
                    push_str_chars(out, "} ");
                },
                ASN1Type::Sequence(_) => {
                    push_struct_like(out, ctx, a, ta, mode, fuel);
                    return;
                },
                ASN1Type::SetType(_) => {
                    push_struct_like(out, ctx, a, ta, mode, fuel);
                    return;
                },
                ASN1Type::Choice(_) => {
                    push_struct_like(out, ctx, a, ta, mode, fuel);
                    return;
                },
                ASN1Type::SequenceOf(so) => {
                    proof {
                        assert(so.constraints.deep_view().skip(0)
                            =~= so.constraints.deep_view());
                    }
                    let size = first_size(&so.constraints, 0);
                    push_str_chars(
                        out,
                        "#[derive(AsnType, Debug, Clone, Decode, Encode, PartialEq)] ",
                    );
                    push_str_chars(out, "#[rasn(delegate");
                    push_range_attr(out, "size", size);
                    push_str_chars(out, ")] pub struct ");
                    push_pascal(out, &ta.name);
                    push_str_chars(out, "(pub ");
                    push_type_repr(out, &ta.ty);
                    push_str_chars(out, "); ");
                },
                ASN1Type::SetOf(so) => {
                    proof {
                        assert(so.constraints.deep_view().skip(0)
                            =~= so.constraints.deep_view());
                    }
                    let size = first_size(&so.constraints, 0);
                    push_str_chars(
                        out,
                        "#[derive(AsnType, Debug, Clone, Decode, Encode, PartialEq)] ",
                    );
                    push_str_chars(out, "#[rasn(delegate");
                    push_range_attr(out, "size", size);
                    push_str_chars(out, ")] pub struct ");
                    push_pascal(out, &ta.name);
                    push_str_chars(out, "(pub ");
                    push_type_repr(out, &ta.ty);
                    push_str_chars(out, "); ");
                },
                ASN1Type::ElsewhereDeclaredType(d) => {
                    proof {
                        assert(d.constraints.deep_view().skip(0) =~= d.constraints.deep_view());
                    }
                    let range = first_range(&d.constraints, 0);
                    push_str_chars(
                        out,
                        "#[derive(AsnType, Debug, Clone, Decode, Encode, PartialEq)] ",
                    );
                    push_str_chars(out, "#[rasn(delegate");
                    push_range_attr(out, "value", range);
                    push_str_chars(out, ")] pub struct ");
                    push_pascal(out, &ta.name);
                    push_str_chars(out, "(pub ");
                    push_pascal(out, &d.identifier);
                    push_str_chars(out, "); ");
                },
                ASN1Type::InformationObjectFieldReference(_) => {
                    push_str_chars(
                        out,
                        "#[derive(AsnType, Debug, Clone, Decode, Encode, PartialEq)] ",
                    );
                    push_str_chars(out, "#[rasn(delegate)] pub struct ");
                    push_pascal(out, &ta.name);
                    push_str_chars(out, "(pub Any); ");
                },
            }
            proof {
                assert(out@ =~= old(out)@ + spec_gen_assignment(
                    ctx.deep_view(),
                    a.deep_view(),
                    mode,
                    fuel as nat,
                ));
            }
        },
        _ => {
            proof {
                assert(false);
            }
        },
    }
}

/// Writes a constant declaration.
#[verifier::rlimit(100)]
fn push_value_decl(
    out: &mut Vec<char>,
    ctx: &Vec<Assignment>,
    a: &Assignment,
    va: &crate::intermediate::ValueAssignment,
    mode: TaggingMode,
    fuel: usize,
)
    requires
        a matches Assignment::Value(v) && v == va,
    ensures
        final(out)@ == old(out)@ + spec_gen_assignment(
            ctx.deep_view(),
            a.deep_view(),
            mode,
            fuel as nat,
        ),
{
    match a {
        Assignment::Value(va) => {
            match &va.value {
                ASN1Value::Boolean(_) | ASN1Value::Integer(_) => {
                    push_str_chars(out, "pub const ");
                    push_screaming(out, &va.name);
                    push_str_chars(out, ": ");
                    push_type_repr(out, &va.type_ref);
                    push_str_chars(out, " = ");
                    push_wrap_value(out, ctx, &va.type_ref, &va.value, fuel);
                    push_str_chars(out, "; ");
                },
                ASN1Value::SequenceOrSetOf(vals) => {
                    proof {
                        crate::intermediate::lemma_value_list_deep(*vals);
                    }
                    push_str_chars(out, "lazy_static! { pub static ref ");
                    push_screaming(out, &va.name);
                    push_str_chars(out, ": ");
                    push_type_repr(out, &va.type_ref);
                    push_str_chars(out, " = ");
                    push_type_repr(out, &va.type_ref);
                    push_str_chars(out, " { ");
                    match crate::resolver::struct_members(ctx, &va.type_ref, fuel) {
                        Ok(ms) => {
                            push_field_values(out, ctx, ms, vals, fuel);
                        },
                        Err(_) => {},
                    }
                    push_str_chars(out, "}; } ");
                },
                _ => {
                    push_str_chars(out, "lazy_static! { pub static ref ");
                    push_screaming(out, &va.name);
                    push_str_chars(out, ": ");
                    push_type_repr(out, &va.type_ref);
                    push_str_chars(out, " = ");
                    push_wrap_value(out, ctx, &va.type_ref, &va.value, fuel);
                    push_str_chars(out, "; } ");
                },
            }
            proof {
                assert(out@ =~= old(out)@ + spec_gen_assignment(
                    ctx.deep_view(),
                    a.deep_view(),
                    mode,
                    fuel as nat,
                ));
            }
        },
        _ => {
            proof {
                assert(false);
            }
        },
    }
}

// ---------------------------------------------------------------------
// Ordering.
// ---------------------------------------------------------------------

/// Lexicographic order on names, by character code.
pub open spec fn spec_lex_le(a: Seq<char>, b: Seq<char>) -> bool
    decreases a.len(),
{
    if a.len() == 0 {
        true
    } else if b.len() == 0 {
        false
    } else if (a[0] as u32) < (b[0] as u32) {
        true
    } else if (a[0] as u32) > (b[0] as u32) {
        false
    } else {
        spec_lex_le(a.skip(1), b.skip(1))
    }
}

/// Compares two names; the twin of `spec_lex_le`.
pub fn lex_le(a: &String, b: &String) -> (r: bool)
    ensures
        r == spec_lex_le(a@, b@),
{
    let av = crate::text::chars_of(a.as_str());
    let bv = crate::text::chars_of(b.as_str());
    proof {
        assert(av@.skip(0) =~= av@);
        assert(bv@.skip(0) =~= bv@);
    }
    lex_le_from(&av, &bv, 0)
}

fn lex_le_from(a: &Vec<char>, b: &Vec<char>, i: usize) -> (r: bool)
    requires
        i <= a@.len(),
        i <= b@.len(),
    ensures
        r == spec_lex_le(a@.skip(i as int), b@.skip(i as int)),
    decreases a@.len() - i,
{
    proof {
        if i < a@.len() {
            assert(a@.skip(i as int)[0] == a@[i as int]);
        }
        if i < b@.len() {
            assert(b@.skip(i as int)[0] == b@[i as int]);
        }
        if i < a@.len() && i < b@.len() {
            assert(a@.skip(i as int).skip(1) =~= a@.skip(i + 1));
            assert(b@.skip(i as int).skip(1) =~= b@.skip(i + 1));
        }
    }
    if i >= a.len() {
        proof {
            assert(a@.skip(i as int) =~= Seq::<char>::empty());
        }
        true
    } else if i >= b.len() {
        proof {
            assert(b@.skip(i as int) =~= Seq::<char>::empty());
        }
        false
    } else if (a[i] as u32) < (b[i] as u32) {
        true
    } else if (a[i] as u32) > (b[i] as u32) {
        false
    } else {
        lex_le_from(a, b, i + 1)
    }
}

/// Name of an assignment, for ordering.
pub open spec fn spec_asg_name(a: AssignmentV) -> Seq<char> {
    match a {
        AssignmentV::Type(ta) => ta.name,
        AssignmentV::Value(va) => va.name,
    }
}

/// Inserts into a name-sorted sequence.
pub open spec fn spec_sorted_insert(a: AssignmentV, s: Seq<AssignmentV>) -> Seq<AssignmentV>
    decreases s.len(),
{
    if s.len() == 0 {
        seq![a]
    } else if spec_lex_le(spec_asg_name(a), spec_asg_name(s[0])) {
        seq![a] + s
    } else {
        seq![s[0]] + spec_sorted_insert(a, s.skip(1))
    }
}

/// Insertion sort by name: the emission order, independent of source
/// order.
pub open spec fn spec_sort_assignments(s: Seq<AssignmentV>) -> Seq<AssignmentV>
    decreases s.len(),
{
    if s.len() == 0 {
        Seq::empty()
    } else {
        spec_sorted_insert(s[0], spec_sort_assignments(s.skip(1)))
    }
}

/// Deep-copies an assignment, for callers outside this module.
pub fn copy_assignment_pub(a: &Assignment) -> (r: Assignment)
    ensures
        r.deep_view() == a.deep_view(),
{
    copy_assignment(a)
}

/// Deep-copies an assignment.
fn copy_assignment(a: &Assignment) -> (r: Assignment)
    ensures
        r.deep_view() == a.deep_view(),
{
    match a {
        Assignment::Type(ta) => Assignment::Type(
            crate::intermediate::TypeAssignment {
                name: ta.name.clone(),
                ty: crate::resolver::copy_type(&ta.ty),
            },
        ),
        Assignment::Value(va) => Assignment::Value(
            crate::intermediate::ValueAssignment {
                name: va.name.clone(),
                type_ref: crate::resolver::copy_type(&va.type_ref),
                value: crate::resolver::copy_value(&va.value),
            },
        ),
    }
}

fn asg_name<'a>(a: &'a Assignment) -> (r: &'a String)
    ensures
        r@ == spec_asg_name(a.deep_view()),
{
    match a {
        Assignment::Type(ta) => &ta.name,
        Assignment::Value(va) => &va.name,
    }
}

/// Inserts into a sorted vector; the twin of `spec_sorted_insert`.
fn sorted_insert(v: &Vec<Assignment>, i: usize, a: Assignment) -> (r: Vec<Assignment>)
    requires
        i <= v@.len(),
    ensures
        r.deep_view() == spec_sorted_insert(a.deep_view(), v.deep_view().skip(i as int)),
    decreases v@.len() - i,
{
    proof {
        if i < v@.len() {
            assert(v.deep_view().skip(i as int)[0] == v.deep_view()[i as int]);
            assert(v.deep_view().skip(i as int).skip(1) =~= v.deep_view().skip(i + 1));
        } else {
            assert(v.deep_view().skip(i as int) =~= Seq::<AssignmentV>::empty());
        }
    }
    if i >= v.len() {
        let mut out: Vec<Assignment> = Vec::new();
        let ghost av = a.deep_view();
        out.push(a);
        proof {
            assert(out.deep_view() =~= seq![av]);
        }
        out
    } else if lex_le(asg_name(&a), asg_name(&v[i])) {
        let mut out: Vec<Assignment> = Vec::new();
        let ghost av = a.deep_view();
        out.push(a);
        let mut j: usize = i;
        proof {
            assert(out.deep_view() =~= seq![av] + v.deep_view().skip(i as int).take(0));
        }
        while j < v.len()
            invariant
                i <= j <= v@.len(),
                out.deep_view() == seq![av] + v.deep_view().skip(i as int).take(j - i),
            decreases v@.len() - j,
        {
            let c = copy_assignment(&v[j]);
            let ghost cv = c.deep_view();
            let ghost outd = out.deep_view();
            out.push(c);
            proof {
                assert(cv == v.deep_view()[j as int]);
                assert(v.deep_view().skip(i as int)[j - i] == v.deep_view()[j as int]);
                assert(out.deep_view() =~= outd.push(cv));
                assert(outd.push(cv) =~= seq![av] + v.deep_view().skip(i as int).take(
                    j + 1 - i,
                ));
            }
            j = j + 1;
        }
        proof {
            assert(v.deep_view().skip(i as int).take(v@.len() - i) =~= v.deep_view().skip(
                i as int,
            ));
        }
        out
    } else {
        let rest = sorted_insert(v, i + 1, a);
        let head = copy_assignment(&v[i]);
        let ghost hv = head.deep_view();
        let ghost restd = rest.deep_view();
        let mut out = rest;
        out.insert(0, head);
        proof {
            assert(out.deep_view() =~= seq![hv] + restd);
        }
        out
    }
}

/// Sorts the assignments by name; the twin of `spec_sort_assignments`.
pub fn sort_assignments(v: &Vec<Assignment>, i: usize) -> (r: Vec<Assignment>)
    requires
        i <= v@.len(),
    ensures
        r.deep_view() == spec_sort_assignments(v.deep_view().skip(i as int)),
    decreases v@.len() - i,
{
    proof {
        if i < v@.len() {
            assert(v.deep_view().skip(i as int)[0] == v.deep_view()[i as int]);
            assert(v.deep_view().skip(i as int).skip(1) =~= v.deep_view().skip(i + 1));
        } else {
            assert(v.deep_view().skip(i as int) =~= Seq::<AssignmentV>::empty());
        }
    }
    if i >= v.len() {
        let out: Vec<Assignment> = Vec::new();
        proof {
            crate::parser::lemma_deep_empty(out);
        }
        out
    } else {
        let rest = sort_assignments(v, i + 1);
        let r = sorted_insert(&rest, 0, copy_assignment(&v[i]));
        proof {
            assert(rest.deep_view().skip(0) =~= rest.deep_view());
        }
        r
    }
}

} // verus!
