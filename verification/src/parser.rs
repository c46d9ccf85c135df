//! The grammar parser: small composable parsing functions, one per
//! construct, in a backtracking discipline — a sub-parser either
//! consumes a prefix and returns a node, or fails having consumed
//! nothing of the caller's position.
//!
//! Each executable parser is proved equal to a specification twin that
//! works on the remaining input as a `Seq<char>`.  The twins take a
//! fuel parameter solely to bound recursion; the compiler hands every
//! parse enough fuel for any input of its length.

use vstd::prelude::*;

use crate::intermediate::ASN1Value;
use crate::intermediate::ASN1ValueV;
use crate::intermediate::Constraint;
use crate::intermediate::ConstraintV;
use crate::intermediate::ElementOrSetOperation;
use crate::intermediate::ElementOrSetOperationV;
use crate::intermediate::ElementSet;
use crate::intermediate::ElementSetV;
use crate::intermediate::ObjectSet;
use crate::intermediate::ObjectSetV;
use crate::intermediate::ObjectSetValue;
use crate::intermediate::ObjectSetValueV;
use crate::intermediate::Parameter;
use crate::intermediate::ParameterV;
use crate::intermediate::SetOperation;
use crate::intermediate::SetOperator;
use crate::intermediate::SetOperationV;
use crate::intermediate::SubtypeElement;
use crate::intermediate::SubtypeElementV;
use crate::intermediate::AsnTag;
use crate::intermediate::TagClass;
use crate::intermediate::DistinguishedValue;
use crate::intermediate::DistinguishedValueV;
use crate::intermediate::SequenceOrSetMember;
use crate::intermediate::SequenceOrSetMemberV;
use crate::intermediate::SequenceOrSet;
use crate::intermediate::SequenceOrSetV;
use crate::intermediate::SequenceOrSetOf;
use crate::intermediate::SequenceOrSetOfV;
use crate::intermediate::ASN1Type;
use crate::intermediate::ASN1TypeV;
use crate::intermediate::Boolean;
use crate::intermediate::BooleanV;
use crate::intermediate::Integer;
use crate::intermediate::IntegerV;
use crate::intermediate::CharacterString;
use crate::intermediate::CharacterStringV;
use crate::intermediate::CharacterStringKind;
use crate::intermediate::Enumerated;
use crate::intermediate::EnumeratedV;
use crate::intermediate::DeclarationElsewhere;
use crate::intermediate::DeclarationElsewhereV;
use crate::intermediate::InformationObjectFieldReference;
use crate::intermediate::InformationObjectFieldReferenceV;
use crate::intermediate::Assignment;
use crate::intermediate::AssignmentV;
use crate::intermediate::TypeAssignment;
use crate::intermediate::TypeAssignmentV;
use crate::intermediate::ValueAssignment;
use crate::intermediate::ValueAssignmentV;
use crate::intermediate::Module;
use crate::intermediate::ModuleV;
use crate::intermediate::TaggingMode;
use crate::intermediate::CompilerError;
use crate::intermediate::CompilerErrorV;
use crate::lexer::spec_expect;
use crate::lexer::spec_identifier;
use crate::lexer::spec_integer;
use crate::lexer::spec_is_lower;
use crate::lexer::spec_is_upper;
use crate::lexer::spec_skip_ws;
use crate::lexer::expect;
use crate::lexer::identifier;
use crate::lexer::integer;
use crate::lexer::skip_ws;

verus! {

// ---------------------------------------------------------------------
// Shared helpers.
// ---------------------------------------------------------------------

/// A token preceded by optional whitespace and comments.
pub open spec fn spec_tok(t: Seq<char>, tok: Seq<char>) -> Option<Seq<char>> {
    spec_expect(spec_skip_ws(t), tok)
}

/// Matches a token after whitespace; the twin of `spec_tok`.
pub fn tok(s: &Vec<char>, pos: usize, t: &str) -> (r: Option<usize>)
    requires
        pos <= s@.len(),
    ensures
        match r {
            Some(p) => {
                &&& pos <= p <= s@.len()
                &&& spec_tok(s@.skip(pos as int), t@) == Some(s@.skip(p as int))
            },
            None => spec_tok(s@.skip(pos as int), t@) is None,
        },
{
    let p1 = skip_ws(s, pos);
    expect(s, p1, t)
}

/// Pushing onto a vector pushes onto its deep view.
pub proof fn lemma_deep_push<T: DeepView>(v0: Vec<T>, v1: Vec<T>, x: T)
    requires
        v1@ == v0@.push(x),
    ensures
        v1.deep_view() == v0.deep_view().push(x.deep_view()),
{
    assert(v1.deep_view() =~= v0.deep_view().push(x.deep_view()));
}

/// A fresh vector has the empty deep view.
pub proof fn lemma_deep_empty<T: DeepView>(v: Vec<T>)
    requires
        v@ == Seq::<T>::empty(),
    ensures
        v.deep_view() == Seq::<T::V>::empty(),
{
    assert(v.deep_view() =~= Seq::<T::V>::empty());
}

// ---------------------------------------------------------------------
// Values.
// ---------------------------------------------------------------------

/// A value: a boolean or range-end keyword, an integer or string
/// literal, a brace-delimited value list, or a reference to a value
/// declared elsewhere (a lower-case identifier).
pub open spec fn spec_value(t: Seq<char>, fuel: nat) -> Option<(ASN1ValueV, Seq<char>)>
    decreases fuel, 1int,
{
    if fuel == 0 {
        None
    } else if spec_tok(t, "TRUE"@) is Some {
        Some((ASN1ValueV::Boolean(true), spec_tok(t, "TRUE"@)->Some_0))
    } else if spec_tok(t, "FALSE"@) is Some {
        Some((ASN1ValueV::Boolean(false), spec_tok(t, "FALSE"@)->Some_0))
    } else if spec_tok(t, "MAX"@) is Some {
        Some((ASN1ValueV::Max, spec_tok(t, "MAX"@)->Some_0))
    } else if spec_tok(t, "MIN"@) is Some {
        Some((ASN1ValueV::Min, spec_tok(t, "MIN"@)->Some_0))
    } else if spec_integer(spec_skip_ws(t)) is Some {
        let (v, rem) = spec_integer(spec_skip_ws(t))->Some_0;
        Some((ASN1ValueV::Integer(v), rem))
    } else if spec_string_lit(spec_skip_ws(t)) is Some {
        let (v, rem) = spec_string_lit(spec_skip_ws(t))->Some_0;
        Some((ASN1ValueV::StringValue(v), rem))
    } else if spec_tok(t, "{"@) is Some {
        spec_seq_value(t, (fuel - 1) as nat)
    } else {
        let t1 = spec_skip_ws(t);
        if t1.len() > 0 && spec_is_lower(t1[0]) && spec_identifier(t1) is Some {
            let (name, rem) = spec_identifier(t1)->Some_0;
            Some((ASN1ValueV::ElsewhereDeclaredValue(name), rem))
        } else {
            None
        }
    }
}

/// A brace-delimited, comma-separated value list; each element may be
/// prefixed by an identifier-like token that is parsed and discarded.
pub open spec fn spec_seq_value(t: Seq<char>, fuel: nat) -> Option<(ASN1ValueV, Seq<char>)>
    decreases fuel, 0int,
{
    if fuel == 0 {
        None
    } else {
        match spec_tok(t, "{"@) {
            None => None,
            Some(t1) => {
                if spec_tok(t1, "}"@) is Some {
                    Some((
                        ASN1ValueV::SequenceOrSetOf(Seq::empty()),
                        spec_tok(t1, "}"@)->Some_0,
                    ))
                } else {
                    match spec_value_items(t1, (fuel - 1) as nat, Seq::empty()) {
                        None => None,
                        Some((items, t2)) => match spec_tok(t2, "}"@) {
                            None => None,
                            Some(t3) => Some((ASN1ValueV::SequenceOrSetOf(items), t3)),
                        },
                    }
                }
            },
        }
    }
}

/// One element of a value list: an optional discarded field-name token,
/// then a value.
pub open spec fn spec_value_item(t: Seq<char>, fuel: nat) -> Option<(ASN1ValueV, Seq<char>)>
    decreases fuel, 2int,
{
    if fuel == 0 {
        None
    } else {
        let t1 = spec_skip_ws(t);
        let prefixed = if t1.len() > 0 && spec_is_lower(t1[0]) && spec_identifier(t1) is Some {
            let (_name, rem) = spec_identifier(t1)->Some_0;
            spec_value(rem, (fuel - 1) as nat)
        } else {
            None
        };
        if prefixed is Some {
            prefixed
        } else {
            spec_value(t, (fuel - 1) as nat)
        }
    }
}

/// The comma-separated tail of a value list.
pub open spec fn spec_value_items(t: Seq<char>, fuel: nat, acc: Seq<ASN1ValueV>) -> Option<
    (Seq<ASN1ValueV>, Seq<char>),
>
    decreases fuel, 3int,
{
    if fuel == 0 {
        None
    } else {
        match spec_value_item(t, (fuel - 1) as nat) {
            None => None,
            Some((v, rem)) => {
                match spec_tok(rem, ","@) {
                    Some(rem2) => spec_value_items(rem2, (fuel - 1) as nat, acc.push(v)),
                    None => Some((acc.push(v), rem)),
                }
            },
        }
    }
}

/// A double-quoted string literal (no escape forms).
pub open spec fn spec_string_lit(t: Seq<char>) -> Option<(Seq<char>, Seq<char>)> {
    if t.len() > 0 && t[0] == '"' {
        match spec_quote_distance(t.skip(1)) {
            Some(n) => Some((t.skip(1).take(n as int), t.skip(1).skip(n + 1 as int))),
            None => None,
        }
    } else {
        None
    }
}

/// Distance to the next double quote.
pub open spec fn spec_quote_distance(t: Seq<char>) -> Option<nat>
    decreases t.len(),
{
    if t.len() == 0 {
        None
    } else if t[0] == '"' {
        Some(0)
    } else {
        match spec_quote_distance(t.skip(1)) {
            Some(n) => Some(n + 1),
            None => None,
        }
    }
}

/// Finds the next double quote; the twin of `spec_quote_distance`.
fn quote_distance(s: &Vec<char>, pos: usize) -> (r: Option<usize>)
    requires
        pos <= s@.len(),
    ensures
        match r {
            Some(n) => {
                &&& pos + n < s@.len()
                &&& spec_quote_distance(s@.skip(pos as int)) == Some(n as nat)
            },
            None => spec_quote_distance(s@.skip(pos as int)) is None,
        },
    decreases s@.len() - pos,
{
    if pos < s.len() {
        if s[pos] == '"' {
            Some(0)
        } else {
            proof {
                crate::lexer::lemma_skip_skip(s@, pos as int, 1);
            }
            match quote_distance(s, pos + 1) {
                Some(n) => Some(n + 1),
                None => None,
            }
        }
    } else {
        None
    }
}

/// Parses a string literal at `pos` (no leading whitespace skip); the
/// twin of `spec_string_lit`.
fn string_lit(s: &Vec<char>, pos: usize) -> (r: Option<(String, usize)>)
    requires
        pos <= s@.len(),
    ensures
        match r {
            Some((v, p)) => {
                &&& pos <= p <= s@.len()
                &&& spec_string_lit(s@.skip(pos as int)) == Some((v@, s@.skip(p as int)))
            },
            None => spec_string_lit(s@.skip(pos as int)) is None,
        },
{
    if pos < s.len() && s[pos] == '"' {
        proof {
            crate::lexer::lemma_skip_skip(s@, pos as int, 1);
        }
        match quote_distance(s, pos + 1) {
            Some(n) => {
                let mut body: Vec<char> = Vec::new();
                let mut i: usize = 0;
                while i < n
                    invariant
                        s@.len() <= usize::MAX,
                        pos + 1 + n < s@.len(),
                        i <= n,
                        body@ == s@.skip(pos + 1).take(n as int).take(i as int),
                    decreases n - i,
                {
                    body.push(s[pos + 1 + i]);
                    proof {
                        let t = s@.skip(pos + 1).take(n as int);
                        assert(t.take(i + 1) =~= t.take(i as int).push(t[i as int]));
                    }
                    i = i + 1;
                }
                proof {
                    let t = s@.skip(pos + 1).take(n as int);
                    assert(t.take(n as int) =~= t);
                    crate::lexer::lemma_skip_skip(s@, pos + 1, n as int);
                    crate::lexer::lemma_skip_skip(s@, pos + 1, n + 1);
                }
                Some((crate::text::string_of(&body), pos + 1 + n + 1))
            },
            None => None,
        }
    } else {
        None
    }
}

/// Parses a value; the twin of `spec_value`.
pub fn value(s: &Vec<char>, pos: usize, fuel: usize) -> (r: Option<(ASN1Value, usize)>)
    requires
        pos <= s@.len(),
    ensures
        match r {
            Some((v, p)) => {
                &&& pos <= p <= s@.len()
                &&& spec_value(s@.skip(pos as int), fuel as nat) == Some(
                    (v.deep_view(), s@.skip(p as int)),
                )
            },
            None => spec_value(s@.skip(pos as int), fuel as nat) is None,
        },
    decreases fuel, 1int,
{
    if fuel == 0 {
        return None;
    }
    if let Some(p) = tok(s, pos, "TRUE") {
        return Some((ASN1Value::Boolean(true), p));
    }
    if let Some(p) = tok(s, pos, "FALSE") {
        return Some((ASN1Value::Boolean(false), p));
    }
    if let Some(p) = tok(s, pos, "MAX") {
        return Some((ASN1Value::Max, p));
    }
    if let Some(p) = tok(s, pos, "MIN") {
        return Some((ASN1Value::Min, p));
    }
    let pw = skip_ws(s, pos);
    if let Some((v, p)) = integer(s, pw) {
        return Some((ASN1Value::Integer(v), p));
    }
    if let Some((body, p)) = string_lit(s, pw) {
        return Some((ASN1Value::StringValue(body), p));
    }
    if tok(s, pos, "{").is_some() {
        return seq_value(s, pos, fuel - 1);
    }
    if pw < s.len() && crate::lexer::is_lower_exec(s[pw]) {
        proof {
            assert(s@.skip(pw as int)[0] == s@[pw as int]);
        }
        if let Some((name, p)) = identifier(s, pw) {
            return Some((ASN1Value::ElsewhereDeclaredValue(name), p));
        }
        return None;
    }
    proof {
        if s@.skip(pw as int).len() > 0 {
            assert(s@.skip(pw as int)[0] == s@[pw as int]);
        }
    }
    None
}

/// Parses a brace-delimited value list; the twin of `spec_seq_value`.
pub fn seq_value(s: &Vec<char>, pos: usize, fuel: usize) -> (r: Option<(ASN1Value, usize)>)
    requires
        pos <= s@.len(),
    ensures
        match r {
            Some((v, p)) => {
                &&& pos <= p <= s@.len()
                &&& spec_seq_value(s@.skip(pos as int), fuel as nat) == Some(
                    (v.deep_view(), s@.skip(p as int)),
                )
            },
            None => spec_seq_value(s@.skip(pos as int), fuel as nat) is None,
        },
    decreases fuel, 0int,
{
    if fuel == 0 {
        return None;
    }
    match tok(s, pos, "{") {
        None => None,
        Some(p1) => {
            if let Some(p2) = tok(s, p1, "}") {
                let items: Vec<ASN1Value> = Vec::new();
                proof {
                    lemma_deep_empty(items);
                    crate::intermediate::lemma_value_list_deep(items);
                }
                return Some((ASN1Value::SequenceOrSetOf(items), p2));
            }
            let acc: Vec<ASN1Value> = Vec::new();
            proof {
                lemma_deep_empty(acc);
            }
            match value_items(s, p1, fuel - 1, acc) {
                None => None,
                Some((items, p2)) => match tok(s, p2, "}") {
                    None => None,
                    Some(p3) => {
                        proof {
                            crate::intermediate::lemma_value_list_deep(items);
                        }
                        Some((ASN1Value::SequenceOrSetOf(items), p3))
                    },
                },
            }
        },
    }
}

/// Parses one value-list element; the twin of `spec_value_item`.
fn value_item(s: &Vec<char>, pos: usize, fuel: usize) -> (r: Option<(ASN1Value, usize)>)
    requires
        pos <= s@.len(),
    ensures
        match r {
            Some((v, p)) => {
                &&& pos <= p <= s@.len()
                &&& spec_value_item(s@.skip(pos as int), fuel as nat) == Some(
                    (v.deep_view(), s@.skip(p as int)),
                )
            },
            None => spec_value_item(s@.skip(pos as int), fuel as nat) is None,
        },
    decreases fuel, 2int,
{
    if fuel == 0 {
        return None;
    }
    let pw = skip_ws(s, pos);
    if pw < s.len() && crate::lexer::is_lower_exec(s[pw]) {
        proof {
            assert(s@.skip(pw as int)[0] == s@[pw as int]);
        }
        if let Some((_name, p1)) = identifier(s, pw) {
            if let Some((v, p2)) = value(s, p1, fuel - 1) {
                return Some((v, p2));
            }
        }
    } else {
        proof {
            if s@.skip(pw as int).len() > 0 {
                assert(s@.skip(pw as int)[0] == s@[pw as int]);
            }
        }
    }
    value(s, pos, fuel - 1)
}

/// Parses the comma-separated elements of a value list; the twin of
/// `spec_value_items`.
fn value_items(s: &Vec<char>, pos: usize, fuel: usize, acc: Vec<ASN1Value>) -> (r: Option<
    (Vec<ASN1Value>, usize),
>)
    requires
        pos <= s@.len(),
    ensures
        match r {
            Some((vs, p)) => {
                &&& pos <= p <= s@.len()
                &&& spec_value_items(s@.skip(pos as int), fuel as nat, acc.deep_view())
                    == Some((vs.deep_view(), s@.skip(p as int)))
            },
            None => spec_value_items(s@.skip(pos as int), fuel as nat, acc.deep_view()) is None,
        },
    decreases fuel, 3int,
{
    if fuel == 0 {
        return None;
    }
    match value_item(s, pos, fuel - 1) {
        None => None,
        Some((v, p1)) => {
            let ghost acc0 = acc.deep_view();
            let ghost vv = v.deep_view();
            let mut acc2 = acc;
            acc2.push(v);
            proof {
                assert(acc2.deep_view() =~= acc0.push(vv));
            }
            match tok(s, p1, ",") {
                Some(p2) => value_items(s, p2, fuel - 1, acc2),
                None => Some((acc2, p1)),
            }
        },
    }
}

// ---------------------------------------------------------------------
// Constraints.
// ---------------------------------------------------------------------

/// An optional `, ...` extensibility marker; returns whether it was
/// present and the remainder.
pub open spec fn spec_ellipsis(t: Seq<char>) -> (bool, Seq<char>) {
    match spec_tok(t, ","@) {
        Some(t1) => match spec_tok(t1, "..."@) {
            Some(t2) => (true, t2),
            None => (false, t),
        },
        None => (false, t),
    }
}

/// Consumes an optional `, ...`; the twin of `spec_ellipsis`.
fn ellipsis(s: &Vec<char>, pos: usize) -> (r: (bool, usize))
    requires
        pos <= s@.len(),
    ensures
        pos <= r.1 <= s@.len(),
        spec_ellipsis(s@.skip(pos as int)) == (r.0, s@.skip(r.1 as int)),
{
    if let Some(p1) = tok(s, pos, ",") {
        if let Some(p2) = tok(s, p1, "...") {
            return (true, p2);
        }
        return (false, pos);
    }
    (false, pos)
}

/// Minimum bound of a range: the `MIN` keyword means "unbounded".
pub open spec fn spec_lower_bound(v: ASN1ValueV) -> Option<ASN1ValueV> {
    if v is Min {
        None
    } else {
        Some(v)
    }
}

/// Maximum bound of a range: the `MAX` keyword means "unbounded".
pub open spec fn spec_upper_bound(v: ASN1ValueV) -> Option<ASN1ValueV> {
    if v is Max {
        None
    } else {
        Some(v)
    }
}

/// One subtype element: a size constraint, a value range, or a single
/// value, each with its own extensibility marker.
pub open spec fn spec_element(t: Seq<char>, fuel: nat) -> Option<(SubtypeElementV, Seq<char>)>
    decreases fuel, 0int,
{
    if fuel == 0 {
        None
    } else if spec_tok(t, "SIZE"@) is Some {
        let t1 = spec_tok(t, "SIZE"@)->Some_0;
        match spec_tok(t1, "("@) {
            None => None,
            Some(t2) => match spec_element_set(t2, (fuel - 1) as nat) {
                None => None,
                Some((es, t3)) => match spec_tok(t3, ")"@) {
                    None => None,
                    Some(t4) => Some((SubtypeElementV::SizeConstraint(seq![es.set]), t4)),
                },
            },
        }
    } else {
        match spec_value(t, (fuel - 1) as nat) {
            None => None,
            Some((v1, r1)) => {
                match spec_tok(r1, ".."@) {
                    Some(r2) => match spec_value(r2, (fuel - 1) as nat) {
                        None => None,
                        Some((v2, r3)) => {
                            let (ext, r4) = spec_ellipsis(r3);
                            Some((
                                SubtypeElementV::ValueRange {
                                    min: spec_lower_bound(v1),
                                    max: spec_upper_bound(v2),
                                    extensible: ext,
                                },
                                r4,
                            ))
                        },
                    },
                    None => {
                        let (ext, r2) = spec_ellipsis(r1);
                        Some((SubtypeElementV::SingleValue { value: v1, extensible: ext }, r2))
                    },
                }
            },
        }
    }
}

/// A constraint tree: one element, or a set operation joining it to a
/// further tree.
pub open spec fn spec_element_or_set(t: Seq<char>, fuel: nat) -> Option<
    (ElementOrSetOperationV, Seq<char>),
>
    decreases fuel, 1int,
{
    if fuel == 0 {
        None
    } else {
        match spec_element(t, (fuel - 1) as nat) {
            None => None,
            Some((el, r1)) => {
                let op = if spec_tok(r1, "UNION"@) is Some {
                    Some((SetOperator::Union, spec_tok(r1, "UNION"@)->Some_0))
                } else if spec_tok(r1, "|"@) is Some {
                    Some((SetOperator::Union, spec_tok(r1, "|"@)->Some_0))
                } else if spec_tok(r1, "INTERSECTION"@) is Some {
                    Some((SetOperator::Intersection, spec_tok(r1, "INTERSECTION"@)->Some_0))
                } else if spec_tok(r1, "^"@) is Some {
                    Some((SetOperator::Intersection, spec_tok(r1, "^"@)->Some_0))
                } else if spec_tok(r1, "EXCEPT"@) is Some {
                    Some((SetOperator::Except, spec_tok(r1, "EXCEPT"@)->Some_0))
                } else {
                    None
                };
                match op {
                    None => Some((ElementOrSetOperationV::Element(el), r1)),
                    Some((operator, r2)) => match spec_element_or_set(r2, (fuel - 1) as nat) {
                        None => None,
                        Some((rest, r3)) => Some((
                            ElementOrSetOperationV::SetOperation(
                                SetOperationV { base: el, operator, operant: seq![rest] },
                            ),
                            r3,
                        )),
                    },
                }
            },
        }
    }
}

/// A full element set: a constraint tree and the set-level
/// extensibility marker.
pub open spec fn spec_element_set(t: Seq<char>, fuel: nat) -> Option<(ElementSetV, Seq<char>)>
    decreases fuel, 2int,
{
    if fuel == 0 {
        None
    } else {
        match spec_element_or_set(t, (fuel - 1) as nat) {
            None => None,
            Some((op, r1)) => {
                let (ext, r2) = spec_ellipsis(r1);
                Some((ElementSetV { set: op, extensible: ext }, r2))
            },
        }
    }
}

/// A subtype constraint: either a bare `SIZE (...)` (as written before
/// `OF` in a repetition type) or a parenthesized element set.
pub open spec fn spec_constraint(t: Seq<char>, fuel: nat) -> Option<(ConstraintV, Seq<char>)>
    decreases fuel, 3int,
{
    if fuel == 0 {
        None
    } else if spec_tok(t, "SIZE"@) is Some {
        match spec_element(t, (fuel - 1) as nat) {
            None => None,
            Some((el, r1)) => Some((
                ConstraintV::SubtypeConstraint(
                    ElementSetV { set: ElementOrSetOperationV::Element(el), extensible: false },
                ),
                r1,
            )),
        }
    } else {
        match spec_tok(t, "("@) {
            None => None,
            Some(t1) => match spec_element_set(t1, (fuel - 1) as nat) {
                None => None,
                Some((es, t2)) => match spec_tok(t2, ")"@) {
                    None => None,
                    Some(t3) => Some((ConstraintV::SubtypeConstraint(es), t3)),
                },
            },
        }
    }
}

/// The items of a `{{ ... }}` object-set parameter.
pub open spec fn spec_objset_items(
    t: Seq<char>,
    fuel: nat,
    acc: Seq<ObjectSetValueV>,
    ext: Option<usize>,
) -> Option<(Seq<ObjectSetValueV>, Option<usize>, Seq<char>)>
    decreases fuel,
{
    if fuel == 0 {
        None
    } else if spec_tok(t, "}}"@) is Some {
        Some((acc, ext, spec_tok(t, "}}"@)->Some_0))
    } else if spec_tok(t, "..."@) is Some {
        let r1 = spec_tok(t, "..."@)->Some_0;
        let r2 = if spec_tok(r1, ","@) is Some {
            spec_tok(r1, ","@)->Some_0
        } else {
            r1
        };
        spec_objset_items(r2, (fuel - 1) as nat, acc, Some(acc.len() as usize))
    } else {
        let t1 = spec_skip_ws(t);
        match spec_identifier(t1) {
            None => None,
            Some((name, r1)) => {
                let r2 = if spec_tok(r1, ","@) is Some {
                    spec_tok(r1, ","@)->Some_0
                } else {
                    r1
                };
                spec_objset_items(
                    r2,
                    (fuel - 1) as nat,
                    acc.push(ObjectSetValueV::Reference(name)),
                    ext,
                )
            },
        }
    }
}

/// A `{{ ObjectSet }}` parameter constraint at a delegation point.
pub open spec fn spec_param_constraint(t: Seq<char>, fuel: nat) -> Option<
    (ConstraintV, Seq<char>),
>
    decreases fuel, 1int,
{
    if fuel == 0 {
        None
    } else {
        match spec_tok(t, "{{"@) {
            None => None,
            Some(t1) => match spec_objset_items(t1, (fuel - 1) as nat, Seq::empty(), None) {
                None => None,
                Some((values, ext, r1)) => Some((
                    ConstraintV::Parameter(
                        seq![
                            ParameterV::ObjectSetParameter(
                                ObjectSetV { values, extensible: ext },
                            )
                        ],
                    ),
                    r1,
                )),
            },
        }
    }
}

/// As many constraints as follow a type: parameter constraints and
/// subtype constraints, in source order.
pub open spec fn spec_constraints(t: Seq<char>, fuel: nat, acc: Seq<ConstraintV>) -> (
    Seq<ConstraintV>,
    Seq<char>,
)
    decreases fuel, 4int,
{
    if fuel == 0 {
        (acc, t)
    } else if spec_param_constraint(t, (fuel - 1) as nat) is Some {
        let (c, r1) = spec_param_constraint(t, (fuel - 1) as nat)->Some_0;
        spec_constraints(r1, (fuel - 1) as nat, acc.push(c))
    } else if spec_constraint(t, (fuel - 1) as nat) is Some {
        let (c, r1) = spec_constraint(t, (fuel - 1) as nat)->Some_0;
        spec_constraints(r1, (fuel - 1) as nat, acc.push(c))
    } else {
        (acc, t)
    }
}

/// An optional extra parenthesis layer around a constraint: both forms
/// yield the constraint itself, so the layer leaves no trace in the
/// tree.
pub open spec fn spec_opt_paren_constraint(t: Seq<char>, fuel: nat) -> Option<
    (ConstraintV, Seq<char>),
>
    decreases fuel, 5int,
{
    if fuel == 0 {
        None
    } else {
        let wrapped = match spec_tok(t, "("@) {
            Some(t1) => match spec_constraint(t1, (fuel - 1) as nat) {
                Some((c, t2)) => match spec_tok(t2, ")"@) {
                    Some(t3) => Some((c, t3)),
                    None => None,
                },
                None => None,
            },
            None => None,
        };
        if wrapped is Some {
            wrapped
        } else {
            spec_constraint(t, (fuel - 1) as nat)
        }
    }
}

/// Parses one subtype element; the twin of `spec_element`.
fn element(s: &Vec<char>, pos: usize, fuel: usize) -> (r: Option<(SubtypeElement, usize)>)
    requires
        pos <= s@.len(),
    ensures
        match r {
            Some((el, p)) => {
                &&& pos <= p <= s@.len()
                &&& spec_element(s@.skip(pos as int), fuel as nat) == Some(
                    (el.deep_view(), s@.skip(p as int)),
                )
            },
            None => spec_element(s@.skip(pos as int), fuel as nat) is None,
        },
    decreases fuel, 0int,
{
    if fuel == 0 {
        return None;
    }
    if let Some(p1) = tok(s, pos, "SIZE") {
        match tok(s, p1, "(") {
            None => None,
            Some(p2) => match element_set(s, p2, fuel - 1) {
                None => None,
                Some((es, p3)) => match tok(s, p3, ")") {
                    None => None,
                    Some(p4) => Some((
                        SubtypeElement::SizeConstraint(Box::new(es.set)),
                        p4,
                    )),
                },
            },
        }
    } else {
        match value(s, pos, fuel - 1) {
            None => None,
            Some((v1, q1)) => {
                match tok(s, q1, "..") {
                    Some(q2) => match value(s, q2, fuel - 1) {
                        None => None,
                        Some((v2, q3)) => {
                            let (ext, q4) = ellipsis(s, q3);
                            let min = if matches!(v1, ASN1Value::Min) {
                                None
                            } else {
                                Some(v1)
                            };
                            let max = if matches!(v2, ASN1Value::Max) {
                                None
                            } else {
                                Some(v2)
                            };
                            Some((
                                SubtypeElement::ValueRange { min, max, extensible: ext },
                                q4,
                            ))
                        },
                    },
                    None => {
                        let (ext, q2) = ellipsis(s, q1);
                        Some((SubtypeElement::SingleValue { value: v1, extensible: ext }, q2))
                    },
                }
            },
        }
    }
}

/// Parses a constraint tree; the twin of `spec_element_or_set`.
fn element_or_set(s: &Vec<char>, pos: usize, fuel: usize) -> (r: Option<
    (ElementOrSetOperation, usize),
>)
    requires
        pos <= s@.len(),
    ensures
        match r {
            Some((op, p)) => {
                &&& pos <= p <= s@.len()
                &&& spec_element_or_set(s@.skip(pos as int), fuel as nat) == Some(
                    (op.deep_view(), s@.skip(p as int)),
                )
            },
            None => spec_element_or_set(s@.skip(pos as int), fuel as nat) is None,
        },
    decreases fuel, 1int,
{
    if fuel == 0 {
        return None;
    }
    match element(s, pos, fuel - 1) {
        None => None,
        Some((el, q1)) => {
            let op: Option<(SetOperator, usize)> = if let Some(q2) = tok(s, q1, "UNION") {
                Some((SetOperator::Union, q2))
            } else if let Some(q2) = tok(s, q1, "|") {
                Some((SetOperator::Union, q2))
            } else if let Some(q2) = tok(s, q1, "INTERSECTION") {
                Some((SetOperator::Intersection, q2))
            } else if let Some(q2) = tok(s, q1, "^") {
                Some((SetOperator::Intersection, q2))
            } else if let Some(q2) = tok(s, q1, "EXCEPT") {
                Some((SetOperator::Except, q2))
            } else {
                None
            };
            match op {
                None => Some((ElementOrSetOperation::Element(el), q1)),
                Some((operator, q2)) => match element_or_set(s, q2, fuel - 1) {
                    None => None,
                    Some((rest, q3)) => Some((
                        ElementOrSetOperation::SetOperation(
                            SetOperation { base: el, operator, operant: Box::new(rest) },
                        ),
                        q3,
                    )),
                },
            }
        },
    }
}

/// Parses an element set; the twin of `spec_element_set`.
fn element_set(s: &Vec<char>, pos: usize, fuel: usize) -> (r: Option<(ElementSet, usize)>)
    requires
        pos <= s@.len(),
    ensures
        match r {
            Some((es, p)) => {
                &&& pos <= p <= s@.len()
                &&& spec_element_set(s@.skip(pos as int), fuel as nat) == Some(
                    (es.deep_view(), s@.skip(p as int)),
                )
            },
            None => spec_element_set(s@.skip(pos as int), fuel as nat) is None,
        },
    decreases fuel, 2int,
{
    if fuel == 0 {
        return None;
    }
    match element_or_set(s, pos, fuel - 1) {
        None => None,
        Some((op, q1)) => {
            let (ext, q2) = ellipsis(s, q1);
            Some((ElementSet { set: op, extensible: ext }, q2))
        },
    }
}

/// Parses a subtype constraint; the twin of `spec_constraint`.
pub fn constraint(s: &Vec<char>, pos: usize, fuel: usize) -> (r: Option<(Constraint, usize)>)
    requires
        pos <= s@.len(),
    ensures
        match r {
            Some((c, p)) => {
                &&& pos <= p <= s@.len()
                &&& spec_constraint(s@.skip(pos as int), fuel as nat) == Some(
                    (c.deep_view(), s@.skip(p as int)),
                )
            },
            None => spec_constraint(s@.skip(pos as int), fuel as nat) is None,
        },
    decreases fuel, 3int,
{
    if fuel == 0 {
        return None;
    }
    if tok(s, pos, "SIZE").is_some() {
        match element(s, pos, fuel - 1) {
            None => None,
            Some((el, p1)) => Some((
                Constraint::SubtypeConstraint(
                    ElementSet { set: ElementOrSetOperation::Element(el), extensible: false },
                ),
                p1,
            )),
        }
    } else {
        match tok(s, pos, "(") {
            None => None,
            Some(p1) => match element_set(s, p1, fuel - 1) {
                None => None,
                Some((es, p2)) => match tok(s, p2, ")") {
                    None => None,
                    Some(p3) => Some((Constraint::SubtypeConstraint(es), p3)),
                },
            },
        }
    }
}

/// Parses object-set items; the twin of `spec_objset_items`.
fn objset_items(
    s: &Vec<char>,
    pos: usize,
    fuel: usize,
    acc: Vec<ObjectSetValue>,
    ext: Option<usize>,
) -> (r: Option<(Vec<ObjectSetValue>, Option<usize>, usize)>)
    requires
        pos <= s@.len(),
    ensures
        match r {
            Some((vs, e, p)) => {
                &&& pos <= p <= s@.len()
                &&& spec_objset_items(s@.skip(pos as int), fuel as nat, acc.deep_view(), ext)
                    == Some((vs.deep_view(), e, s@.skip(p as int)))
            },
            None => spec_objset_items(
                s@.skip(pos as int),
                fuel as nat,
                acc.deep_view(),
                ext,
            ) is None,
        },
    decreases fuel,
{
    if fuel == 0 {
        return None;
    }
    if let Some(p1) = tok(s, pos, "}}") {
        return Some((acc, ext, p1));
    }
    if let Some(p1) = tok(s, pos, "...") {
        let p2 = if let Some(q) = tok(s, p1, ",") {
            q
        } else {
            p1
        };
        let n = acc.len();
        return objset_items(s, p2, fuel - 1, acc, Some(n));
    }
    let pw = skip_ws(s, pos);
    match identifier(s, pw) {
        None => None,
        Some((name, q1)) => {
            let q2 = if let Some(q) = tok(s, q1, ",") {
                q
            } else {
                q1
            };
            let ghost acc0 = acc.deep_view();
            let ghost nv = name@;
            let mut acc2 = acc;
            acc2.push(ObjectSetValue::Reference(name));
            proof {
                assert(acc2.deep_view() =~= acc0.push(ObjectSetValueV::Reference(nv)));
            }
            objset_items(s, q2, fuel - 1, acc2, ext)
        },
    }
}

/// Parses a `{{ ... }}` parameter constraint; the twin of
/// `spec_param_constraint`.
fn param_constraint(s: &Vec<char>, pos: usize, fuel: usize) -> (r: Option<(Constraint, usize)>)
    requires
        pos <= s@.len(),
    ensures
        match r {
            Some((c, p)) => {
                &&& pos <= p <= s@.len()
                &&& spec_param_constraint(s@.skip(pos as int), fuel as nat) == Some(
                    (c.deep_view(), s@.skip(p as int)),
                )
            },
            None => spec_param_constraint(s@.skip(pos as int), fuel as nat) is None,
        },
    decreases fuel, 1int,
{
    if fuel == 0 {
        return None;
    }
    match tok(s, pos, "{{") {
        None => None,
        Some(p1) => {
            let acc: Vec<ObjectSetValue> = Vec::new();
            proof {
                lemma_deep_empty(acc);
            }
            match objset_items(s, p1, fuel - 1, acc, None) {
                None => None,
                Some((values, ext, p2)) => {
                    let mut params: Vec<Parameter> = Vec::new();
                    proof {
                        lemma_deep_empty(params);
                    }
                    let ghost vdv = values.deep_view();
                    params.push(
                        Parameter::ObjectSetParameter(ObjectSet { values, extensible: ext }),
                    );
                    proof {
                        assert(params.deep_view() =~= seq![
                            ParameterV::ObjectSetParameter(
                                ObjectSetV { values: vdv, extensible: ext },
                            )
                        ]);
                    }
                    Some((Constraint::Parameter(params), p2))
                },
            }
        },
    }
}

/// Parses the constraint list after a type; the twin of
/// `spec_constraints`.
pub fn constraints(s: &Vec<char>, pos: usize, fuel: usize, acc: Vec<Constraint>) -> (r: (
    Vec<Constraint>,
    usize,
))
    requires
        pos <= s@.len(),
    ensures
        pos <= r.1 <= s@.len(),
        spec_constraints(s@.skip(pos as int), fuel as nat, acc.deep_view()) == (
            r.0.deep_view(),
            s@.skip(r.1 as int),
        ),
    decreases fuel, 4int,
{
    if fuel == 0 {
        return (acc, pos);
    }
    if let Some((c, p1)) = param_constraint(s, pos, fuel - 1) {
        let ghost acc0 = acc.deep_view();
        let ghost cv = c.deep_view();
        let mut acc2 = acc;
        acc2.push(c);
        proof {
            assert(acc2.deep_view() =~= acc0.push(cv));
        }
        return constraints(s, p1, fuel - 1, acc2);
    }
    if let Some((c, p1)) = constraint(s, pos, fuel - 1) {
        let ghost acc0 = acc.deep_view();
        let ghost cv = c.deep_view();
        let mut acc2 = acc;
        acc2.push(c);
        proof {
            assert(acc2.deep_view() =~= acc0.push(cv));
        }
        return constraints(s, p1, fuel - 1, acc2);
    }
    (acc, pos)
}

/// Parses a constraint with an optional extra parenthesis layer; the
/// twin of `spec_opt_paren_constraint`.
pub fn opt_paren_constraint(s: &Vec<char>, pos: usize, fuel: usize) -> (r: Option<
    (Constraint, usize),
>)
    requires
        pos <= s@.len(),
    ensures
        match r {
            Some((c, p)) => {
                &&& pos <= p <= s@.len()
                &&& spec_opt_paren_constraint(s@.skip(pos as int), fuel as nat) == Some(
                    (c.deep_view(), s@.skip(p as int)),
                )
            },
            None => spec_opt_paren_constraint(s@.skip(pos as int), fuel as nat) is None,
        },
    decreases fuel, 5int,
{
    if fuel == 0 {
        return None;
    }
    if let Some(p1) = tok(s, pos, "(") {
        if let Some((c, p2)) = constraint(s, p1, fuel - 1) {
            if let Some(p3) = tok(s, p2, ")") {
                return Some((c, p3));
            }
        }
    }
    constraint(s, pos, fuel - 1)
}

// ---------------------------------------------------------------------
// Types.
// ---------------------------------------------------------------------

/// A named-number entry list (`identifier (N)` pairs) as used by
/// integer and enumerated types; entries without a number take their
/// ordinal.  Consumes the closing brace.
pub open spec fn spec_dv_items(
    t: Seq<char>,
    fuel: nat,
    acc: Seq<DistinguishedValueV>,
    ext: bool,
) -> Option<(Seq<DistinguishedValueV>, bool, Seq<char>)>
    decreases fuel,
{
    if fuel == 0 {
        None
    } else if spec_tok(t, "}"@) is Some {
        Some((acc, ext, spec_tok(t, "}"@)->Some_0))
    } else if spec_tok(t, "..."@) is Some {
        let r1 = spec_tok(t, "..."@)->Some_0;
        let r2 = if spec_tok(r1, ","@) is Some {
            spec_tok(r1, ","@)->Some_0
        } else {
            r1
        };
        spec_dv_items(r2, (fuel - 1) as nat, acc, true)
    } else {
        match spec_identifier(spec_skip_ws(t)) {
            None => None,
            Some((name, r1)) => {
                let numbered = match spec_tok(r1, "("@) {
                    Some(r2) => match spec_integer(spec_skip_ws(r2)) {
                        Some((v, r3)) => match spec_tok(r3, ")"@) {
                            Some(r4) => Some((v, r4)),
                            None => None,
                        },
                        None => None,
                    },
                    None => None,
                };
                let (value, r5) = match numbered {
                    Some((v, r4)) => (v, r4),
                    None => (acc.len() as i128, r1),
                };
                let r6 = if spec_tok(r5, ","@) is Some {
                    spec_tok(r5, ","@)->Some_0
                } else {
                    r5
                };
                spec_dv_items(
                    r6,
                    (fuel - 1) as nat,
                    acc.push(DistinguishedValueV { name, value }),
                    ext,
                )
            },
        }
    }
}

/// An explicit tag before a member type: a bracketed class keyword and
/// number.
pub open spec fn spec_member_tag(t: Seq<char>) -> Option<(AsnTag, Seq<char>)> {
    match spec_tok(t, "["@) {
        None => None,
        Some(t1) => {
            let (class, t2) = if spec_tok(t1, "UNIVERSAL"@) is Some {
                (TagClass::Universal, spec_tok(t1, "UNIVERSAL"@)->Some_0)
            } else if spec_tok(t1, "APPLICATION"@) is Some {
                (TagClass::Application, spec_tok(t1, "APPLICATION"@)->Some_0)
            } else if spec_tok(t1, "PRIVATE"@) is Some {
                (TagClass::Private, spec_tok(t1, "PRIVATE"@)->Some_0)
            } else {
                (TagClass::ContextSpecific, t1)
            };
            match spec_integer(spec_skip_ws(t2)) {
                None => None,
                Some((v, t3)) => {
                    if v < 0 || v > u64::MAX as i128 {
                        None
                    } else {
                        match spec_tok(t3, "]"@) {
                            None => None,
                            Some(t4) => Some((
                                AsnTag {
                                    class,
                                    number: v as u64,
                                    automatic: false,
                                },
                                t4,
                            )),
                        }
                    }
                },
            }
        },
    }
}

/// One member of a structured type: name, optional tag, type, and an
/// optional `DEFAULT` value or `OPTIONAL` marker.
pub open spec fn spec_member(t: Seq<char>, fuel: nat) -> Option<
    (SequenceOrSetMemberV, Seq<char>),
>
    decreases fuel, 4int,
{
    if fuel == 0 {
        None
    } else {
        let t1 = spec_skip_ws(t);
        if t1.len() > 0 && spec_is_lower(t1[0]) && spec_identifier(t1) is Some {
            let (name, r1) = spec_identifier(t1)->Some_0;
            let (tag, r2) = match spec_member_tag(r1) {
                Some((tg, rr)) => (Some(tg), rr),
                None => (None, r1),
            };
            match spec_type(r2, (fuel - 1) as nat) {
                None => None,
                Some((ty, r3)) => {
                    if spec_tok(r3, "DEFAULT"@) is Some {
                        match spec_value(spec_tok(r3, "DEFAULT"@)->Some_0, (fuel - 1) as nat) {
                            None => None,
                            Some((dv, r4)) => Some((
                                SequenceOrSetMemberV {
                                    name,
                                    tag,
                                    member_type: ty,
                                    default_value: Some(dv),
                                    is_optional: false,
                                },
                                r4,
                            )),
                        }
                    } else if spec_tok(r3, "OPTIONAL"@) is Some {
                        Some((
                            SequenceOrSetMemberV {
                                name,
                                tag,
                                member_type: ty,
                                default_value: None,
                                is_optional: true,
                            },
                            spec_tok(r3, "OPTIONAL"@)->Some_0,
                        ))
                    } else {
                        Some((
                            SequenceOrSetMemberV {
                                name,
                                tag,
                                member_type: ty,
                                default_value: None,
                                is_optional: false,
                            },
                            r3,
                        ))
                    }
                },
            }
        } else {
            None
        }
    }
}

/// The members of a structured type, up to and including the closing
/// brace; `...` entries set the extension marker.
pub open spec fn spec_members(
    t: Seq<char>,
    fuel: nat,
    acc: Seq<SequenceOrSetMemberV>,
    ext: bool,
) -> Option<(Seq<SequenceOrSetMemberV>, bool, Seq<char>)>
    decreases fuel, 5int,
{
    if fuel == 0 {
        None
    } else if spec_tok(t, "}"@) is Some {
        Some((acc, ext, spec_tok(t, "}"@)->Some_0))
    } else if spec_tok(t, "..."@) is Some {
        let r1 = spec_tok(t, "..."@)->Some_0;
        let r2 = if spec_tok(r1, ","@) is Some {
            spec_tok(r1, ","@)->Some_0
        } else {
            r1
        };
        spec_members(r2, (fuel - 1) as nat, acc, true)
    } else {
        match spec_member(t, (fuel - 1) as nat) {
            None => None,
            Some((m, r1)) => {
                let r2 = if spec_tok(r1, ","@) is Some {
                    spec_tok(r1, ","@)->Some_0
                } else {
                    r1
                };
                spec_members(r2, (fuel - 1) as nat, acc.push(m), ext)
            },
        }
    }
}

/// Remainder after a balanced parenthesis group, entered at `depth`
/// open parentheses.
pub open spec fn spec_skip_balanced(t: Seq<char>, depth: nat) -> Option<Seq<char>>
    decreases t.len(),
{
    if t.len() == 0 || depth == 0 {
        None
    } else if t[0] == '(' {
        spec_skip_balanced(t.skip(1), depth + 1)
    } else if t[0] == ')' {
        if depth == 1 {
            Some(t.skip(1))
        } else {
            spec_skip_balanced(t.skip(1), (depth - 1) as nat)
        }
    } else {
        spec_skip_balanced(t.skip(1), depth)
    }
}

/// The remainder of a repetition type after its `OF`: an optional,
/// semantically void bound-variable identifier, then the element type.
pub open spec fn spec_of_tail(
    t: Seq<char>,
    fuel: nat,
    cons: Seq<ConstraintV>,
    is_set: bool,
) -> Option<(ASN1TypeV, Seq<char>)>
    decreases fuel, 6int,
{
    if fuel == 0 {
        None
    } else {
        let t1 = spec_skip_ws(t);
        let t2 = if t1.len() > 0 && spec_is_lower(t1[0]) && spec_identifier(t1) is Some {
            spec_identifier(t1)->Some_0.1
        } else {
            t
        };
        match spec_type(t2, (fuel - 1) as nat) {
            None => None,
            Some((el, r1)) => {
                let body = SequenceOrSetOfV { constraints: cons, element_type: seq![el] };
                if is_set {
                    Some((ASN1TypeV::SetOf(body), r1))
                } else {
                    Some((ASN1TypeV::SequenceOf(body), r1))
                }
            },
        }
    }
}

/// What follows the `SEQUENCE` or `SET` keyword: an optional
/// (optionally parenthesized) constraint and `OF` for a repetition
/// type, or a braced member list for a structured type.
pub open spec fn spec_struct_or_of(t: Seq<char>, fuel: nat, is_set: bool) -> Option<
    (ASN1TypeV, Seq<char>),
>
    decreases fuel, 7int,
{
    if fuel == 0 {
        None
    } else {
        match spec_opt_paren_constraint(t, (fuel - 1) as nat) {
            Some((c, r1)) => match spec_tok(r1, "OF"@) {
                None => None,
                Some(r2) => spec_of_tail(r2, (fuel - 1) as nat, seq![c], is_set),
            },
            None => {
                if spec_tok(t, "OF"@) is Some {
                    spec_of_tail(
                        spec_tok(t, "OF"@)->Some_0,
                        (fuel - 1) as nat,
                        Seq::empty(),
                        is_set,
                    )
                } else {
                    match spec_tok(t, "{"@) {
                        None => None,
                        Some(r1) => match spec_members(
                            r1,
                            (fuel - 1) as nat,
                            Seq::empty(),
                            false,
                        ) {
                            None => None,
                            Some((members, ext, r2)) => {
                                let body = SequenceOrSetV { members, extensible: ext };
                                if is_set {
                                    Some((ASN1TypeV::SetType(body), r2))
                                } else {
                                    Some((ASN1TypeV::Sequence(body), r2))
                                }
                            },
                        },
                    }
                }
            },
        }
    }
}

/// A type of the notation; the top-level type parser.
pub open spec fn spec_type(t: Seq<char>, fuel: nat) -> Option<(ASN1TypeV, Seq<char>)>
    decreases fuel, 8int,
{
    if fuel == 0 {
        None
    } else if spec_tok(t, "BOOLEAN"@) is Some {
        let (cs, r1) = spec_constraints(
            spec_tok(t, "BOOLEAN"@)->Some_0,
            (fuel - 1) as nat,
            Seq::empty(),
        );
        Some((ASN1TypeV::Boolean(BooleanV { constraints: cs }), r1))
    } else if spec_tok(t, "INTEGER"@) is Some {
        let r0 = spec_tok(t, "INTEGER"@)->Some_0;
        if spec_tok(r0, "{"@) is Some {
            match spec_dv_items(
                spec_tok(r0, "{"@)->Some_0,
                (fuel - 1) as nat,
                Seq::empty(),
                false,
            ) {
                None => None,
                Some((list, _e, r1)) => {
                    let (cs, r2) = spec_constraints(r1, (fuel - 1) as nat, Seq::empty());
                    Some((
                        ASN1TypeV::Integer(
                            IntegerV {
                                constraints: cs,
                                distinguished_values: Some(list),
                                used_in_const: false,
                            },
                        ),
                        r2,
                    ))
                },
            }
        } else {
            let (cs, r2) = spec_constraints(r0, (fuel - 1) as nat, Seq::empty());
            Some((
                ASN1TypeV::Integer(
                    IntegerV {
                        constraints: cs,
                        distinguished_values: None,
                        used_in_const: false,
                    },
                ),
                r2,
            ))
        }
    } else if spec_string_kind(t) is Some {
        let (kind, kw) = spec_string_kind(t)->Some_0;
        let (cs, r1) = spec_constraints(
            spec_tok(t, kw)->Some_0,
            (fuel - 1) as nat,
            Seq::empty(),
        );
        Some((
            ASN1TypeV::CharacterString(CharacterStringV { constraints: cs, kind }),
            r1,
        ))
    } else if spec_tok(t, "ENUMERATED"@) is Some {
        match spec_tok(spec_tok(t, "ENUMERATED"@)->Some_0, "{"@) {
            None => None,
            Some(r1) => match spec_dv_items(r1, (fuel - 1) as nat, Seq::empty(), false) {
                None => None,
                Some((members, ext, r2)) => Some((
                    ASN1TypeV::Enumerated(EnumeratedV { members, extensible: ext }),
                    r2,
                )),
            },
        }
    } else if spec_tok(t, "SEQUENCE"@) is Some {
        spec_struct_or_of(spec_tok(t, "SEQUENCE"@)->Some_0, (fuel - 1) as nat, false)
    } else if spec_tok(t, "SET"@) is Some {
        spec_struct_or_of(spec_tok(t, "SET"@)->Some_0, (fuel - 1) as nat, true)
    } else if spec_tok(t, "CHOICE"@) is Some {
        match spec_tok(spec_tok(t, "CHOICE"@)->Some_0, "{"@) {
            None => None,
            Some(r1) => match spec_members(r1, (fuel - 1) as nat, Seq::empty(), false) {
                None => None,
                Some((members, ext, r2)) => Some((
                    ASN1TypeV::Choice(SequenceOrSetV { members, extensible: ext }),
                    r2,
                )),
            },
        }
    } else {
        let t1 = spec_skip_ws(t);
        if t1.len() > 0 && spec_is_upper(t1[0]) && spec_identifier(t1) is Some {
            let (name, r1) = spec_identifier(t1)->Some_0;
            match spec_expect(r1, ".&"@) {
                Some(r2) => match spec_identifier(r2) {
                    None => None,
                    Some((field, r3)) => {
                        let after = match spec_tok(r3, "("@) {
                            Some(r4) => spec_skip_balanced(r4, 1),
                            None => Some(r3),
                        };
                        match after {
                            None => None,
                            Some(r5) => Some((
                                ASN1TypeV::InformationObjectFieldReference(
                                    InformationObjectFieldReferenceV { class: name, field },
                                ),
                                r5,
                            )),
                        }
                    },
                },
                None => {
                    let (cs, r2) = spec_constraints(r1, (fuel - 1) as nat, Seq::empty());
                    Some((
                        ASN1TypeV::ElsewhereDeclaredType(
                            DeclarationElsewhereV { identifier: name, constraints: cs },
                        ),
                        r2,
                    ))
                },
            }
        } else {
            None
        }
    }
}

/// Which character-string keyword begins the input, if any.
pub open spec fn spec_string_kind(t: Seq<char>) -> Option<(CharacterStringKind, Seq<char>)> {
    if spec_tok(t, "BMPString"@) is Some {
        Some((CharacterStringKind::BMPString, "BMPString"@))
    } else if spec_tok(t, "UTF8String"@) is Some {
        Some((CharacterStringKind::UTF8String, "UTF8String"@))
    } else if spec_tok(t, "IA5String"@) is Some {
        Some((CharacterStringKind::IA5String, "IA5String"@))
    } else if spec_tok(t, "PrintableString"@) is Some {
        Some((CharacterStringKind::PrintableString, "PrintableString"@))
    } else {
        None
    }
}

/// Parses a named-number list; the twin of `spec_dv_items`.
fn dv_items(
    s: &Vec<char>,
    pos: usize,
    fuel: usize,
    acc: Vec<DistinguishedValue>,
    ext: bool,
) -> (r: Option<(Vec<DistinguishedValue>, bool, usize)>)
    requires
        pos <= s@.len(),
    ensures
        match r {
            Some((vs, e, p)) => {
                &&& pos <= p <= s@.len()
                &&& spec_dv_items(s@.skip(pos as int), fuel as nat, acc.deep_view(), ext)
                    == Some((vs.deep_view(), e, s@.skip(p as int)))
            },
            None => spec_dv_items(
                s@.skip(pos as int),
                fuel as nat,
                acc.deep_view(),
                ext,
            ) is None,
        },
    decreases fuel,
{
    if fuel == 0 {
        return None;
    }
    if let Some(p1) = tok(s, pos, "}") {
        return Some((acc, ext, p1));
    }
    if let Some(p1) = tok(s, pos, "...") {
        let p2 = if let Some(q) = tok(s, p1, ",") {
            q
        } else {
            p1
        };
        return dv_items(s, p2, fuel - 1, acc, true);
    }
    let pw = skip_ws(s, pos);
    match identifier(s, pw) {
        None => None,
        Some((name, q1)) => {
            let numbered: Option<(i128, usize)> = match tok(s, q1, "(") {
                Some(q2) => {
                    let qw = skip_ws(s, q2);
                    match integer(s, qw) {
                        Some((v, q3)) => match tok(s, q3, ")") {
                            Some(q4) => Some((v, q4)),
                            None => None,
                        },
                        None => None,
                    }
                },
                None => None,
            };
            let ghost accd = acc.deep_view();
            let ghost nv = name@;
            let (value, q5): (i128, usize) = match numbered {
                Some((v, q4)) => (v, q4),
                None => (acc.len() as i128, q1),
            };
            let q6 = if let Some(q) = tok(s, q5, ",") {
                q
            } else {
                q5
            };
            let mut acc2 = acc;
            acc2.push(DistinguishedValue { name, value });
            proof {
                assert(acc2.deep_view() =~= accd.push(DistinguishedValueV { name: nv, value }));
            }
            dv_items(s, q6, fuel - 1, acc2, ext)
        },
    }
}

/// Parses an explicit member tag; the twin of `spec_member_tag`.
fn member_tag(s: &Vec<char>, pos: usize) -> (r: Option<(AsnTag, usize)>)
    requires
        pos <= s@.len(),
    ensures
        match r {
            Some((tg, p)) => {
                &&& pos <= p <= s@.len()
                &&& spec_member_tag(s@.skip(pos as int)) == Some((tg, s@.skip(p as int)))
            },
            None => spec_member_tag(s@.skip(pos as int)) is None,
        },
{
    match tok(s, pos, "[") {
        None => None,
        Some(p1) => {
            let (class, p2): (TagClass, usize) = if let Some(q) = tok(s, p1, "UNIVERSAL") {
                (TagClass::Universal, q)
            } else if let Some(q) = tok(s, p1, "APPLICATION") {
                (TagClass::Application, q)
            } else if let Some(q) = tok(s, p1, "PRIVATE") {
                (TagClass::Private, q)
            } else {
                (TagClass::ContextSpecific, p1)
            };
            let pw = skip_ws(s, p2);
            match integer(s, pw) {
                None => None,
                Some((v, p3)) => {
                    if v < 0 || v > u64::MAX as i128 {
                        None
                    } else {
                        match tok(s, p3, "]") {
                            None => None,
                            Some(p4) => Some((
                                AsnTag { class, number: v as u64, automatic: false },
                                p4,
                            )),
                        }
                    }
                },
            }
        },
    }
}

/// Parses one structured-type member; the twin of `spec_member`.
fn member(s: &Vec<char>, pos: usize, fuel: usize) -> (r: Option<(SequenceOrSetMember, usize)>)
    requires
        pos <= s@.len(),
    ensures
        match r {
            Some((m, p)) => {
                &&& pos <= p <= s@.len()
                &&& spec_member(s@.skip(pos as int), fuel as nat) == Some(
                    (m.deep_view(), s@.skip(p as int)),
                )
            },
            None => spec_member(s@.skip(pos as int), fuel as nat) is None,
        },
    decreases fuel, 4int,
{
    if fuel == 0 {
        return None;
    }
    let pw = skip_ws(s, pos);
    if pw < s.len() && crate::lexer::is_lower_exec(s[pw]) {
        proof {
            assert(s@.skip(pw as int)[0] == s@[pw as int]);
        }
        match identifier(s, pw) {
            None => None,
            Some((name, q1)) => {
                let (tag, q2): (Option<AsnTag>, usize) = match member_tag(s, q1) {
                    Some((tg, qq)) => (Some(tg), qq),
                    None => (None, q1),
                };
                match asn1_type(s, q2, fuel - 1) {
                    None => None,
                    Some((ty, q3)) => {
                        if let Some(q4) = tok(s, q3, "DEFAULT") {
                            match value(s, q4, fuel - 1) {
                                None => None,
                                Some((dv, q5)) => Some((
                                    SequenceOrSetMember {
                                        name,
                                        tag,
                                        member_type: ty,
                                        default_value: Some(dv),
                                        is_optional: false,
                                    },
                                    q5,
                                )),
                            }
                        } else if let Some(q4) = tok(s, q3, "OPTIONAL") {
                            Some((
                                SequenceOrSetMember {
                                    name,
                                    tag,
                                    member_type: ty,
                                    default_value: None,
                                    is_optional: true,
                                },
                                q4,
                            ))
                        } else {
                            Some((
                                SequenceOrSetMember {
                                    name,
                                    tag,
                                    member_type: ty,
                                    default_value: None,
                                    is_optional: false,
                                },
                                q3,
                            ))
                        }
                    },
                }
            },
        }
    } else {
        proof {
            if s@.skip(pw as int).len() > 0 {
                assert(s@.skip(pw as int)[0] == s@[pw as int]);
            }
        }
        None
    }
}

/// Parses a member list; the twin of `spec_members`.
fn members(
    s: &Vec<char>,
    pos: usize,
    fuel: usize,
    acc: Vec<SequenceOrSetMember>,
    ext: bool,
) -> (r: Option<(Vec<SequenceOrSetMember>, bool, usize)>)
    requires
        pos <= s@.len(),
    ensures
        match r {
            Some((ms, e, p)) => {
                &&& pos <= p <= s@.len()
                &&& spec_members(s@.skip(pos as int), fuel as nat, acc.deep_view(), ext)
                    == Some((ms.deep_view(), e, s@.skip(p as int)))
            },
            None => spec_members(
                s@.skip(pos as int),
                fuel as nat,
                acc.deep_view(),
                ext,
            ) is None,
        },
    decreases fuel, 5int,
{
    if fuel == 0 {
        return None;
    }
    if let Some(p1) = tok(s, pos, "}") {
        return Some((acc, ext, p1));
    }
    if let Some(p1) = tok(s, pos, "...") {
        let p2 = if let Some(q) = tok(s, p1, ",") {
            q
        } else {
            p1
        };
        return members(s, p2, fuel - 1, acc, true);
    }
    match member(s, pos, fuel - 1) {
        None => None,
        Some((m, q1)) => {
            let q2 = if let Some(q) = tok(s, q1, ",") {
                q
            } else {
                q1
            };
            let ghost accd = acc.deep_view();
            let ghost mv = m.deep_view();
            let mut acc2 = acc;
            acc2.push(m);
            proof {
                assert(acc2.deep_view() =~= accd.push(mv));
            }
            members(s, q2, fuel - 1, acc2, ext)
        },
    }
}

/// Skips a balanced parenthesis group; the twin of
/// `spec_skip_balanced`.
fn skip_balanced(s: &Vec<char>, pos: usize, depth: usize) -> (r: Option<usize>)
    requires
        pos <= s@.len(),
    ensures
        match r {
            Some(p) => {
                &&& pos <= p <= s@.len()
                &&& spec_skip_balanced(s@.skip(pos as int), depth as nat) == Some(
                    s@.skip(p as int),
                )
            },
            None => spec_skip_balanced(s@.skip(pos as int), depth as nat) is None,
        },
    decreases s@.len() - pos,
{
    if pos >= s.len() || depth == 0 {
        return None;
    }
    proof {
        crate::lexer::lemma_skip_skip(s@, pos as int, 1);
        assert(s@.skip(pos as int)[0] == s@[pos as int]);
    }
    let c = s[pos];
    if c == '(' {
        if depth == usize::MAX {
            // Nesting this deep cannot occur in an input that fits in
            // memory, but the twin must still be followed: fail like
            // exhausted input.
            return skip_balanced_overflow(s, pos, depth);
        }
        skip_balanced(s, pos + 1, depth + 1)
    } else if c == ')' {
        if depth == 1 {
            Some(pos + 1)
        } else {
            skip_balanced(s, pos + 1, depth - 1)
        }
    } else {
        skip_balanced(s, pos + 1, depth)
    }
}

/// Unreachable continuation of `skip_balanced` for a parenthesis depth
/// that exceeds the machine word; the group can never close, so the
/// parse fails as its twin does.
fn skip_balanced_overflow(s: &Vec<char>, pos: usize, depth: usize) -> (r: Option<usize>)
    requires
        pos < s@.len(),
        depth == usize::MAX,
        s@[pos as int] == '(',
    ensures
        r is None,
        spec_skip_balanced(s@.skip(pos as int), depth as nat) is None,
{
    let n = s.len();
    proof {
        assert(s@.len() == n);
        crate::lexer::lemma_skip_skip(s@, pos as int, 1);
        lemma_balanced_deep(s@.skip(pos as int).skip(1), depth as nat + 1);
    }
    None
}

/// A group nested deeper than the remaining input is long can never
/// close.
proof fn lemma_balanced_deep(t: Seq<char>, depth: nat)
    requires
        depth > t.len(),
    ensures
        spec_skip_balanced(t, depth) is None,
    decreases t.len(),
{
    if t.len() > 0 {
        if t[0] == '(' {
            lemma_balanced_deep(t.skip(1), depth + 1);
        } else if t[0] == ')' {
            if depth != 1 {
                lemma_balanced_deep(t.skip(1), (depth - 1) as nat);
            }
        } else {
            lemma_balanced_deep(t.skip(1), depth);
        }
    }
}

/// Parses the tail of a repetition type; the twin of `spec_of_tail`.
fn of_tail(s: &Vec<char>, pos: usize, fuel: usize, cons: Vec<Constraint>, is_set: bool) -> (r:
    Option<(ASN1Type, usize)>)
    requires
        pos <= s@.len(),
    ensures
        match r {
            Some((ty, p)) => {
                &&& pos <= p <= s@.len()
                &&& spec_of_tail(s@.skip(pos as int), fuel as nat, cons.deep_view(), is_set)
                    == Some((ty.deep_view(), s@.skip(p as int)))
            },
            None => spec_of_tail(
                s@.skip(pos as int),
                fuel as nat,
                cons.deep_view(),
                is_set,
            ) is None,
        },
    decreases fuel, 6int,
{
    if fuel == 0 {
        return None;
    }
    let pw = skip_ws(s, pos);
    let p2: usize = if pw < s.len() && crate::lexer::is_lower_exec(s[pw]) {
        proof {
            assert(s@.skip(pw as int)[0] == s@[pw as int]);
        }
        match identifier(s, pw) {
            Some((_name, q)) => q,
            None => pos,
        }
    } else {
        proof {
            if s@.skip(pw as int).len() > 0 {
                assert(s@.skip(pw as int)[0] == s@[pw as int]);
            }
        }
        pos
    };
    match asn1_type(s, p2, fuel - 1) {
        None => None,
        Some((el, q1)) => {
            let ghost consd = cons.deep_view();
            let ghost elv = el.deep_view();
            let body = SequenceOrSetOf { constraints: cons, element_type: Box::new(el) };
            proof {
                assert(body.deep_view() == SequenceOrSetOfV {
                    constraints: consd,
                    element_type: seq![elv],
                });
            }
            if is_set {
                Some((ASN1Type::SetOf(body), q1))
            } else {
                Some((ASN1Type::SequenceOf(body), q1))
            }
        },
    }
}

/// Parses what follows `SEQUENCE` or `SET`; the twin of
/// `spec_struct_or_of`.
fn struct_or_of(s: &Vec<char>, pos: usize, fuel: usize, is_set: bool) -> (r: Option<
    (ASN1Type, usize),
>)
    requires
        pos <= s@.len(),
    ensures
        match r {
            Some((ty, p)) => {
                &&& pos <= p <= s@.len()
                &&& spec_struct_or_of(s@.skip(pos as int), fuel as nat, is_set) == Some(
                    (ty.deep_view(), s@.skip(p as int)),
                )
            },
            None => spec_struct_or_of(s@.skip(pos as int), fuel as nat, is_set) is None,
        },
    decreases fuel, 7int,
{
    if fuel == 0 {
        return None;
    }
    match opt_paren_constraint(s, pos, fuel - 1) {
        Some((c, p1)) => match tok(s, p1, "OF") {
            None => None,
            Some(p2) => {
                let ghost cv = c.deep_view();
                let mut cons: Vec<Constraint> = Vec::new();
                cons.push(c);
                proof {
                    assert(cons.deep_view() =~= seq![cv]);
                }
                of_tail(s, p2, fuel - 1, cons, is_set)
            },
        },
        None => {
            if let Some(p1) = tok(s, pos, "OF") {
                let cons: Vec<Constraint> = Vec::new();
                proof {
                    lemma_deep_empty(cons);
                }
                return of_tail(s, p1, fuel - 1, cons, is_set);
            }
            match tok(s, pos, "{") {
                None => None,
                Some(p1) => {
                    let acc: Vec<SequenceOrSetMember> = Vec::new();
                    proof {
                        lemma_deep_empty(acc);
                    }
                    match members(s, p1, fuel - 1, acc, false) {
                        None => None,
                        Some((ms, ext, p2)) => {
                            let body = SequenceOrSet { members: ms, extensible: ext };
                            proof {
                                crate::intermediate::lemma_member_list_deep(body.members);
                            }
                            if is_set {
                                Some((ASN1Type::SetType(body), p2))
                            } else {
                                Some((ASN1Type::Sequence(body), p2))
                            }
                        },
                    }
                },
            }
        },
    }
}

/// Parses a type; the twin of `spec_type`.
pub fn asn1_type(s: &Vec<char>, pos: usize, fuel: usize) -> (r: Option<(ASN1Type, usize)>)
    requires
        pos <= s@.len(),
    ensures
        match r {
            Some((ty, p)) => {
                &&& pos <= p <= s@.len()
                &&& spec_type(s@.skip(pos as int), fuel as nat) == Some(
                    (ty.deep_view(), s@.skip(p as int)),
                )
            },
            None => spec_type(s@.skip(pos as int), fuel as nat) is None,
        },
    decreases fuel, 8int,
{
    if fuel == 0 {
        return None;
    }
    if let Some(p0) = tok(s, pos, "BOOLEAN") {
        let empty: Vec<Constraint> = Vec::new();
        proof {
            lemma_deep_empty(empty);
        }
        let (cs, p1) = constraints(s, p0, fuel - 1, empty);
        return Some((ASN1Type::Boolean(Boolean { constraints: cs }), p1));
    }
    if let Some(p0) = tok(s, pos, "INTEGER") {
        if let Some(pb) = tok(s, p0, "{") {
            let dacc: Vec<DistinguishedValue> = Vec::new();
            proof {
                lemma_deep_empty(dacc);
            }
            match dv_items(s, pb, fuel - 1, dacc, false) {
                None => {
                    return None;
                },
                Some((list, _e, p1)) => {
                    let empty: Vec<Constraint> = Vec::new();
                    proof {
                        lemma_deep_empty(empty);
                    }
                    let (cs, p2) = constraints(s, p1, fuel - 1, empty);
                    return Some((
                        ASN1Type::Integer(
                            Integer {
                                constraints: cs,
                                distinguished_values: Some(list),
                                used_in_const: false,
                            },
                        ),
                        p2,
                    ));
                },
            }
        }
        let empty: Vec<Constraint> = Vec::new();
        proof {
            lemma_deep_empty(empty);
        }
        let (cs, p2) = constraints(s, p0, fuel - 1, empty);
        return Some((
            ASN1Type::Integer(
                Integer { constraints: cs, distinguished_values: None, used_in_const: false },
            ),
            p2,
        ));
    }
    let strkind: Option<(CharacterStringKind, usize)> = if let Some(q) = tok(
        s,
        pos,
        "BMPString",
    ) {
        Some((CharacterStringKind::BMPString, q))
    } else if let Some(q) = tok(s, pos, "UTF8String") {
        Some((CharacterStringKind::UTF8String, q))
    } else if let Some(q) = tok(s, pos, "IA5String") {
        Some((CharacterStringKind::IA5String, q))
    } else if let Some(q) = tok(s, pos, "PrintableString") {
        Some((CharacterStringKind::PrintableString, q))
    } else {
        None
    };
    if let Some((kind, p0)) = strkind {
        let empty: Vec<Constraint> = Vec::new();
        proof {
            lemma_deep_empty(empty);
        }
        let (cs, p1) = constraints(s, p0, fuel - 1, empty);
        return Some((
            ASN1Type::CharacterString(CharacterString { constraints: cs, kind }),
            p1,
        ));
    }
    if let Some(p0) = tok(s, pos, "ENUMERATED") {
        match tok(s, p0, "{") {
            None => {
                return None;
            },
            Some(p1) => {
                let dacc: Vec<DistinguishedValue> = Vec::new();
                proof {
                    lemma_deep_empty(dacc);
                }
                match dv_items(s, p1, fuel - 1, dacc, false) {
                    None => {
                        return None;
                    },
                    Some((ms, ext, p2)) => {
                        return Some((
                            ASN1Type::Enumerated(Enumerated { members: ms, extensible: ext }),
                            p2,
                        ));
                    },
                }
            },
        }
    }
    if let Some(p0) = tok(s, pos, "SEQUENCE") {
        return struct_or_of(s, p0, fuel - 1, false);
    }
    if let Some(p0) = tok(s, pos, "SET") {
        return struct_or_of(s, p0, fuel - 1, true);
    }
    if let Some(p0) = tok(s, pos, "CHOICE") {
        match tok(s, p0, "{") {
            None => {
                return None;
            },
            Some(p1) => {
                let acc: Vec<SequenceOrSetMember> = Vec::new();
                proof {
                    lemma_deep_empty(acc);
                }
                match members(s, p1, fuel - 1, acc, false) {
                    None => {
                        return None;
                    },
                    Some((ms, ext, p2)) => {
                        let body = SequenceOrSet { members: ms, extensible: ext };
                        proof {
                            crate::intermediate::lemma_member_list_deep(body.members);
                        }
                        return Some((ASN1Type::Choice(body), p2));
                    },
                }
            },
        }
    }
    let pw = skip_ws(s, pos);
    if pw < s.len() && crate::lexer::is_upper_exec(s[pw]) {
        proof {
            assert(s@.skip(pw as int)[0] == s@[pw as int]);
        }
        match identifier(s, pw) {
            None => None,
            Some((name, q1)) => {
                if let Some(q2) = expect(s, q1, ".&") {
                    match identifier(s, q2) {
                        None => None,
                        Some((field, q3)) => {
                            let after: Option<usize> = match tok(s, q3, "(") {
                                Some(q4) => skip_balanced(s, q4, 1),
                                None => Some(q3),
                            };
                            match after {
                                None => None,
                                Some(q5) => Some((
                                    ASN1Type::InformationObjectFieldReference(
                                        InformationObjectFieldReference { class: name, field },
                                    ),
                                    q5,
                                )),
                            }
                        },
                    }
                } else {
                    let empty: Vec<Constraint> = Vec::new();
                    proof {
                        lemma_deep_empty(empty);
                    }
                    let (cs, q2) = constraints(s, q1, fuel - 1, empty);
                    Some((
                        ASN1Type::ElsewhereDeclaredType(
                            DeclarationElsewhere { identifier: name, constraints: cs },
                        ),
                        q2,
                    ))
                }
            },
        }
    } else {
        proof {
            if s@.skip(pw as int).len() > 0 {
                assert(s@.skip(pw as int)[0] == s@[pw as int]);
            }
        }
        None
    }
}

// ---------------------------------------------------------------------
// Assignments and modules.
// ---------------------------------------------------------------------

/// One assignment: an upper-case name bound to a type, or a lower-case
/// name bound, through a type reference, to a value.
pub open spec fn spec_assignment(t: Seq<char>, fuel: nat) -> Option<(AssignmentV, Seq<char>)>
    decreases fuel, 9int,
{
    if fuel == 0 {
        None
    } else {
        let t1 = spec_skip_ws(t);
        if t1.len() > 0 && spec_is_upper(t1[0]) && spec_identifier(t1) is Some {
            let (name, r1) = spec_identifier(t1)->Some_0;
            match spec_tok(r1, "::="@) {
                None => None,
                Some(r2) => match spec_type(r2, (fuel - 1) as nat) {
                    None => None,
                    Some((ty, r3)) => Some((
                        AssignmentV::Type(TypeAssignmentV { name, ty }),
                        r3,
                    )),
                },
            }
        } else if t1.len() > 0 && spec_is_lower(t1[0]) && spec_identifier(t1) is Some {
            let (name, r1) = spec_identifier(t1)->Some_0;
            match spec_type(r1, (fuel - 1) as nat) {
                None => None,
                Some((type_ref, r2)) => match spec_tok(r2, "::="@) {
                    None => None,
                    Some(r3) => match spec_value(r3, (fuel - 1) as nat) {
                        None => None,
                        Some((v, r4)) => Some((
                            AssignmentV::Value(
                                ValueAssignmentV { name, type_ref, value: v },
                            ),
                            r4,
                        )),
                    },
                },
            }
        } else {
            None
        }
    }
}

/// The assignments of a module body, up to and including `END`.  On
/// failure the error carries the unconsumed remainder.
pub open spec fn spec_assignments(t: Seq<char>, fuel: nat, acc: Seq<AssignmentV>) -> Result<
    (Seq<AssignmentV>, Seq<char>),
    Seq<char>,
>
    decreases fuel, 10int,
{
    if fuel == 0 {
        Err(spec_skip_ws(t))
    } else if spec_tok(t, "END"@) is Some {
        Ok((acc, spec_tok(t, "END"@)->Some_0))
    } else {
        match spec_assignment(t, (fuel - 1) as nat) {
            Some((a, r1)) => spec_assignments(r1, (fuel - 1) as nat, acc.push(a)),
            None => Err(spec_skip_ws(t)),
        }
    }
}

/// A whole module: header, tagging mode, body, `END`.  On failure the
/// error carries the unconsumed remainder at the failing construct.
pub open spec fn spec_module(t: Seq<char>, fuel: nat) -> Result<(ModuleV, Seq<char>), Seq<char>>
    decreases fuel, 11int,
{
    if fuel == 0 {
        Err(spec_skip_ws(t))
    } else {
        let t1 = spec_skip_ws(t);
        match spec_identifier(t1) {
            None => Err(t1),
            Some((name, r1)) => match spec_tok(r1, "DEFINITIONS"@) {
                None => Err(spec_skip_ws(r1)),
                Some(r2) => {
                    let mode = if spec_tok(r2, "AUTOMATIC"@) is Some {
                        Some((TaggingMode::Automatic, spec_tok(r2, "AUTOMATIC"@)->Some_0))
                    } else if spec_tok(r2, "IMPLICIT"@) is Some {
                        Some((TaggingMode::Implicit, spec_tok(r2, "IMPLICIT"@)->Some_0))
                    } else if spec_tok(r2, "EXPLICIT"@) is Some {
                        Some((TaggingMode::Explicit, spec_tok(r2, "EXPLICIT"@)->Some_0))
                    } else {
                        None
                    };
                    let tagged = match mode {
                        Some((m, r3)) => match spec_tok(r3, "TAGS"@) {
                            None => None,
                            Some(r4) => Some((m, r4)),
                        },
                        None => Some((TaggingMode::Explicit, r2)),
                    };
                    match tagged {
                        None => Err(spec_skip_ws(r2)),
                        Some((tagging, r5)) => match spec_tok(r5, "::="@) {
                            None => Err(spec_skip_ws(r5)),
                            Some(r6) => match spec_tok(r6, "BEGIN"@) {
                                None => Err(spec_skip_ws(r6)),
                                Some(r7) => match spec_assignments(
                                    r7,
                                    (fuel - 1) as nat,
                                    Seq::empty(),
                                ) {
                                    Err(rem) => Err(rem),
                                    Ok((assignments, r8)) => Ok((
                                        ModuleV { name, tagging, assignments },
                                        r8,
                                    )),
                                },
                            },
                        },
                    }
                },
            },
        }
    }
}

/// Parses one assignment; the twin of `spec_assignment`.
pub fn assignment(s: &Vec<char>, pos: usize, fuel: usize) -> (r: Option<(Assignment, usize)>)
    requires
        pos <= s@.len(),
    ensures
        match r {
            Some((a, p)) => {
                &&& pos <= p <= s@.len()
                &&& spec_assignment(s@.skip(pos as int), fuel as nat) == Some(
                    (a.deep_view(), s@.skip(p as int)),
                )
            },
            None => spec_assignment(s@.skip(pos as int), fuel as nat) is None,
        },
    decreases fuel, 9int,
{
    if fuel == 0 {
        return None;
    }
    let pw = skip_ws(s, pos);
    proof {
        if s@.skip(pw as int).len() > 0 {
            assert(s@.skip(pw as int)[0] == s@[pw as int]);
        }
    }
    if pw < s.len() && crate::lexer::is_upper_exec(s[pw]) {
        match identifier(s, pw) {
            None => None,
            Some((name, q1)) => match tok(s, q1, "::=") {
                None => None,
                Some(q2) => match asn1_type(s, q2, fuel - 1) {
                    None => None,
                    Some((ty, q3)) => Some((
                        Assignment::Type(TypeAssignment { name, ty }),
                        q3,
                    )),
                },
            },
        }
    } else if pw < s.len() && crate::lexer::is_lower_exec(s[pw]) {
        match identifier(s, pw) {
            None => None,
            Some((name, q1)) => match asn1_type(s, q1, fuel - 1) {
                None => None,
                Some((type_ref, q2)) => match tok(s, q2, "::=") {
                    None => None,
                    Some(q3) => match value(s, q3, fuel - 1) {
                        None => None,
                        Some((v, q4)) => Some((
                            Assignment::Value(ValueAssignment { name, type_ref, value: v }),
                            q4,
                        )),
                    },
                },
            },
        }
    } else {
        None
    }
}

/// Parses the assignments of a module body; the twin of
/// `spec_assignments`.  An error is the position of the unconsumed
/// remainder.
pub fn assignments(s: &Vec<char>, pos: usize, fuel: usize, acc: Vec<Assignment>) -> (r: Result<
    (Vec<Assignment>, usize),
    usize,
>)
    requires
        pos <= s@.len(),
    ensures
        match r {
            Ok((asgs, p)) => {
                &&& pos <= p <= s@.len()
                &&& spec_assignments(s@.skip(pos as int), fuel as nat, acc.deep_view())
                    == Ok::<_, Seq<char>>((asgs.deep_view(), s@.skip(p as int)))
            },
            Err(p) => {
                &&& p <= s@.len()
                &&& spec_assignments(s@.skip(pos as int), fuel as nat, acc.deep_view())
                    == Err::<(Seq<AssignmentV>, Seq<char>), _>(s@.skip(p as int))
            },
        },
    decreases fuel, 10int,
{
    if fuel == 0 {
        return Err(skip_ws(s, pos));
    }
    if let Some(p1) = tok(s, pos, "END") {
        return Ok((acc, p1));
    }
    match assignment(s, pos, fuel - 1) {
        Some((a, p1)) => {
            let ghost accd = acc.deep_view();
            let ghost av = a.deep_view();
            let mut acc2 = acc;
            acc2.push(a);
            proof {
                assert(acc2.deep_view() =~= accd.push(av));
            }
            assignments(s, p1, fuel - 1, acc2)
        },
        None => Err(skip_ws(s, pos)),
    }
}

/// Parses a whole module; the twin of `spec_module`.  An error is the
/// position of the unconsumed remainder.
pub fn module(s: &Vec<char>, pos: usize, fuel: usize) -> (r: Result<(Module, usize), usize>)
    requires
        pos <= s@.len(),
    ensures
        match r {
            Ok((m, p)) => {
                &&& pos <= p <= s@.len()
                &&& spec_module(s@.skip(pos as int), fuel as nat) == Ok::<_, Seq<char>>(
                    (m.deep_view(), s@.skip(p as int)),
                )
            },
            Err(p) => {
                &&& p <= s@.len()
                &&& spec_module(s@.skip(pos as int), fuel as nat) == Err::<
                    (ModuleV, Seq<char>),
                    _,
                >(s@.skip(p as int))
            },
        },
    decreases fuel, 11int,
{
    if fuel == 0 {
        return Err(skip_ws(s, pos));
    }
    let pw = skip_ws(s, pos);
    match identifier(s, pw) {
        None => Err(pw),
        Some((name, q1)) => match tok(s, q1, "DEFINITIONS") {
            None => Err(skip_ws(s, q1)),
            Some(q2) => {
                let mode: Option<(TaggingMode, usize)> = if let Some(q) = tok(
                    s,
                    q2,
                    "AUTOMATIC",
                ) {
                    Some((TaggingMode::Automatic, q))
                } else if let Some(q) = tok(s, q2, "IMPLICIT") {
                    Some((TaggingMode::Implicit, q))
                } else if let Some(q) = tok(s, q2, "EXPLICIT") {
                    Some((TaggingMode::Explicit, q))
                } else {
                    None
                };
                let tagged: Option<(TaggingMode, usize)> = match mode {
                    Some((m, q3)) => match tok(s, q3, "TAGS") {
                        None => None,
                        Some(q4) => Some((m, q4)),
                    },
                    None => Some((TaggingMode::Explicit, q2)),
                };
                match tagged {
                    None => Err(skip_ws(s, q2)),
                    Some((tagging, q5)) => match tok(s, q5, "::=") {
                        None => Err(skip_ws(s, q5)),
                        Some(q6) => match tok(s, q6, "BEGIN") {
                            None => Err(skip_ws(s, q6)),
                            Some(q7) => {
                                let acc: Vec<Assignment> = Vec::new();
                                proof {
                                    lemma_deep_empty(acc);
                                }
                                match assignments(s, q7, fuel - 1, acc) {
                                    Err(p) => Err(p),
                                    Ok((asgs, q8)) => Ok((
                                        Module { name, tagging, assignments: asgs },
                                        q8,
                                    )),
                                }
                            },
                        },
                    },
                }
            },
        },
    }
}

// ---------------------------------------------------------------------
// Public entry points for the repetition-type grammar.
// ---------------------------------------------------------------------

/// Fuel that suffices for any parse of an input with `n` characters:
/// the grammar consumes at least one character every eight recursive
/// steps.
pub open spec fn spec_parse_fuel(n: nat) -> nat {
    n * 8 + 64
}

/// Largest input length whose fuel fits the machine word.
pub open spec fn spec_max_input() -> nat {
    ((usize::MAX - 64) / 8) as nat
}

/// Computes the parse fuel for this input.  Fails (as the whole
/// compile call does) on inputs too large for the machine word.
pub fn parse_fuel(s: &Vec<char>) -> (r: Option<usize>)
    ensures
        match r {
            Some(f) => s@.len() <= spec_max_input() && f == spec_parse_fuel(s@.len()),
            None => s@.len() > spec_max_input(),
        },
{
    if s.len() > (usize::MAX - 64) / 8 {
        None
    } else {
        Some(s.len() * 8 + 64)
    }
}

/// Tries to parse a `SEQUENCE OF` (or `SET OF`) value: a brace-
/// delimited, comma-separated list of values, each optionally prefixed
/// by a discarded field-name token.
///
/// On success returns the number of characters consumed and the value;
/// the consumed prefix parses to exactly that node, per `spec_value`.
pub fn sequence_or_set_of_value(input: &str) -> (r: Result<(usize, ASN1Value), CompilerError>)
    ensures
        match r {
            Ok((p, v)) => {
                &&& p <= input@.len()
                &&& input@.len() <= spec_max_input()
                &&& spec_seq_value(input@, spec_parse_fuel(input@.len())) == Some(
                    (v.deep_view(), input@.skip(p as int)),
                )
            },
            Err(e) => match e.deep_view() {
                CompilerErrorV::Syntax { position } => {
                    &&& input@.len() <= spec_max_input()
                    &&& spec_seq_value(input@, spec_parse_fuel(input@.len())) is None
                    &&& position == 0
                },
                CompilerErrorV::InputTooLong => input@.len() > spec_max_input(),
                _ => false,
            },
        },
{
    let chars = crate::text::chars_of(input);
    let fuel = match parse_fuel(&chars) {
        Some(f) => f,
        None => {
            return Err(CompilerError::InputTooLong);
        },
    };
    proof {
        assert(chars@.skip(0) =~= input@);
    }
    match seq_value(&chars, 0, fuel) {
        Some((v, p)) => Ok((p, v)),
        None => Err(CompilerError::Syntax { position: 0 }),
    }
}

/// Tries to parse a `SEQUENCE OF` declaration: the `SEQUENCE` keyword,
/// an optional (optionally parenthesized) constraint, `OF`, and the
/// element type.
///
/// On success returns the number of characters consumed and the
/// `SequenceOf` node; the consumed prefix parses to exactly that node,
/// per `spec_type`.  Inputs whose leading type is not a `SEQUENCE OF`
/// are rejected.
pub fn sequence_of(input: &str) -> (r: Result<(usize, ASN1Type), CompilerError>)
    ensures
        match r {
            Ok((p, ty)) => {
                &&& p <= input@.len()
                &&& input@.len() <= spec_max_input()
                &&& spec_type(input@, spec_parse_fuel(input@.len())) == Some(
                    (ty.deep_view(), input@.skip(p as int)),
                )
                &&& ty.deep_view() is SequenceOf
            },
            Err(e) => match e.deep_view() {
                CompilerErrorV::Syntax { position } => {
                    &&& input@.len() <= spec_max_input()
                    &&& {
                        ||| spec_type(input@, spec_parse_fuel(input@.len())) is None
                        ||| !(spec_type(
                            input@,
                            spec_parse_fuel(input@.len()),
                        )->Some_0.0 is SequenceOf)
                    }
                    &&& position == 0
                },
                CompilerErrorV::InputTooLong => input@.len() > spec_max_input(),
                _ => false,
            },
        },
{
    let chars = crate::text::chars_of(input);
    let fuel = match parse_fuel(&chars) {
        Some(f) => f,
        None => {
            return Err(CompilerError::InputTooLong);
        },
    };
    proof {
        assert(chars@.skip(0) =~= input@);
    }
    match asn1_type(&chars, 0, fuel) {
        Some((ty, p)) => {
            if matches!(ty, ASN1Type::SequenceOf(_)) {
                Ok((p, ty))
            } else {
                Err(CompilerError::Syntax { position: 0 })
            }
        },
        None => Err(CompilerError::Syntax { position: 0 }),
    }
}

} // verus!

// === PART2 ===
