//! The semantic-resolution passes, run in order on the merged
//! assignment list of one compile call:
//!
//! 1. cross-reference resolution — every identifier used as a
//!    constraint bound is replaced by the literal of the value
//!    assignment it names, and every type reference must name a type
//!    assignment;
//! 2. default and value resolution — `DEFAULT` expressions become
//!    typed literals, and each value assignment's value is checked
//!    (and, for structured types, filled in field order, absent fields
//!    taking their defaults);
//! 3. tag assignment — under automatic tagging, members without an
//!    explicit tag receive sequential context-specific tags.
//!
//! Every executable pass is proved equal to its specification twin.

use vstd::prelude::*;

use crate::intermediate::ASN1Type;
use crate::intermediate::ASN1TypeV;
use crate::intermediate::ASN1Value;
use crate::intermediate::ASN1ValueV;
use crate::intermediate::AsnTag;
use crate::intermediate::Assignment;
use crate::intermediate::AssignmentV;
use crate::intermediate::Boolean;
use crate::intermediate::CharacterString;
use crate::intermediate::CompilerError;
use crate::intermediate::CompilerErrorV;
use crate::intermediate::Constraint;
use crate::intermediate::ConstraintV;
use crate::intermediate::DeclarationElsewhere;
use crate::intermediate::ElementOrSetOperation;
use crate::intermediate::ElementOrSetOperationV;
use crate::intermediate::ElementSet;
use crate::intermediate::ElementSetV;
use crate::intermediate::Enumerated;
use crate::intermediate::Integer;
use crate::intermediate::SequenceOrSet;
use crate::intermediate::SequenceOrSetMember;
use crate::intermediate::SequenceOrSetMemberV;
use crate::intermediate::SequenceOrSetOf;
use crate::intermediate::SetOperation;
use crate::intermediate::SetOperationV;
use crate::intermediate::SubtypeElement;
use crate::intermediate::SubtypeElementV;
use crate::intermediate::TagClass;
use crate::intermediate::TaggingMode;
use crate::intermediate::TypeAssignment;
use crate::intermediate::ValueAssignment;
use crate::intermediate::DistinguishedValue;
use crate::intermediate::ObjectSet;
use crate::intermediate::ObjectSetValue;
use crate::intermediate::Parameter;
use crate::parser::lemma_deep_empty;
use crate::intermediate::BooleanV;
use crate::intermediate::IntegerV;
use crate::intermediate::CharacterStringV;
use crate::intermediate::SequenceOrSetV;
use crate::intermediate::SequenceOrSetOfV;
use crate::intermediate::DeclarationElsewhereV;
use crate::intermediate::TypeAssignmentV;
use crate::intermediate::ValueAssignmentV;

verus! {

broadcast use
    vstd::std_specs::vec::axiom_vec_index_decreases,
    vstd::std_specs::vec::axiom_vec_decreases_to_view,
    vstd::seq::axiom_seq_index_decreases;

// ---------------------------------------------------------------------
// Lookup in the resolution context.
// ---------------------------------------------------------------------

/// The value bound to `name` by the first matching value assignment.
pub open spec fn spec_find_value(ctx: Seq<AssignmentV>, name: Seq<char>) -> Option<ASN1ValueV>
    decreases ctx.len(),
{
    if ctx.len() == 0 {
        None
    } else {
        match ctx[0] {
            AssignmentV::Value(va) => {
                if va.name == name {
                    Some(va.value)
                } else {
                    spec_find_value(ctx.skip(1), name)
                }
            },
            _ => spec_find_value(ctx.skip(1), name),
        }
    }
}

/// The type bound to `name` by the first matching type assignment.
pub open spec fn spec_find_type(ctx: Seq<AssignmentV>, name: Seq<char>) -> Option<ASN1TypeV>
    decreases ctx.len(),
{
    if ctx.len() == 0 {
        None
    } else {
        match ctx[0] {
            AssignmentV::Type(ta) => {
                if ta.name == name {
                    Some(ta.ty)
                } else {
                    spec_find_type(ctx.skip(1), name)
                }
            },
            _ => spec_find_type(ctx.skip(1), name),
        }
    }
}

/// Whether a value is a scalar literal that can stand as a resolved
/// bound or default.
pub open spec fn spec_is_scalar(v: ASN1ValueV) -> bool {
    v is Boolean || v is Integer || v is StringValue || v is Max || v is Min
}

/// Resolves `name` through any chain of value references to a scalar
/// literal.  Fails with the missing identifier, with a cycle report
/// when the chain does not ground within the context size, or with a
/// type mismatch when the chain ends in a compound value.
pub open spec fn spec_resolve_value_ref(
    ctx: Seq<AssignmentV>,
    name: Seq<char>,
    fuel: nat,
) -> Result<ASN1ValueV, CompilerErrorV>
    decreases fuel,
{
    match spec_find_value(ctx, name) {
        None => Err(CompilerErrorV::UnresolvedReference { identifier: name }),
        Some(v) => {
            if v is ElsewhereDeclaredValue {
                if fuel == 0 {
                    Err(CompilerErrorV::CyclicReference { identifier: name })
                } else {
                    spec_resolve_value_ref(ctx, v->ElsewhereDeclaredValue_0, (fuel - 1) as nat)
                }
            } else if spec_is_scalar(v) {
                Ok(v)
            } else {
                Err(CompilerErrorV::TypeMismatch { name })
            }
        },
    }
}

/// Finds the value bound to `name`; the twin of `spec_find_value`.
/// Returns the index of the matching assignment.
fn find_value(ctx: &Vec<Assignment>, name: &String) -> (r: Option<usize>)
    ensures
        match r {
            Some(i) => {
                &&& i < ctx@.len()
                &&& ctx@[i as int] is Value
                &&& spec_find_value(ctx.deep_view(), name@) == Some(
                    ctx@[i as int]->Value_0.value.deep_view(),
                )
            },
            None => spec_find_value(ctx.deep_view(), name@) is None,
        },
{
    let ghost cv = ctx.deep_view();
    let mut i: usize = 0;
    proof {
        assert(cv.skip(0) =~= cv);
    }
    while i < ctx.len()
        invariant
            i <= ctx@.len(),
            cv == ctx.deep_view(),
            spec_find_value(cv, name@) == spec_find_value(cv.skip(i as int), name@),
        decreases ctx@.len() - i,
    {
        proof {
            assert(cv.skip(i as int)[0] == cv[i as int]);
            assert(cv.skip(i as int).skip(1) =~= cv.skip(i + 1));
        }
        match &ctx[i] {
            Assignment::Value(va) => {
                if va.name.eq(name) {
                    return Some(i);
                }
            },
            _ => {},
        }
        i = i + 1;
    }
    proof {
        assert(cv.skip(i as int) =~= Seq::<AssignmentV>::empty());
    }
    None
}

/// Finds the type bound to `name`; the twin of `spec_find_type`.
pub fn find_type(ctx: &Vec<Assignment>, name: &String) -> (r: Option<usize>)
    ensures
        match r {
            Some(i) => {
                &&& i < ctx@.len()
                &&& ctx@[i as int] is Type
                &&& spec_find_type(ctx.deep_view(), name@) == Some(
                    ctx@[i as int]->Type_0.ty.deep_view(),
                )
            },
            None => spec_find_type(ctx.deep_view(), name@) is None,
        },
{
    let ghost cv = ctx.deep_view();
    let mut i: usize = 0;
    proof {
        assert(cv.skip(0) =~= cv);
    }
    while i < ctx.len()
        invariant
            i <= ctx@.len(),
            cv == ctx.deep_view(),
            spec_find_type(cv, name@) == spec_find_type(cv.skip(i as int), name@),
        decreases ctx@.len() - i,
    {
        proof {
            assert(cv.skip(i as int)[0] == cv[i as int]);
            assert(cv.skip(i as int).skip(1) =~= cv.skip(i + 1));
        }
        match &ctx[i] {
            Assignment::Type(ta) => {
                if ta.name.eq(name) {
                    return Some(i);
                }
            },
            _ => {},
        }
        i = i + 1;
    }
    proof {
        assert(cv.skip(i as int) =~= Seq::<AssignmentV>::empty());
    }
    None
}

/// Copies a scalar value.  Compound values are not copied; callers
/// treat them per their own contracts.
fn copy_scalar(v: &ASN1Value) -> (r: Option<ASN1Value>)
    ensures
        match r {
            Some(c) => c.deep_view() == v.deep_view() && spec_is_scalar(v.deep_view()),
            None => !spec_is_scalar(v.deep_view()),
        },
{
    match v {
        ASN1Value::Boolean(b) => Some(ASN1Value::Boolean(*b)),
        ASN1Value::Integer(i) => Some(ASN1Value::Integer(*i)),
        ASN1Value::StringValue(s) => Some(ASN1Value::StringValue(s.clone())),
        ASN1Value::Max => Some(ASN1Value::Max),
        ASN1Value::Min => Some(ASN1Value::Min),
        _ => None,
    }
}

/// Resolves a value reference chain; the twin of
/// `spec_resolve_value_ref`.
pub fn resolve_value_ref(ctx: &Vec<Assignment>, name: &String, fuel: usize) -> (r: Result<
    ASN1Value,
    CompilerError,
>)
    ensures
        match r {
            Ok(v) => spec_resolve_value_ref(ctx.deep_view(), name@, fuel as nat) == Ok::<
                _,
                CompilerErrorV,
            >(v.deep_view()),
            Err(e) => spec_resolve_value_ref(ctx.deep_view(), name@, fuel as nat) == Err::<
                ASN1ValueV,
                _,
            >(e.deep_view()),
        },
    decreases fuel,
{
    match find_value(ctx, name) {
        None => Err(CompilerError::UnresolvedReference { identifier: name.clone() }),
        Some(i) => {
            let found: &ASN1Value = match &ctx[i] {
                Assignment::Value(va) => &va.value,
                _ => {
                    proof {
                        assert(false);
                    }
                    &ASN1Value::Max
                },
            };
            match found {
                ASN1Value::ElsewhereDeclaredValue(n2) => {
                    if fuel == 0 {
                        Err(CompilerError::CyclicReference { identifier: name.clone() })
                    } else {
                        resolve_value_ref(ctx, n2, fuel - 1)
                    }
                },
                _ => match copy_scalar(found) {
                    Some(c) => Ok(c),
                    None => Err(CompilerError::TypeMismatch { name: name.clone() }),
                },
            }
        },
    }
}

// ---------------------------------------------------------------------
// Pass 1: cross-reference and constraint resolution.
// ---------------------------------------------------------------------

/// A constraint bound: identifiers resolve through the context to a
/// scalar literal; scalar literals stand; compound values cannot be
/// bounds.
pub open spec fn spec_res_bound(ctx: Seq<AssignmentV>, v: ASN1ValueV, fuel: nat) -> Result<
    ASN1ValueV,
    CompilerErrorV,
> {
    if v is ElsewhereDeclaredValue {
        spec_resolve_value_ref(ctx, v->ElsewhereDeclaredValue_0, fuel)
    } else if spec_is_scalar(v) {
        Ok(v)
    } else {
        Err(CompilerErrorV::TypeMismatch { name: Seq::empty() })
    }
}

/// A resolved value range must satisfy `min <= max` when both bounds
/// are integer literals.
pub open spec fn spec_range_ok(min: Option<ASN1ValueV>, max: Option<ASN1ValueV>) -> bool {
    match (min, max) {
        (Some(ASN1ValueV::Integer(a)), Some(ASN1ValueV::Integer(b))) => a <= b,
        _ => true,
    }
}

/// Resolves one subtype element.
pub open spec fn spec_res_element(
    ctx: Seq<AssignmentV>,
    el: SubtypeElementV,
    fuel: nat,
) -> Result<SubtypeElementV, CompilerErrorV>
    decreases el,
{
    match el {
        SubtypeElementV::SingleValue { value, extensible } => match spec_res_bound(
            ctx,
            value,
            fuel,
        ) {
            Err(e) => Err(e),
            Ok(v) => Ok(SubtypeElementV::SingleValue { value: v, extensible }),
        },
        SubtypeElementV::ValueRange { min, max, extensible } => {
            let rmin = match min {
                Some(v) => match spec_res_bound(ctx, v, fuel) {
                    Err(e) => Err(e),
                    Ok(rv) => Ok(Some(rv)),
                },
                None => Ok(None),
            };
            let rmax = match max {
                Some(v) => match spec_res_bound(ctx, v, fuel) {
                    Err(e) => Err(e),
                    Ok(rv) => Ok(Some(rv)),
                },
                None => Ok(None),
            };
            match (rmin, rmax) {
                (Err(e), _) => Err(e),
                (_, Err(e)) => Err(e),
                (Ok(a), Ok(b)) => {
                    if spec_range_ok(a, b) {
                        Ok(SubtypeElementV::ValueRange { min: a, max: b, extensible })
                    } else {
                        Err(CompilerErrorV::MalformedRange)
                    }
                },
            }
        },
        SubtypeElementV::SizeConstraint(inner) => {
            if inner.len() == 1 {
                match spec_res_op(ctx, inner[0], fuel) {
                    Err(e) => Err(e),
                    Ok(op) => Ok(SubtypeElementV::SizeConstraint(seq![op])),
                }
            } else {
                Ok(SubtypeElementV::SizeConstraint(inner))
            }
        },
        SubtypeElementV::PermittedAlphabet(inner) => {
            if inner.len() == 1 {
                match spec_res_op(ctx, inner[0], fuel) {
                    Err(e) => Err(e),
                    Ok(op) => Ok(SubtypeElementV::PermittedAlphabet(seq![op])),
                }
            } else {
                Ok(SubtypeElementV::PermittedAlphabet(inner))
            }
        },
    }
}

/// Resolves a constraint tree.
pub open spec fn spec_res_op(
    ctx: Seq<AssignmentV>,
    op: ElementOrSetOperationV,
    fuel: nat,
) -> Result<ElementOrSetOperationV, CompilerErrorV>
    decreases op,
{
    match op {
        ElementOrSetOperationV::Element(el) => match spec_res_element(ctx, el, fuel) {
            Err(e) => Err(e),
            Ok(r) => Ok(ElementOrSetOperationV::Element(r)),
        },
        ElementOrSetOperationV::SetOperation(so) => match spec_res_element(ctx, so.base, fuel) {
            Err(e) => Err(e),
            Ok(base) => {
                if so.operant.len() == 1 {
                    match spec_res_op(ctx, so.operant[0], fuel) {
                        Err(e) => Err(e),
                        Ok(rest) => Ok(
                            ElementOrSetOperationV::SetOperation(
                                SetOperationV {
                                    base,
                                    operator: so.operator,
                                    operant: seq![rest],
                                },
                            ),
                        ),
                    }
                } else {
                    Ok(
                        ElementOrSetOperationV::SetOperation(
                            SetOperationV { base, operator: so.operator, operant: so.operant },
                        ),
                    )
                }
            },
        },
    }
}

/// Resolves one constraint; parameter constraints are retained
/// unresolved and surfaced to the generator as opaque parameters.
pub open spec fn spec_res_constraint(
    ctx: Seq<AssignmentV>,
    c: ConstraintV,
    fuel: nat,
) -> Result<ConstraintV, CompilerErrorV> {
    match c {
        ConstraintV::SubtypeConstraint(es) => match spec_res_op(ctx, es.set, fuel) {
            Err(e) => Err(e),
            Ok(op) => Ok(
                ConstraintV::SubtypeConstraint(
                    ElementSetV { set: op, extensible: es.extensible },
                ),
            ),
        },
        ConstraintV::Parameter(ps) => Ok(ConstraintV::Parameter(ps)),
    }
}

/// Resolves a constraint list.
pub open spec fn spec_res_constraint_list(
    ctx: Seq<AssignmentV>,
    cs: Seq<ConstraintV>,
    fuel: nat,
) -> Result<Seq<ConstraintV>, CompilerErrorV>
    decreases cs.len(),
{
    if cs.len() == 0 {
        Ok(Seq::empty())
    } else {
        match spec_res_constraint(ctx, cs[0], fuel) {
            Err(e) => Err(e),
            Ok(c0) => match spec_res_constraint_list(ctx, cs.skip(1), fuel) {
                Err(e) => Err(e),
                Ok(rest) => Ok(seq![c0] + rest),
            },
        }
    }
}

/// Resolves every reference and constraint inside a type.
pub open spec fn spec_res_type(ctx: Seq<AssignmentV>, tv: ASN1TypeV, fuel: nat) -> Result<
    ASN1TypeV,
    CompilerErrorV,
>
    decreases tv, 1int,
{
    match tv {
        ASN1TypeV::Boolean(b) => match spec_res_constraint_list(ctx, b.constraints, fuel) {
            Err(e) => Err(e),
            Ok(cs) => Ok(ASN1TypeV::Boolean(BooleanV { constraints: cs })),
        },
        ASN1TypeV::Integer(i) => match spec_res_constraint_list(ctx, i.constraints, fuel) {
            Err(e) => Err(e),
            Ok(cs) => Ok(
                ASN1TypeV::Integer(
                    IntegerV {
                        constraints: cs,
                        distinguished_values: i.distinguished_values,
                        used_in_const: i.used_in_const,
                    },
                ),
            ),
        },
        ASN1TypeV::CharacterString(c) => match spec_res_constraint_list(
            ctx,
            c.constraints,
            fuel,
        ) {
            Err(e) => Err(e),
            Ok(cs) => Ok(
                ASN1TypeV::CharacterString(
                    CharacterStringV { constraints: cs, kind: c.kind },
                ),
            ),
        },
        ASN1TypeV::Enumerated(e) => Ok(ASN1TypeV::Enumerated(e)),
        ASN1TypeV::Sequence(s) => match spec_res_members(ctx, s.members, fuel) {
            Err(e) => Err(e),
            Ok(ms) => Ok(
                ASN1TypeV::Sequence(SequenceOrSetV { members: ms, extensible: s.extensible }),
            ),
        },
        ASN1TypeV::SetType(s) => match spec_res_members(ctx, s.members, fuel) {
            Err(e) => Err(e),
            Ok(ms) => Ok(
                ASN1TypeV::SetType(SequenceOrSetV { members: ms, extensible: s.extensible }),
            ),
        },
        ASN1TypeV::Choice(s) => match spec_res_members(ctx, s.members, fuel) {
            Err(e) => Err(e),
            Ok(ms) => Ok(
                ASN1TypeV::Choice(SequenceOrSetV { members: ms, extensible: s.extensible }),
            ),
        },
        ASN1TypeV::SequenceOf(so) => match spec_res_constraint_list(ctx, so.constraints, fuel) {
            Err(e) => Err(e),
            Ok(cs) => {
                if so.element_type.len() == 1 {
                    match spec_res_type(ctx, so.element_type[0], fuel) {
                        Err(e) => Err(e),
                        Ok(el) => Ok(
                            ASN1TypeV::SequenceOf(
                                SequenceOrSetOfV { constraints: cs, element_type: seq![el] },
                            ),
                        ),
                    }
                } else {
                    Ok(
                        ASN1TypeV::SequenceOf(
                            SequenceOrSetOfV {
                                constraints: cs,
                                element_type: so.element_type,
                            },
                        ),
                    )
                }
            },
        },
        ASN1TypeV::SetOf(so) => match spec_res_constraint_list(ctx, so.constraints, fuel) {
            Err(e) => Err(e),
            Ok(cs) => {
                if so.element_type.len() == 1 {
                    match spec_res_type(ctx, so.element_type[0], fuel) {
                        Err(e) => Err(e),
                        Ok(el) => Ok(
                            ASN1TypeV::SetOf(
                                SequenceOrSetOfV { constraints: cs, element_type: seq![el] },
                            ),
                        ),
                    }
                } else {
                    Ok(
                        ASN1TypeV::SetOf(
                            SequenceOrSetOfV {
                                constraints: cs,
                                element_type: so.element_type,
                            },
                        ),
                    )
                }
            },
        },
        ASN1TypeV::ElsewhereDeclaredType(d) => {
            if spec_find_type(ctx, d.identifier) is None {
                Err(CompilerErrorV::UnresolvedReference { identifier: d.identifier })
            } else {
                match spec_res_constraint_list(ctx, d.constraints, fuel) {
                    Err(e) => Err(e),
                    Ok(cs) => Ok(
                        ASN1TypeV::ElsewhereDeclaredType(
                            DeclarationElsewhereV {
                                identifier: d.identifier,
                                constraints: cs,
                            },
                        ),
                    ),
                }
            }
        },
        ASN1TypeV::InformationObjectFieldReference(r) => Ok(
            ASN1TypeV::InformationObjectFieldReference(r),
        ),
    }
}

/// Resolves the members of a structured type.
pub open spec fn spec_res_members(
    ctx: Seq<AssignmentV>,
    ms: Seq<SequenceOrSetMemberV>,
    fuel: nat,
) -> Result<Seq<SequenceOrSetMemberV>, CompilerErrorV>
    decreases ms, 0int,
{
    if ms.len() == 0 {
        Ok(Seq::empty())
    } else {
        match spec_res_type(ctx, ms[0].member_type, fuel) {
            Err(e) => Err(e),
            Ok(ty) => {
                let m0 = SequenceOrSetMemberV {
                    name: ms[0].name,
                    tag: ms[0].tag,
                    member_type: ty,
                    default_value: ms[0].default_value,
                    is_optional: ms[0].is_optional,
                };
                match spec_res_members(ctx, ms.skip(1), fuel) {
                    Err(e) => Err(e),
                    Ok(rest) => Ok(seq![m0] + rest),
                }
            },
        }
    }
}

/// Resolves the whole assignment list against itself.
pub open spec fn spec_resolve_references(
    ctx: Seq<AssignmentV>,
    asgs: Seq<AssignmentV>,
    fuel: nat,
) -> Result<Seq<AssignmentV>, CompilerErrorV>
    decreases asgs.len(),
{
    if asgs.len() == 0 {
        Ok(Seq::empty())
    } else {
        let head = match asgs[0] {
            AssignmentV::Type(ta) => match spec_res_type(ctx, ta.ty, fuel) {
                Err(e) => Err(e),
                Ok(ty) => Ok(AssignmentV::Type(TypeAssignmentV { name: ta.name, ty })),
            },
            AssignmentV::Value(va) => match spec_res_type(ctx, va.type_ref, fuel) {
                Err(e) => Err(e),
                Ok(tr) => Ok(
                    AssignmentV::Value(
                        ValueAssignmentV {
                            name: va.name,
                            type_ref: tr,
                            value: va.value,
                        },
                    ),
                ),
            },
        };
        match head {
            Err(e) => Err(e),
            Ok(a0) => match spec_resolve_references(ctx, asgs.skip(1), fuel) {
                Err(e) => Err(e),
                Ok(rest) => Ok(seq![a0] + rest),
            },
        }
    }
}

/// Resolves a constraint bound; the twin of `spec_res_bound`.
fn res_bound(ctx: &Vec<Assignment>, v: &ASN1Value, fuel: usize) -> (r: Result<
    ASN1Value,
    CompilerError,
>)
    ensures
        match r {
            Ok(rv) => spec_res_bound(ctx.deep_view(), v.deep_view(), fuel as nat) == Ok::<
                _,
                CompilerErrorV,
            >(rv.deep_view()),
            Err(e) => spec_res_bound(ctx.deep_view(), v.deep_view(), fuel as nat) == Err::<
                ASN1ValueV,
                _,
            >(e.deep_view()),
        },
{
    match v {
        ASN1Value::ElsewhereDeclaredValue(name) => resolve_value_ref(ctx, name, fuel),
        _ => match copy_scalar(v) {
            Some(c) => Ok(c),
            None => Err(CompilerError::TypeMismatch { name: String::new() }),
        },
    }
}

/// Resolves a subtype element; the twin of `spec_res_element`.
fn res_element(ctx: &Vec<Assignment>, el: &SubtypeElement, fuel: usize) -> (r: Result<
    SubtypeElement,
    CompilerError,
>)
    ensures
        match r {
            Ok(re) => spec_res_element(ctx.deep_view(), el.deep_view(), fuel as nat) == Ok::<
                _,
                CompilerErrorV,
            >(re.deep_view()),
            Err(e) => spec_res_element(ctx.deep_view(), el.deep_view(), fuel as nat) == Err::<
                SubtypeElementV,
                _,
            >(e.deep_view()),
        },
    decreases el,
{
    match el {
        SubtypeElement::SingleValue { value, extensible } => match res_bound(ctx, value, fuel) {
            Err(e) => Err(e),
            Ok(v) => Ok(SubtypeElement::SingleValue { value: v, extensible: *extensible }),
        },
        SubtypeElement::ValueRange { min, max, extensible } => {
            let rmin: Result<Option<ASN1Value>, CompilerError> = match min {
                Some(v) => match res_bound(ctx, v, fuel) {
                    Err(e) => Err(e),
                    Ok(rv) => Ok(Some(rv)),
                },
                None => Ok(None),
            };
            let rmax: Result<Option<ASN1Value>, CompilerError> = match max {
                Some(v) => match res_bound(ctx, v, fuel) {
                    Err(e) => Err(e),
                    Ok(rv) => Ok(Some(rv)),
                },
                None => Ok(None),
            };
            match (rmin, rmax) {
                (Err(e), _) => Err(e),
                (_, Err(e)) => Err(e),
                (Ok(a), Ok(b)) => {
                    let ok = match (&a, &b) {
                        (Some(ASN1Value::Integer(x)), Some(ASN1Value::Integer(y))) => x <= y,
                        _ => true,
                    };
                    if ok {
                        Ok(SubtypeElement::ValueRange { min: a, max: b, extensible: *extensible })
                    } else {
                        Err(CompilerError::MalformedRange)
                    }
                },
            }
        },
        SubtypeElement::SizeConstraint(inner) => match res_op(ctx, inner, fuel) {
            Err(e) => Err(e),
            Ok(op) => Ok(SubtypeElement::SizeConstraint(Box::new(op))),
        },
        SubtypeElement::PermittedAlphabet(inner) => match res_op(ctx, inner, fuel) {
            Err(e) => Err(e),
            Ok(op) => Ok(SubtypeElement::PermittedAlphabet(Box::new(op))),
        },
    }
}

/// Resolves a constraint tree; the twin of `spec_res_op`.
fn res_op(ctx: &Vec<Assignment>, op: &ElementOrSetOperation, fuel: usize) -> (r: Result<
    ElementOrSetOperation,
    CompilerError,
>)
    ensures
        match r {
            Ok(ro) => spec_res_op(ctx.deep_view(), op.deep_view(), fuel as nat) == Ok::<
                _,
                CompilerErrorV,
            >(ro.deep_view()),
            Err(e) => spec_res_op(ctx.deep_view(), op.deep_view(), fuel as nat) == Err::<
                ElementOrSetOperationV,
                _,
            >(e.deep_view()),
        },
    decreases op,
{
    match op {
        ElementOrSetOperation::Element(el) => match res_element(ctx, el, fuel) {
            Err(e) => Err(e),
            Ok(re) => Ok(ElementOrSetOperation::Element(re)),
        },
        ElementOrSetOperation::SetOperation(so) => match res_element(ctx, &so.base, fuel) {
            Err(e) => Err(e),
            Ok(base) => match res_op(ctx, &so.operant, fuel) {
                Err(e) => Err(e),
                Ok(rest) => Ok(
                    ElementOrSetOperation::SetOperation(
                        SetOperation {
                            base,
                            operator: so.operator,
                            operant: Box::new(rest),
                        },
                    ),
                ),
            },
        },
    }
}

/// Resolves one constraint; the twin of `spec_res_constraint`.
fn res_constraint(ctx: &Vec<Assignment>, c: &Constraint, fuel: usize) -> (r: Result<
    Constraint,
    CompilerError,
>)
    ensures
        match r {
            Ok(rc) => spec_res_constraint(ctx.deep_view(), c.deep_view(), fuel as nat) == Ok::<
                _,
                CompilerErrorV,
            >(rc.deep_view()),
            Err(e) => spec_res_constraint(ctx.deep_view(), c.deep_view(), fuel as nat) == Err::<
                ConstraintV,
                _,
            >(e.deep_view()),
        },
{
    match c {
        Constraint::SubtypeConstraint(es) => match res_op(ctx, &es.set, fuel) {
            Err(e) => Err(e),
            Ok(op) => Ok(
                Constraint::SubtypeConstraint(
                    ElementSet { set: op, extensible: es.extensible },
                ),
            ),
        },
        Constraint::Parameter(ps) => Ok(Constraint::Parameter(copy_parameters(ps))),
    }
}

/// Copies a parameter list unchanged.
fn copy_parameters(ps: &Vec<Parameter>) -> (r: Vec<Parameter>)
    ensures
        r.deep_view() == ps.deep_view(),
{
    let mut out: Vec<Parameter> = Vec::new();
    let mut i: usize = 0;
    proof {
        assert(out.deep_view() =~= ps.deep_view().take(0));
    }
    while i < ps.len()
        invariant
            i <= ps@.len(),
            out.deep_view() == ps.deep_view().take(i as int),
        decreases ps@.len() - i,
    {
        let ghost outd = out.deep_view();
        let p: &Parameter = &ps[i];
        let copied: Parameter = match p {
            Parameter::ObjectSetParameter(os) => {
                let mut vals: Vec<ObjectSetValue> = Vec::new();
                let mut j: usize = 0;
                proof {
                    assert(vals.deep_view() =~= os.values.deep_view().take(0));
                }
                while j < os.values.len()
                    invariant
                        j <= os.values@.len(),
                        vals.deep_view() == os.values.deep_view().take(j as int),
                    decreases os.values@.len() - j,
                {
                    let ghost valsd = vals.deep_view();
                    let elem: ObjectSetValue = match &os.values[j] {
                        ObjectSetValue::Reference(n) => ObjectSetValue::Reference(n.clone()),
                    };
                    let ghost ev = elem.deep_view();
                    vals.push(elem);
                    proof {
                        assert(ev == os.values@[j as int].deep_view());
                        assert(vals.deep_view() =~~= valsd.push(ev));
                        assert(valsd.push(ev) =~~= os.values.deep_view().take(j + 1));
                    }
                    j = j + 1;
                }
                proof {
                    assert(os.values.deep_view().take(os.values@.len() as int)
                        =~= os.values.deep_view());
                }
                Parameter::ObjectSetParameter(
                    ObjectSet { values: vals, extensible: os.extensible },
                )
            },
        };
        let ghost ev = copied.deep_view();
        out.push(copied);
        proof {
            assert(ev == ps@[i as int].deep_view());
            assert(out.deep_view() =~~= outd.push(ev));
            assert(outd.push(ev) =~~= ps.deep_view().take(i + 1));
        }
        i = i + 1;
    }
    proof {
        assert(ps.deep_view().take(ps@.len() as int) =~= ps.deep_view());
    }
    out
}

/// Resolves a constraint list; the twin of `spec_res_constraint_list`.
fn res_constraint_list(ctx: &Vec<Assignment>, cs: &Vec<Constraint>, fuel: usize) -> (r: Result<
    Vec<Constraint>,
    CompilerError,
>)
    ensures
        match r {
            Ok(rcs) => spec_res_constraint_list(ctx.deep_view(), cs.deep_view(), fuel as nat)
                == Ok::<_, CompilerErrorV>(rcs.deep_view()),
            Err(e) => spec_res_constraint_list(ctx.deep_view(), cs.deep_view(), fuel as nat)
                == Err::<Seq<ConstraintV>, _>(e.deep_view()),
        },
{
    let ghost csd = cs.deep_view();
    let mut out: Vec<Constraint> = Vec::new();
    let mut i: usize = 0;
    proof {
        assert(csd.skip(0) =~= csd);
        assert(out.deep_view() =~= Seq::<ConstraintV>::empty());
    }
    while i < cs.len()
        invariant
            i <= cs@.len(),
            csd == cs.deep_view(),
            spec_res_constraint_list(ctx.deep_view(), csd, fuel as nat) matches Ok(full)
                ==> spec_res_constraint_list(
                    ctx.deep_view(),
                    csd.skip(i as int),
                    fuel as nat,
                ) matches Ok(rest) && full == out.deep_view() + rest,
            spec_res_constraint_list(ctx.deep_view(), csd, fuel as nat) matches Err(e)
                ==> spec_res_constraint_list(
                    ctx.deep_view(),
                    csd.skip(i as int),
                    fuel as nat,
                ) matches Err(e2) && e == e2,
        decreases cs@.len() - i,
    {
        proof {
            assert(csd.skip(i as int)[0] == csd[i as int]);
            assert(csd.skip(i as int).skip(1) =~= csd.skip(i + 1));
        }
        match res_constraint(ctx, &cs[i], fuel) {
            Err(e) => {
                return Err(e);
            },
            Ok(rc) => {
                let ghost outd = out.deep_view();
                let ghost rcv = rc.deep_view();
                out.push(rc);
                proof {
                    assert(out.deep_view() =~= outd.push(rcv));
                    if spec_res_constraint_list(ctx.deep_view(), csd, fuel as nat) is Ok {
                        let rest = spec_res_constraint_list(
                            ctx.deep_view(),
                            csd.skip(i as int),
                            fuel as nat,
                        )->Ok_0;
                        let rest2 = spec_res_constraint_list(
                            ctx.deep_view(),
                            csd.skip(i + 1),
                            fuel as nat,
                        )->Ok_0;
                        assert(rest =~= seq![rcv] + rest2);
                        assert(outd + rest =~= outd.push(rcv) + rest2);
                    }
                }
            },
        }
        i = i + 1;
    }
    proof {
        assert(csd.skip(i as int) =~= Seq::<ConstraintV>::empty());
        if spec_res_constraint_list(ctx.deep_view(), csd, fuel as nat) is Ok {
            assert(spec_res_constraint_list(ctx.deep_view(), csd, fuel as nat)->Ok_0
                =~= out.deep_view());
        }
    }
    Ok(out)
}

/// Resolves a type; the twin of `spec_res_type`.
pub fn res_type(ctx: &Vec<Assignment>, ty: &ASN1Type, fuel: usize) -> (r: Result<
    ASN1Type,
    CompilerError,
>)
    ensures
        match r {
            Ok(rt) => spec_res_type(ctx.deep_view(), ty.deep_view(), fuel as nat) == Ok::<
                _,
                CompilerErrorV,
            >(rt.deep_view()),
            Err(e) => spec_res_type(ctx.deep_view(), ty.deep_view(), fuel as nat) == Err::<
                ASN1TypeV,
                _,
            >(e.deep_view()),
        },
    decreases ty, 1int,
{
    match ty {
        ASN1Type::Boolean(b) => match res_constraint_list(ctx, &b.constraints, fuel) {
            Err(e) => Err(e),
            Ok(cs) => Ok(ASN1Type::Boolean(Boolean { constraints: cs })),
        },
        ASN1Type::Integer(i) => match res_constraint_list(ctx, &i.constraints, fuel) {
            Err(e) => Err(e),
            Ok(cs) => Ok(
                ASN1Type::Integer(
                    Integer {
                        constraints: cs,
                        distinguished_values: copy_dvs(&i.distinguished_values),
                        used_in_const: i.used_in_const,
                    },
                ),
            ),
        },
        ASN1Type::CharacterString(c) => match res_constraint_list(ctx, &c.constraints, fuel) {
            Err(e) => Err(e),
            Ok(cs) => Ok(
                ASN1Type::CharacterString(CharacterString { constraints: cs, kind: c.kind }),
            ),
        },
        ASN1Type::Enumerated(e) => Ok(ASN1Type::Enumerated(copy_enumerated(e))),
        ASN1Type::Sequence(s) => match res_members(ctx, &s.members, fuel) {
            Err(e) => Err(e),
            Ok(ms) => {
                proof {
                    crate::intermediate::lemma_member_list_deep(ms);
                    crate::intermediate::lemma_member_list_deep(s.members);
                }
                Ok(ASN1Type::Sequence(SequenceOrSet { members: ms, extensible: s.extensible }))
            },
        },
        ASN1Type::SetType(s) => match res_members(ctx, &s.members, fuel) {
            Err(e) => Err(e),
            Ok(ms) => {
                proof {
                    crate::intermediate::lemma_member_list_deep(ms);
                    crate::intermediate::lemma_member_list_deep(s.members);
                }
                Ok(ASN1Type::SetType(SequenceOrSet { members: ms, extensible: s.extensible }))
            },
        },
        ASN1Type::Choice(s) => match res_members(ctx, &s.members, fuel) {
            Err(e) => Err(e),
            Ok(ms) => {
                proof {
                    crate::intermediate::lemma_member_list_deep(ms);
                    crate::intermediate::lemma_member_list_deep(s.members);
                }
                Ok(ASN1Type::Choice(SequenceOrSet { members: ms, extensible: s.extensible }))
            },
        },
        ASN1Type::SequenceOf(so) => match res_constraint_list(ctx, &so.constraints, fuel) {
            Err(e) => Err(e),
            Ok(cs) => match res_type(ctx, &so.element_type, fuel) {
                Err(e) => Err(e),
                Ok(el) => Ok(
                    ASN1Type::SequenceOf(
                        SequenceOrSetOf { constraints: cs, element_type: Box::new(el) },
                    ),
                ),
            },
        },
        ASN1Type::SetOf(so) => match res_constraint_list(ctx, &so.constraints, fuel) {
            Err(e) => Err(e),
            Ok(cs) => match res_type(ctx, &so.element_type, fuel) {
                Err(e) => Err(e),
                Ok(el) => Ok(
                    ASN1Type::SetOf(
                        SequenceOrSetOf { constraints: cs, element_type: Box::new(el) },
                    ),
                ),
            },
        },
        ASN1Type::ElsewhereDeclaredType(d) => {
            if find_type(ctx, &d.identifier).is_none() {
                Err(CompilerError::UnresolvedReference { identifier: d.identifier.clone() })
            } else {
                match res_constraint_list(ctx, &d.constraints, fuel) {
                    Err(e) => Err(e),
                    Ok(cs) => Ok(
                        ASN1Type::ElsewhereDeclaredType(
                            DeclarationElsewhere {
                                identifier: d.identifier.clone(),
                                constraints: cs,
                            },
                        ),
                    ),
                }
            }
        },
        ASN1Type::InformationObjectFieldReference(r0) => Ok(
            ASN1Type::InformationObjectFieldReference(
                crate::intermediate::InformationObjectFieldReference {
                    class: r0.class.clone(),
                    field: r0.field.clone(),
                },
            ),
        ),
    }
}

/// Copies a distinguished-value table.
fn copy_dvs(dvs: &Option<Vec<DistinguishedValue>>) -> (r: Option<Vec<DistinguishedValue>>)
    ensures
        match (r, dvs) {
            (Some(a), Some(b)) => a.deep_view() == b.deep_view(),
            (None, None) => true,
            _ => false,
        },
{
    match dvs {
        None => None,
        Some(list) => {
            let mut out: Vec<DistinguishedValue> = Vec::new();
            let mut i: usize = 0;
            proof {
                assert(out.deep_view() =~= list.deep_view().take(0));
            }
            while i < list.len()
                invariant
                    i <= list@.len(),
                    out.deep_view() == list.deep_view().take(i as int),
                decreases list@.len() - i,
            {
                let ghost outd = out.deep_view();
                let elem = DistinguishedValue {
                    name: list[i].name.clone(),
                    value: list[i].value,
                };
                let ghost ev = elem.deep_view();
                out.push(elem);
                proof {
                    assert(ev == list@[i as int].deep_view());
                    assert(out.deep_view() =~~= outd.push(ev));
                    assert(outd.push(ev) =~~= list.deep_view().take(i + 1));
                }
                i = i + 1;
            }
            proof {
                assert(list.deep_view().take(list@.len() as int) =~= list.deep_view());
            }
            Some(out)
        },
    }
}

/// Copies an enumerated type unchanged.
fn copy_enumerated(e: &Enumerated) -> (r: Enumerated)
    ensures
        r.deep_view() == e.deep_view(),
{
    let members = match copy_dvs(&Some(copy_members_hack(&e.members))) {
        Some(m) => m,
        None => Vec::new(),
    };
    Enumerated { members, extensible: e.extensible }
}

/// Copies a distinguished-value vector.
fn copy_members_hack(list: &Vec<DistinguishedValue>) -> (r: Vec<DistinguishedValue>)
    ensures
        r.deep_view() == list.deep_view(),
{
    let mut out: Vec<DistinguishedValue> = Vec::new();
    let mut i: usize = 0;
    proof {
        assert(out.deep_view() =~= list.deep_view().take(0));
    }
    while i < list.len()
        invariant
            i <= list@.len(),
            out.deep_view() == list.deep_view().take(i as int),
        decreases list@.len() - i,
    {
        let ghost outd = out.deep_view();
        let elem = DistinguishedValue { name: list[i].name.clone(), value: list[i].value };
        let ghost ev = elem.deep_view();
        out.push(elem);
        proof {
            assert(ev == list@[i as int].deep_view());
            assert(out.deep_view() =~~= outd.push(ev));
            assert(outd.push(ev) =~~= list.deep_view().take(i + 1));
        }
        i = i + 1;
    }
    proof {
        assert(list.deep_view().take(list@.len() as int) =~= list.deep_view());
    }
    out
}

/// Resolves a member list; the twin of `spec_res_members`.
fn res_members(ctx: &Vec<Assignment>, ms: &Vec<SequenceOrSetMember>, fuel: usize) -> (r: Result<
    Vec<SequenceOrSetMember>,
    CompilerError,
>)
    ensures
        match r {
            Ok(rms) => spec_res_members(
                ctx.deep_view(),
                crate::intermediate::view_member_list(ms@),
                fuel as nat,
            ) == Ok::<_, CompilerErrorV>(crate::intermediate::view_member_list(rms@)),
            Err(e) => spec_res_members(
                ctx.deep_view(),
                crate::intermediate::view_member_list(ms@),
                fuel as nat,
            ) == Err::<Seq<SequenceOrSetMemberV>, _>(e.deep_view()),
        },
    decreases ms@, 0int,
{
    proof {
        crate::intermediate::lemma_member_list_deep(*ms);
    }
    let ghost msd = ms.deep_view();
    let mut out: Vec<SequenceOrSetMember> = Vec::new();
    let mut i: usize = 0;
    proof {
        assert(msd.skip(0) =~= msd);
        assert(out.deep_view() =~= Seq::<SequenceOrSetMemberV>::empty());
        crate::intermediate::lemma_view_member_list(ms@);
    }
    while i < ms.len()
        invariant
            i <= ms@.len(),
            msd == ms.deep_view(),
            crate::intermediate::view_member_list(ms@) == msd,
            spec_res_members(ctx.deep_view(), msd, fuel as nat) matches Ok(full)
                ==> spec_res_members(ctx.deep_view(), msd.skip(i as int), fuel as nat)
                    matches Ok(rest) && full == out.deep_view() + rest,
            spec_res_members(ctx.deep_view(), msd, fuel as nat) matches Err(e)
                ==> spec_res_members(ctx.deep_view(), msd.skip(i as int), fuel as nat)
                    matches Err(e2) && e == e2,
        decreases ms@.len() - i,
    {
        proof {
            assert(msd.skip(i as int)[0] == msd[i as int]);
            assert(msd.skip(i as int).skip(1) =~= msd.skip(i + 1));
        }
        let m: &SequenceOrSetMember = &ms[i];
        match res_type(ctx, &m.member_type, fuel) {
            Err(e) => {
                proof {
                    crate::intermediate::lemma_member_list_deep(out);
                }
                return Err(e);
            },
            Ok(ty) => {
                let copied_default: Option<ASN1Value> = match &m.default_value {
                    Some(v) => Some(copy_value(v)),
                    None => None,
                };
                let m2 = SequenceOrSetMember {
                    name: m.name.clone(),
                    tag: m.tag,
                    member_type: ty,
                    default_value: copied_default,
                    is_optional: m.is_optional,
                };
                let ghost outd = out.deep_view();
                let ghost m2v = m2.deep_view();
                out.push(m2);
                proof {
                    assert(out.deep_view() =~= outd.push(m2v));
                    if spec_res_members(ctx.deep_view(), msd, fuel as nat) is Ok {
                        let rest = spec_res_members(
                            ctx.deep_view(),
                            msd.skip(i as int),
                            fuel as nat,
                        )->Ok_0;
                        let rest2 = spec_res_members(
                            ctx.deep_view(),
                            msd.skip(i + 1),
                            fuel as nat,
                        )->Ok_0;
                        assert(rest =~= seq![m2v] + rest2);
                        assert(outd + rest =~= outd.push(m2v) + rest2);
                    }
                }
            },
        }
        i = i + 1;
    }
    proof {
        assert(msd.skip(i as int) =~= Seq::<SequenceOrSetMemberV>::empty());
        if spec_res_members(ctx.deep_view(), msd, fuel as nat) is Ok {
            assert(spec_res_members(ctx.deep_view(), msd, fuel as nat)->Ok_0
                =~= out.deep_view());
        }
        crate::intermediate::lemma_member_list_deep(out);
    }
    Ok(out)
}

/// Deep-copies a value.
pub fn copy_value(v: &ASN1Value) -> (r: ASN1Value)
    ensures
        r.deep_view() == v.deep_view(),
    decreases v,
{
    match v {
        ASN1Value::Boolean(b) => ASN1Value::Boolean(*b),
        ASN1Value::Integer(i) => ASN1Value::Integer(*i),
        ASN1Value::StringValue(s) => ASN1Value::StringValue(s.clone()),
        ASN1Value::ElsewhereDeclaredValue(s) => ASN1Value::ElsewhereDeclaredValue(s.clone()),
        ASN1Value::Max => ASN1Value::Max,
        ASN1Value::Min => ASN1Value::Min,
        ASN1Value::SequenceOrSetOf(items) => {
            let mut out: Vec<ASN1Value> = Vec::new();
            let mut i: usize = 0;
            proof {
                crate::intermediate::lemma_view_value_list(items@);
                assert(out.deep_view() =~= items.deep_view().take(0));
            }
            while i < items.len()
                invariant
                    i <= items@.len(),
                    out.deep_view() == items.deep_view().take(i as int),
                    items@ == old_items_view(v),
                    v matches ASN1Value::SequenceOrSetOf(it) && it@ == items@,
                decreases items@.len() - i,
            {
                let c = copy_value(&items[i]);
                let ghost outd = out.deep_view();
                let ghost ev = c.deep_view();
                out.push(c);
                proof {
                    assert(ev == items@[i as int].deep_view());
                    assert(out.deep_view() =~~= outd.push(ev));
                    assert(outd.push(ev) =~~= items.deep_view().take(i + 1));
                }
                i = i + 1;
            }
            proof {
                assert(items.deep_view().take(items@.len() as int) =~= items.deep_view());
                crate::intermediate::lemma_value_list_deep(out);
                crate::intermediate::lemma_value_list_deep(*items);
            }
            ASN1Value::SequenceOrSetOf(out)
        },
    }
}

/// The element vector of a compound value, for loop bookkeeping.
pub open spec fn old_items_view(v: &ASN1Value) -> Seq<ASN1Value> {
    match v {
        ASN1Value::SequenceOrSetOf(it) => it@,
        _ => Seq::empty(),
    }
}

/// Resolves the whole assignment list; the twin of
/// `spec_resolve_references`.
pub fn resolve_references_of(ctx: &Vec<Assignment>, asgs: &Vec<Assignment>, fuel: usize) -> (r:
    Result<Vec<Assignment>, CompilerError>)
    ensures
        match r {
            Ok(out) => spec_resolve_references(ctx.deep_view(), asgs.deep_view(), fuel as nat)
                == Ok::<_, CompilerErrorV>(out.deep_view()),
            Err(e) => spec_resolve_references(ctx.deep_view(), asgs.deep_view(), fuel as nat)
                == Err::<Seq<AssignmentV>, _>(e.deep_view()),
        },
{
    let ghost cd = asgs.deep_view();
    let mut out: Vec<Assignment> = Vec::new();
    let mut i: usize = 0;
    proof {
        assert(cd.skip(0) =~= cd);
        assert(out.deep_view() =~= Seq::<AssignmentV>::empty());
    }
    while i < asgs.len()
        invariant
            i <= asgs@.len(),
            cd == asgs.deep_view(),
            spec_resolve_references(ctx.deep_view(), cd, fuel as nat) matches Ok(full)
                ==> spec_resolve_references(ctx.deep_view(), cd.skip(i as int), fuel as nat)
                    matches Ok(rest) && full == out.deep_view() + rest,
            spec_resolve_references(ctx.deep_view(), cd, fuel as nat) matches Err(e)
                ==> spec_resolve_references(ctx.deep_view(), cd.skip(i as int), fuel as nat)
                    matches Err(e2) && e == e2,
        decreases asgs@.len() - i,
    {
        proof {
            assert(cd.skip(i as int)[0] == cd[i as int]);
            assert(cd.skip(i as int).skip(1) =~= cd.skip(i + 1));
        }
        let head: Result<Assignment, CompilerError> = match &asgs[i] {
            Assignment::Type(ta) => match res_type(ctx, &ta.ty, fuel) {
                Err(e) => Err(e),
                Ok(ty) => Ok(Assignment::Type(TypeAssignment { name: ta.name.clone(), ty })),
            },
            Assignment::Value(va) => match res_type(ctx, &va.type_ref, fuel) {
                Err(e) => Err(e),
                Ok(tr) => Ok(
                    Assignment::Value(
                        ValueAssignment {
                            name: va.name.clone(),
                            type_ref: tr,
                            value: copy_value(&va.value),
                        },
                    ),
                ),
            },
        };
        match head {
            Err(e) => {
                return Err(e);
            },
            Ok(a0) => {
                let ghost outd = out.deep_view();
                let ghost a0v = a0.deep_view();
                out.push(a0);
                proof {
                    assert(out.deep_view() =~= outd.push(a0v));
                    if spec_resolve_references(ctx.deep_view(), cd, fuel as nat) is Ok {
                        let rest = spec_resolve_references(
                            ctx.deep_view(),
                            cd.skip(i as int),
                            fuel as nat,
                        )->Ok_0;
                        let rest2 = spec_resolve_references(
                            ctx.deep_view(),
                            cd.skip(i + 1),
                            fuel as nat,
                        )->Ok_0;
                        assert(rest =~= seq![a0v] + rest2);
                        assert(outd + rest =~= outd.push(a0v) + rest2);
                    }
                }
            },
        }
        i = i + 1;
    }
    proof {
        assert(cd.skip(i as int) =~= Seq::<AssignmentV>::empty());
        if spec_resolve_references(ctx.deep_view(), cd, fuel as nat) is Ok {
            assert(spec_resolve_references(ctx.deep_view(), cd, fuel as nat)->Ok_0
                =~= out.deep_view());
        }
    }
    Ok(out)
}

/// Resolves the whole list against itself.
pub fn resolve_references(ctx: &Vec<Assignment>, fuel: usize) -> (r: Result<
    Vec<Assignment>,
    CompilerError,
>)
    ensures
        match r {
            Ok(out) => spec_resolve_references(ctx.deep_view(), ctx.deep_view(), fuel as nat)
                == Ok::<_, CompilerErrorV>(out.deep_view()),
            Err(e) => spec_resolve_references(ctx.deep_view(), ctx.deep_view(), fuel as nat)
                == Err::<Seq<AssignmentV>, _>(e.deep_view()),
        },
{
    resolve_references_of(ctx, ctx, fuel)
}

// ---------------------------------------------------------------------
// Pass 2: default and value resolution.
// ---------------------------------------------------------------------

/// The ground kind a type delegates to.
#[derive(Debug, Clone, Copy, PartialEq, Eq)]
pub enum BaseKind {
    BoolKind,
    IntKind,
    StrKind,
    StructKind,
    ChoiceKind,
    EnumKind,
    SeqOfKind,
    OpaqueKind,
}

impl DeepView for BaseKind {
    type V = BaseKind;

    open spec fn deep_view(&self) -> BaseKind {
        *self
    }
}

/// Follows delegation chains to the ground kind of a type.
pub open spec fn spec_base_kind(ctx: Seq<AssignmentV>, tv: ASN1TypeV, fuel: nat) -> Result<
    BaseKind,
    CompilerErrorV,
>
    decreases fuel,
{
    match tv {
        ASN1TypeV::Boolean(_) => Ok(BaseKind::BoolKind),
        ASN1TypeV::Integer(_) => Ok(BaseKind::IntKind),
        ASN1TypeV::CharacterString(_) => Ok(BaseKind::StrKind),
        ASN1TypeV::Enumerated(_) => Ok(BaseKind::EnumKind),
        ASN1TypeV::Sequence(_) => Ok(BaseKind::StructKind),
        ASN1TypeV::SetType(_) => Ok(BaseKind::StructKind),
        ASN1TypeV::Choice(_) => Ok(BaseKind::ChoiceKind),
        ASN1TypeV::SequenceOf(_) => Ok(BaseKind::SeqOfKind),
        ASN1TypeV::SetOf(_) => Ok(BaseKind::SeqOfKind),
        ASN1TypeV::ElsewhereDeclaredType(d) => match spec_find_type(ctx, d.identifier) {
            None => Err(CompilerErrorV::UnresolvedReference { identifier: d.identifier }),
            Some(target) => {
                if fuel == 0 {
                    Err(CompilerErrorV::CyclicReference { identifier: d.identifier })
                } else {
                    spec_base_kind(ctx, target, (fuel - 1) as nat)
                }
            },
        },
        ASN1TypeV::InformationObjectFieldReference(_) => Ok(BaseKind::OpaqueKind),
    }
}

/// Whether a resolved literal fits a ground kind.
pub open spec fn spec_kind_matches(k: BaseKind, v: ASN1ValueV) -> bool {
    match k {
        BaseKind::BoolKind => v is Boolean,
        BaseKind::IntKind => v is Integer,
        BaseKind::StrKind => v is StringValue,
        BaseKind::StructKind => v is SequenceOrSetOf,
        BaseKind::SeqOfKind => v is SequenceOrSetOf,
        BaseKind::ChoiceKind => true,
        BaseKind::EnumKind => true,
        BaseKind::OpaqueKind => true,
    }
}

/// A default or supplied value, with references resolved to literals.
pub open spec fn spec_ground_value(ctx: Seq<AssignmentV>, v: ASN1ValueV, fuel: nat) -> Result<
    ASN1ValueV,
    CompilerErrorV,
> {
    if v is ElsewhereDeclaredValue {
        spec_resolve_value_ref(ctx, v->ElsewhereDeclaredValue_0, fuel)
    } else {
        Ok(v)
    }
}

/// Resolves the `DEFAULT` expressions of a member list into typed
/// literals, checking each against its member's ground kind.
pub open spec fn spec_res_defaults_members(
    ctx: Seq<AssignmentV>,
    ms: Seq<SequenceOrSetMemberV>,
    fuel: nat,
) -> Result<Seq<SequenceOrSetMemberV>, CompilerErrorV>
    decreases ms.len(),
{
    if ms.len() == 0 {
        Ok(Seq::empty())
    } else {
        let m = ms[0];
        let head: Result<SequenceOrSetMemberV, CompilerErrorV> = match m.default_value {
            None => Ok(m),
            Some(d) => match spec_ground_value(ctx, d, fuel) {
                Err(e) => Err(e),
                Ok(lit) => match spec_base_kind(ctx, m.member_type, fuel) {
                    Err(e) => Err(e),
                    Ok(k) => {
                        if spec_kind_matches(k, lit) {
                            Ok(
                                SequenceOrSetMemberV {
                                    name: m.name,
                                    tag: m.tag,
                                    member_type: m.member_type,
                                    default_value: Some(lit),
                                    is_optional: m.is_optional,
                                },
                            )
                        } else {
                            Err(CompilerErrorV::TypeMismatch { name: m.name })
                        }
                    },
                },
            },
        };
        match head {
            Err(e) => Err(e),
            Ok(m0) => match spec_res_defaults_members(ctx, ms.skip(1), fuel) {
                Err(e) => Err(e),
                Ok(rest) => Ok(seq![m0] + rest),
            },
        }
    }
}

/// The member list a (possibly delegating) structured type grounds in.
pub open spec fn spec_struct_members(ctx: Seq<AssignmentV>, tv: ASN1TypeV, fuel: nat) -> Result<
    Seq<SequenceOrSetMemberV>,
    CompilerErrorV,
>
    decreases fuel,
{
    match tv {
        ASN1TypeV::Sequence(s) => Ok(s.members),
        ASN1TypeV::SetType(s) => Ok(s.members),
        ASN1TypeV::ElsewhereDeclaredType(d) => match spec_find_type(ctx, d.identifier) {
            None => Err(CompilerErrorV::UnresolvedReference { identifier: d.identifier }),
            Some(target) => {
                if fuel == 0 {
                    Err(CompilerErrorV::CyclicReference { identifier: d.identifier })
                } else {
                    spec_struct_members(ctx, target, (fuel - 1) as nat)
                }
            },
        },
        _ => Err(CompilerErrorV::TypeMismatch { name: Seq::empty() }),
    }
}

/// Fills a structured-type literal in field order: a supplied value is
/// consumed by the first member whose ground kind it fits; an absent
/// member takes its default; anything else is a type mismatch.
pub open spec fn spec_fill_members(
    ctx: Seq<AssignmentV>,
    ms: Seq<SequenceOrSetMemberV>,
    items: Seq<ASN1ValueV>,
    fuel: nat,
) -> Result<Seq<ASN1ValueV>, CompilerErrorV>
    decreases ms.len(),
{
    if ms.len() == 0 {
        if items.len() == 0 {
            Ok(Seq::empty())
        } else {
            Err(CompilerErrorV::TypeMismatch { name: Seq::empty() })
        }
    } else {
        match spec_base_kind(ctx, ms[0].member_type, fuel) {
            Err(e) => Err(e),
            Ok(mk) => {
                let supplied: Result<Option<ASN1ValueV>, CompilerErrorV> = if items.len() > 0 {
                    match spec_ground_value(ctx, items[0], fuel) {
                        Err(e) => Err(e),
                        Ok(g) => {
                            if spec_kind_matches(mk, g) {
                                Ok(Some(g))
                            } else {
                                Ok(None)
                            }
                        },
                    }
                } else {
                    Ok(None)
                };
                match supplied {
                    Err(e) => Err(e),
                    Ok(Some(g)) => match spec_fill_members(
                        ctx,
                        ms.skip(1),
                        items.skip(1),
                        fuel,
                    ) {
                        Err(e) => Err(e),
                        Ok(rest) => Ok(seq![g] + rest),
                    },
                    Ok(None) => match ms[0].default_value {
                        Some(d) => match spec_ground_value(ctx, d, fuel) {
                            Err(e) => Err(e),
                            Ok(lit) => match spec_fill_members(ctx, ms.skip(1), items, fuel) {
                                Err(e) => Err(e),
                                Ok(rest) => Ok(seq![lit] + rest),
                            },
                        },
                        None => Err(CompilerErrorV::TypeMismatch { name: ms[0].name }),
                    },
                }
            },
        }
    }
}

/// Resolves one value assignment: the value is grounded, checked
/// against the declared type's ground kind, and, for structured types,
/// filled in field order.
pub open spec fn spec_res_value_assignment(
    ctx: Seq<AssignmentV>,
    va: ValueAssignmentV,
    fuel: nat,
) -> Result<ValueAssignmentV, CompilerErrorV> {
    match spec_base_kind(ctx, va.type_ref, fuel) {
        Err(e) => Err(e),
        Ok(base) => {
            if base is StructKind {
                if va.value is SequenceOrSetOf {
                    match spec_struct_members(ctx, va.type_ref, fuel) {
                        Err(e) => Err(e),
                        Ok(ms) => match spec_fill_members(
                            ctx,
                            ms,
                            va.value->SequenceOrSetOf_0,
                            fuel,
                        ) {
                            Err(e) => Err(e),
                            Ok(filled) => Ok(
                                ValueAssignmentV {
                                    name: va.name,
                                    type_ref: va.type_ref,
                                    value: ASN1ValueV::SequenceOrSetOf(filled),
                                },
                            ),
                        },
                    }
                } else {
                    Err(CompilerErrorV::TypeMismatch { name: va.name })
                }
            } else {
                match spec_ground_value(ctx, va.value, fuel) {
                    Err(e) => Err(e),
                    Ok(g) => {
                        if spec_kind_matches(base, g) {
                            Ok(
                                ValueAssignmentV {
                                    name: va.name,
                                    type_ref: va.type_ref,
                                    value: g,
                                },
                            )
                        } else {
                            Err(CompilerErrorV::TypeMismatch { name: va.name })
                        }
                    },
                }
            }
        },
    }
}

/// Pass 2 over the whole assignment list.  Idempotent: literals stay
/// as they are, so a second run changes nothing.
pub open spec fn spec_resolve_defaults(
    ctx: Seq<AssignmentV>,
    asgs: Seq<AssignmentV>,
    fuel: nat,
) -> Result<Seq<AssignmentV>, CompilerErrorV>
    decreases asgs.len(),
{
    if asgs.len() == 0 {
        Ok(Seq::empty())
    } else {
        let head: Result<AssignmentV, CompilerErrorV> = match asgs[0] {
            AssignmentV::Type(ta) => match ta.ty {
                ASN1TypeV::Sequence(st) => match spec_res_defaults_members(
                    ctx,
                    st.members,
                    fuel,
                ) {
                    Err(e) => Err(e),
                    Ok(ms) => Ok(
                        AssignmentV::Type(
                            TypeAssignmentV {
                                name: ta.name,
                                ty: ASN1TypeV::Sequence(
                                    SequenceOrSetV {
                                        members: ms,
                                        extensible: st.extensible,
                                    },
                                ),
                            },
                        ),
                    ),
                },
                ASN1TypeV::SetType(st) => match spec_res_defaults_members(
                    ctx,
                    st.members,
                    fuel,
                ) {
                    Err(e) => Err(e),
                    Ok(ms) => Ok(
                        AssignmentV::Type(
                            TypeAssignmentV {
                                name: ta.name,
                                ty: ASN1TypeV::SetType(
                                    SequenceOrSetV {
                                        members: ms,
                                        extensible: st.extensible,
                                    },
                                ),
                            },
                        ),
                    ),
                },
                _ => Ok(AssignmentV::Type(ta)),
            },
            AssignmentV::Value(va) => match spec_res_value_assignment(ctx, va, fuel) {
                Err(e) => Err(e),
                Ok(rva) => Ok(AssignmentV::Value(rva)),
            },
        };
        match head {
            Err(e) => Err(e),
            Ok(a0) => match spec_resolve_defaults(ctx, asgs.skip(1), fuel) {
                Err(e) => Err(e),
                Ok(rest) => Ok(seq![a0] + rest),
            },
        }
    }
}

// ---------------------------------------------------------------------
// Pass 3: tag assignment.
// ---------------------------------------------------------------------

/// Under automatic tagging, members without an explicit tag receive
/// sequential context-specific tags in declaration order; members with
/// explicit tags are left untouched and do not advance the counter.
pub open spec fn spec_tag_members(ms: Seq<SequenceOrSetMemberV>, count: nat) -> Seq<
    SequenceOrSetMemberV,
>
    decreases ms.len(),
{
    if ms.len() == 0 {
        Seq::empty()
    } else {
        let m = ms[0];
        if m.tag is Some {
            seq![m] + spec_tag_members(ms.skip(1), count)
        } else {
            let tagged = SequenceOrSetMemberV {
                name: m.name,
                tag: Some(
                    AsnTag {
                        class: TagClass::ContextSpecific,
                        number: (count % 0x1_0000_0000_0000_0000) as u64,
                        automatic: true,
                    },
                ),
                member_type: m.member_type,
                default_value: m.default_value,
                is_optional: m.is_optional,
            };
            seq![tagged] + spec_tag_members(ms.skip(1), count + 1)
        }
    }
}

/// Pass 3 over the whole assignment list.  A no-op except under
/// automatic tagging; idempotent, since assigned tags count as tags.
pub open spec fn spec_assign_tags(asgs: Seq<AssignmentV>, mode: TaggingMode) -> Seq<AssignmentV>
    decreases asgs.len(),
{
    if !(mode is Automatic) || asgs.len() == 0 {
        asgs
    } else {
        let head = match asgs[0] {
            AssignmentV::Type(ta) => match ta.ty {
                ASN1TypeV::Sequence(st) => AssignmentV::Type(
                    TypeAssignmentV {
                        name: ta.name,
                        ty: ASN1TypeV::Sequence(
                            SequenceOrSetV {
                                members: spec_tag_members(st.members, 0),
                                extensible: st.extensible,
                            },
                        ),
                    },
                ),
                ASN1TypeV::SetType(st) => AssignmentV::Type(
                    TypeAssignmentV {
                        name: ta.name,
                        ty: ASN1TypeV::SetType(
                            SequenceOrSetV {
                                members: spec_tag_members(st.members, 0),
                                extensible: st.extensible,
                            },
                        ),
                    },
                ),
                ASN1TypeV::Choice(st) => AssignmentV::Type(
                    TypeAssignmentV {
                        name: ta.name,
                        ty: ASN1TypeV::Choice(
                            SequenceOrSetV {
                                members: spec_tag_members(st.members, 0),
                                extensible: st.extensible,
                            },
                        ),
                    },
                ),
                _ => AssignmentV::Type(ta),
            },
            AssignmentV::Value(va) => AssignmentV::Value(va),
        };
        seq![head] + spec_assign_tags(asgs.skip(1), mode)
    }
}

/// Deep-copies a type.
pub fn copy_type(ty: &ASN1Type) -> (r: ASN1Type)
    ensures
        r.deep_view() == ty.deep_view(),
    decreases ty, 1int,
{
    match ty {
        ASN1Type::Boolean(b) => ASN1Type::Boolean(
            Boolean { constraints: copy_constraints(&b.constraints) },
        ),
        ASN1Type::Integer(i) => ASN1Type::Integer(
            Integer {
                constraints: copy_constraints(&i.constraints),
                distinguished_values: copy_dvs(&i.distinguished_values),
                used_in_const: i.used_in_const,
            },
        ),
        ASN1Type::CharacterString(c) => ASN1Type::CharacterString(
            CharacterString { constraints: copy_constraints(&c.constraints), kind: c.kind },
        ),
        ASN1Type::Enumerated(e) => ASN1Type::Enumerated(copy_enumerated(e)),
        ASN1Type::Sequence(st) => {
            let ms = copy_member_list(&st.members);
            proof {
                crate::intermediate::lemma_member_list_deep(ms);
                crate::intermediate::lemma_member_list_deep(st.members);
            }
            ASN1Type::Sequence(SequenceOrSet { members: ms, extensible: st.extensible })
        },
        ASN1Type::SetType(st) => {
            let ms = copy_member_list(&st.members);
            proof {
                crate::intermediate::lemma_member_list_deep(ms);
                crate::intermediate::lemma_member_list_deep(st.members);
            }
            ASN1Type::SetType(SequenceOrSet { members: ms, extensible: st.extensible })
        },
        ASN1Type::Choice(st) => {
            let ms = copy_member_list(&st.members);
            proof {
                crate::intermediate::lemma_member_list_deep(ms);
                crate::intermediate::lemma_member_list_deep(st.members);
            }
            ASN1Type::Choice(SequenceOrSet { members: ms, extensible: st.extensible })
        },
        ASN1Type::SequenceOf(so) => ASN1Type::SequenceOf(
            SequenceOrSetOf {
                constraints: copy_constraints(&so.constraints),
                element_type: Box::new(copy_type(&so.element_type)),
            },
        ),
        ASN1Type::SetOf(so) => ASN1Type::SetOf(
            SequenceOrSetOf {
                constraints: copy_constraints(&so.constraints),
                element_type: Box::new(copy_type(&so.element_type)),
            },
        ),
        ASN1Type::ElsewhereDeclaredType(d) => ASN1Type::ElsewhereDeclaredType(
            DeclarationElsewhere {
                identifier: d.identifier.clone(),
                constraints: copy_constraints(&d.constraints),
            },
        ),
        ASN1Type::InformationObjectFieldReference(r0) => {
            ASN1Type::InformationObjectFieldReference(
                crate::intermediate::InformationObjectFieldReference {
                    class: r0.class.clone(),
                    field: r0.field.clone(),
                },
            )
        },
    }
}

/// Deep-copies a constraint list.
fn copy_constraints(cs: &Vec<Constraint>) -> (r: Vec<Constraint>)
    ensures
        r.deep_view() == cs.deep_view(),
    decreases cs@,
{
    let ghost csd = cs.deep_view();
    let mut out: Vec<Constraint> = Vec::new();
    let mut i: usize = 0;
    proof {
        assert(out.deep_view() =~= csd.take(0));
    }
    while i < cs.len()
        invariant
            i <= cs@.len(),
            csd == cs.deep_view(),
            out.deep_view() == csd.take(i as int),
        decreases cs@.len() - i,
    {
        let c: &Constraint = &cs[i];
        let copied: Constraint = match c {
            Constraint::SubtypeConstraint(es) => Constraint::SubtypeConstraint(
                ElementSet { set: copy_op(&es.set), extensible: es.extensible },
            ),
            Constraint::Parameter(ps) => Constraint::Parameter(copy_parameters(ps)),
        };
        let ghost outd = out.deep_view();
        let ghost ev = copied.deep_view();
        out.push(copied);
        proof {
            assert(ev == csd[i as int]);
            assert(out.deep_view() =~~= outd.push(ev));
            assert(outd.push(ev) =~~= csd.take(i + 1));
        }
        i = i + 1;
    }
    proof {
        assert(csd.take(csd.len() as int) =~= csd);
    }
    out
}

/// Deep-copies a constraint tree.
fn copy_op(op: &ElementOrSetOperation) -> (r: ElementOrSetOperation)
    ensures
        r.deep_view() == op.deep_view(),
    decreases op,
{
    match op {
        ElementOrSetOperation::Element(el) => ElementOrSetOperation::Element(copy_element(el)),
        ElementOrSetOperation::SetOperation(so) => ElementOrSetOperation::SetOperation(
            SetOperation {
                base: copy_element(&so.base),
                operator: so.operator,
                operant: Box::new(copy_op(&so.operant)),
            },
        ),
    }
}

/// Deep-copies a subtype element.
fn copy_element(el: &SubtypeElement) -> (r: SubtypeElement)
    ensures
        r.deep_view() == el.deep_view(),
    decreases el,
{
    match el {
        SubtypeElement::SingleValue { value, extensible } => SubtypeElement::SingleValue {
            value: copy_value(value),
            extensible: *extensible,
        },
        SubtypeElement::ValueRange { min, max, extensible } => SubtypeElement::ValueRange {
            min: match min {
                Some(v) => Some(copy_value(v)),
                None => None,
            },
            max: match max {
                Some(v) => Some(copy_value(v)),
                None => None,
            },
            extensible: *extensible,
        },
        SubtypeElement::SizeConstraint(inner) => SubtypeElement::SizeConstraint(
            Box::new(copy_op(inner)),
        ),
        SubtypeElement::PermittedAlphabet(inner) => SubtypeElement::PermittedAlphabet(
            Box::new(copy_op(inner)),
        ),
    }
}

/// Deep-copies one member.
fn copy_member(m: &SequenceOrSetMember) -> (r: SequenceOrSetMember)
    ensures
        r.deep_view() == m.deep_view(),
    decreases m,
{
    SequenceOrSetMember {
        name: m.name.clone(),
        tag: m.tag,
        member_type: copy_type(&m.member_type),
        default_value: match &m.default_value {
            Some(v) => Some(copy_value(v)),
            None => None,
        },
        is_optional: m.is_optional,
    }
}

/// Deep-copies a member list.
fn copy_member_list(ms: &Vec<SequenceOrSetMember>) -> (r: Vec<SequenceOrSetMember>)
    ensures
        r.deep_view() == ms.deep_view(),
    decreases ms@, 0int,
{
    let ghost msd = ms.deep_view();
    let mut out: Vec<SequenceOrSetMember> = Vec::new();
    let mut i: usize = 0;
    proof {
        assert(out.deep_view() =~= msd.take(0));
    }
    while i < ms.len()
        invariant
            i <= ms@.len(),
            msd == ms.deep_view(),
            out.deep_view() == msd.take(i as int),
        decreases ms@.len() - i,
    {
        let copied = copy_member(&ms[i]);
        let ghost outd = out.deep_view();
        let ghost ev = copied.deep_view();
        out.push(copied);
        proof {
            assert(ev == msd[i as int]);
            assert(out.deep_view() =~~= outd.push(ev));
            assert(outd.push(ev) =~~= msd.take(i + 1));
        }
        i = i + 1;
    }
    proof {
        assert(msd.take(msd.len() as int) =~= msd);
    }
    out
}

/// Ground kind of a type; the twin of `spec_base_kind`.
pub fn base_kind(ctx: &Vec<Assignment>, ty: &ASN1Type, fuel: usize) -> (r: Result<
    BaseKind,
    CompilerError,
>)
    ensures
        match r {
            Ok(k) => spec_base_kind(ctx.deep_view(), ty.deep_view(), fuel as nat) == Ok::<
                _,
                CompilerErrorV,
            >(k),
            Err(e) => spec_base_kind(ctx.deep_view(), ty.deep_view(), fuel as nat) == Err::<
                BaseKind,
                _,
            >(e.deep_view()),
        },
    decreases fuel,
{
    match ty {
        ASN1Type::Boolean(_) => Ok(BaseKind::BoolKind),
        ASN1Type::Integer(_) => Ok(BaseKind::IntKind),
        ASN1Type::CharacterString(_) => Ok(BaseKind::StrKind),
        ASN1Type::Enumerated(_) => Ok(BaseKind::EnumKind),
        ASN1Type::Sequence(_) => Ok(BaseKind::StructKind),
        ASN1Type::SetType(_) => Ok(BaseKind::StructKind),
        ASN1Type::Choice(_) => Ok(BaseKind::ChoiceKind),
        ASN1Type::SequenceOf(_) => Ok(BaseKind::SeqOfKind),
        ASN1Type::SetOf(_) => Ok(BaseKind::SeqOfKind),
        ASN1Type::ElsewhereDeclaredType(d) => match find_type(ctx, &d.identifier) {
            None => Err(CompilerError::UnresolvedReference { identifier: d.identifier.clone() }),
            Some(i) => {
                if fuel == 0 {
                    Err(CompilerError::CyclicReference { identifier: d.identifier.clone() })
                } else {
                    match &ctx[i] {
                        Assignment::Type(ta) => base_kind(ctx, &ta.ty, fuel - 1),
                        _ => {
                            proof {
                                assert(false);
                            }
                            Ok(BaseKind::OpaqueKind)
                        },
                    }
                }
            },
        },
        ASN1Type::InformationObjectFieldReference(_) => Ok(BaseKind::OpaqueKind),
    }
}

/// Whether a literal fits a kind; the twin of `spec_kind_matches`.
fn kind_matches(k: BaseKind, v: &ASN1Value) -> (r: bool)
    ensures
        r == spec_kind_matches(k, v.deep_view()),
{
    match k {
        BaseKind::BoolKind => matches!(v, ASN1Value::Boolean(_)),
        BaseKind::IntKind => matches!(v, ASN1Value::Integer(_)),
        BaseKind::StrKind => matches!(v, ASN1Value::StringValue(_)),
        BaseKind::StructKind => matches!(v, ASN1Value::SequenceOrSetOf(_)),
        BaseKind::SeqOfKind => matches!(v, ASN1Value::SequenceOrSetOf(_)),
        BaseKind::ChoiceKind => true,
        BaseKind::EnumKind => true,
        BaseKind::OpaqueKind => true,
    }
}

/// Grounds a value; the twin of `spec_ground_value`.
fn ground_value(ctx: &Vec<Assignment>, v: &ASN1Value, fuel: usize) -> (r: Result<
    ASN1Value,
    CompilerError,
>)
    ensures
        match r {
            Ok(g) => spec_ground_value(ctx.deep_view(), v.deep_view(), fuel as nat) == Ok::<
                _,
                CompilerErrorV,
            >(g.deep_view()),
            Err(e) => spec_ground_value(ctx.deep_view(), v.deep_view(), fuel as nat) == Err::<
                ASN1ValueV,
                _,
            >(e.deep_view()),
        },
{
    match v {
        ASN1Value::ElsewhereDeclaredValue(name) => resolve_value_ref(ctx, name, fuel),
        _ => Ok(copy_value(v)),
    }
}

/// Resolves member defaults; the twin of `spec_res_defaults_members`.
fn res_defaults_members(
    ctx: &Vec<Assignment>,
    ms: &Vec<SequenceOrSetMember>,
    fuel: usize,
) -> (r: Result<Vec<SequenceOrSetMember>, CompilerError>)
    ensures
        match r {
            Ok(rms) => spec_res_defaults_members(ctx.deep_view(), ms.deep_view(), fuel as nat)
                == Ok::<_, CompilerErrorV>(rms.deep_view()),
            Err(e) => spec_res_defaults_members(ctx.deep_view(), ms.deep_view(), fuel as nat)
                == Err::<Seq<SequenceOrSetMemberV>, _>(e.deep_view()),
        },
{
    let ghost msd = ms.deep_view();
    let mut out: Vec<SequenceOrSetMember> = Vec::new();
    let mut i: usize = 0;
    proof {
        assert(msd.skip(0) =~= msd);
        assert(out.deep_view() =~= Seq::<SequenceOrSetMemberV>::empty());
    }
    while i < ms.len()
        invariant
            i <= ms@.len(),
            msd == ms.deep_view(),
            spec_res_defaults_members(ctx.deep_view(), msd, fuel as nat) matches Ok(full)
                ==> spec_res_defaults_members(ctx.deep_view(), msd.skip(i as int), fuel as nat)
                    matches Ok(rest) && full == out.deep_view() + rest,
            spec_res_defaults_members(ctx.deep_view(), msd, fuel as nat) matches Err(e)
                ==> spec_res_defaults_members(ctx.deep_view(), msd.skip(i as int), fuel as nat)
                    matches Err(e2) && e == e2,
        decreases ms@.len() - i,
    {
        proof {
            assert(msd.skip(i as int)[0] == msd[i as int]);
            assert(msd.skip(i as int).skip(1) =~= msd.skip(i + 1));
        }
        let m: &SequenceOrSetMember = &ms[i];
        let head: Result<SequenceOrSetMember, CompilerError> = match &m.default_value {
            None => Ok(copy_member(m)),
            Some(d) => match ground_value(ctx, d, fuel) {
                Err(e) => Err(e),
                Ok(lit) => match base_kind(ctx, &m.member_type, fuel) {
                    Err(e) => Err(e),
                    Ok(k) => {
                        if kind_matches(k, &lit) {
                            Ok(
                                SequenceOrSetMember {
                                    name: m.name.clone(),
                                    tag: m.tag,
                                    member_type: copy_type(&m.member_type),
                                    default_value: Some(lit),
                                    is_optional: m.is_optional,
                                },
                            )
                        } else {
                            Err(CompilerError::TypeMismatch { name: m.name.clone() })
                        }
                    },
                },
            },
        };
        match head {
            Err(e) => {
                return Err(e);
            },
            Ok(m2) => {
                let ghost outd = out.deep_view();
                let ghost mv = m2.deep_view();
                out.push(m2);
                proof {
                    assert(out.deep_view() =~= outd.push(mv));
                    if spec_res_defaults_members(ctx.deep_view(), msd, fuel as nat) is Ok {
                        let rest = spec_res_defaults_members(
                            ctx.deep_view(),
                            msd.skip(i as int),
                            fuel as nat,
                        )->Ok_0;
                        let rest2 = spec_res_defaults_members(
                            ctx.deep_view(),
                            msd.skip(i + 1),
                            fuel as nat,
                        )->Ok_0;
                        assert(rest =~= seq![mv] + rest2);
                        assert(outd + rest =~= outd.push(mv) + rest2);
                    }
                }
            },
        }
        i = i + 1;
    }
    proof {
        assert(msd.skip(i as int) =~= Seq::<SequenceOrSetMemberV>::empty());
        if spec_res_defaults_members(ctx.deep_view(), msd, fuel as nat) is Ok {
            assert(spec_res_defaults_members(ctx.deep_view(), msd, fuel as nat)->Ok_0
                =~= out.deep_view());
        }
    }
    Ok(out)
}

/// Member list a structured type grounds in; the twin of
/// `spec_struct_members`.
pub fn struct_members<'a>(ctx: &'a Vec<Assignment>, ty: &'a ASN1Type, fuel: usize) -> (r: Result<
    &'a Vec<SequenceOrSetMember>,
    CompilerError,
>)
    ensures
        match r {
            Ok(ms) => spec_struct_members(ctx.deep_view(), ty.deep_view(), fuel as nat) == Ok::<
                _,
                CompilerErrorV,
            >(ms.deep_view()),
            Err(e) => spec_struct_members(ctx.deep_view(), ty.deep_view(), fuel as nat)
                == Err::<Seq<SequenceOrSetMemberV>, _>(e.deep_view()),
        },
    decreases fuel,
{
    match ty {
        ASN1Type::Sequence(st) => {
            proof {
                crate::intermediate::lemma_member_list_deep(st.members);
            }
            Ok(&st.members)
        },
        ASN1Type::SetType(st) => {
            proof {
                crate::intermediate::lemma_member_list_deep(st.members);
            }
            Ok(&st.members)
        },
        ASN1Type::ElsewhereDeclaredType(d) => match find_type(ctx, &d.identifier) {
            None => Err(CompilerError::UnresolvedReference { identifier: d.identifier.clone() }),
            Some(i) => {
                if fuel == 0 {
                    Err(CompilerError::CyclicReference { identifier: d.identifier.clone() })
                } else {
                    match &ctx[i] {
                        Assignment::Type(ta) => struct_members(ctx, &ta.ty, fuel - 1),
                        _ => {
                            proof {
                                assert(false);
                            }
                            Err(CompilerError::MalformedRange)
                        },
                    }
                }
            },
        },
        _ => Err(CompilerError::TypeMismatch { name: String::new() }),
    }
}

/// Fills a structured value in field order; the twin of
/// `spec_fill_members`.
fn fill_members(
    ctx: &Vec<Assignment>,
    ms: &Vec<SequenceOrSetMember>,
    items: &Vec<ASN1Value>,
    fuel: usize,
) -> (r: Result<Vec<ASN1Value>, CompilerError>)
    ensures
        match r {
            Ok(vs) => spec_fill_members(
                ctx.deep_view(),
                ms.deep_view(),
                items.deep_view(),
                fuel as nat,
            ) == Ok::<_, CompilerErrorV>(vs.deep_view()),
            Err(e) => spec_fill_members(
                ctx.deep_view(),
                ms.deep_view(),
                items.deep_view(),
                fuel as nat,
            ) == Err::<Seq<ASN1ValueV>, _>(e.deep_view()),
        },
{
    let ghost msd = ms.deep_view();
    let ghost itd = items.deep_view();
    let mut out: Vec<ASN1Value> = Vec::new();
    let mut i: usize = 0;
    let mut j: usize = 0;
    proof {
        assert(msd.skip(0) =~= msd);
        assert(itd.skip(0) =~= itd);
        assert(out.deep_view() =~= Seq::<ASN1ValueV>::empty());
    }
    while i < ms.len()
        invariant
            i <= ms@.len(),
            j <= items@.len(),
            msd == ms.deep_view(),
            itd == items.deep_view(),
            spec_fill_members(ctx.deep_view(), msd, itd, fuel as nat) matches Ok(full)
                ==> spec_fill_members(
                    ctx.deep_view(),
                    msd.skip(i as int),
                    itd.skip(j as int),
                    fuel as nat,
                ) matches Ok(rest) && full == out.deep_view() + rest,
            spec_fill_members(ctx.deep_view(), msd, itd, fuel as nat) matches Err(e)
                ==> spec_fill_members(
                    ctx.deep_view(),
                    msd.skip(i as int),
                    itd.skip(j as int),
                    fuel as nat,
                ) matches Err(e2) && e == e2,
        decreases ms@.len() - i,
    {
        proof {
            assert(msd.skip(i as int)[0] == msd[i as int]);
            assert(msd.skip(i as int).skip(1) =~= msd.skip(i + 1));
            assert(itd.skip(j as int).len() == itd.len() - j);
            if j < items@.len() {
                assert(itd.skip(j as int)[0] == itd[j as int]);
                assert(itd.skip(j as int).skip(1) =~= itd.skip(j + 1));
            }
        }
        let m: &SequenceOrSetMember = &ms[i];
        let mk = match base_kind(ctx, &m.member_type, fuel) {
            Err(e) => {
                return Err(e);
            },
            Ok(k) => k,
        };
        let supplied: Option<ASN1Value> = if j < items.len() {
            match ground_value(ctx, &items[j], fuel) {
                Err(e) => {
                    return Err(e);
                },
                Ok(g) => {
                    if kind_matches(mk, &g) {
                        Some(g)
                    } else {
                        None
                    }
                },
            }
        } else {
            None
        };
        match supplied {
            Some(g) => {
                let ghost outd = out.deep_view();
                let ghost gv = g.deep_view();
                out.push(g);
                j = j + 1;
                proof {
                    assert(out.deep_view() =~= outd.push(gv));
                    if spec_fill_members(ctx.deep_view(), msd, itd, fuel as nat) is Ok {
                        let rest = spec_fill_members(
                            ctx.deep_view(),
                            msd.skip(i as int),
                            itd.skip(j - 1),
                            fuel as nat,
                        )->Ok_0;
                        let rest2 = spec_fill_members(
                            ctx.deep_view(),
                            msd.skip(i + 1),
                            itd.skip(j as int),
                            fuel as nat,
                        )->Ok_0;
                        assert(rest =~= seq![gv] + rest2);
                        assert(out.deep_view() + rest2 =~= outd + rest);
                    }
                }
            },
            None => match &m.default_value {
                Some(d) => match ground_value(ctx, d, fuel) {
                    Err(e) => {
                        return Err(e);
                    },
                    Ok(lit) => {
                        let ghost outd = out.deep_view();
                        let ghost lv = lit.deep_view();
                        out.push(lit);
                        proof {
                            assert(out.deep_view() =~= outd.push(lv));
                            if spec_fill_members(ctx.deep_view(), msd, itd, fuel as nat) is Ok {
                                let rest = spec_fill_members(
                                    ctx.deep_view(),
                                    msd.skip(i as int),
                                    itd.skip(j as int),
                                    fuel as nat,
                                )->Ok_0;
                                let rest2 = spec_fill_members(
                                    ctx.deep_view(),
                                    msd.skip(i + 1),
                                    itd.skip(j as int),
                                    fuel as nat,
                                )->Ok_0;
                                assert(rest =~= seq![lv] + rest2);
                                assert(out.deep_view() + rest2 =~= outd + rest);
                            }
                        }
                    },
                },
                None => {
                    return Err(CompilerError::TypeMismatch { name: m.name.clone() });
                },
            },
        }
        i = i + 1;
    }
    proof {
        assert(msd.skip(i as int) =~= Seq::<SequenceOrSetMemberV>::empty());
    }
    if j < items.len() {
        return Err(CompilerError::TypeMismatch { name: String::new() });
    }
    proof {
        assert(itd.skip(j as int) =~= Seq::<ASN1ValueV>::empty());
        if spec_fill_members(ctx.deep_view(), msd, itd, fuel as nat) is Ok {
            assert(spec_fill_members(ctx.deep_view(), msd, itd, fuel as nat)->Ok_0
                =~= out.deep_view());
        }
    }
    Ok(out)
}

/// Resolves a value assignment; the twin of
/// `spec_res_value_assignment`.
fn res_value_assignment(ctx: &Vec<Assignment>, va: &ValueAssignment, fuel: usize) -> (r: Result<
    ValueAssignment,
    CompilerError,
>)
    ensures
        match r {
            Ok(rva) => spec_res_value_assignment(ctx.deep_view(), va.deep_view(), fuel as nat)
                == Ok::<_, CompilerErrorV>(rva.deep_view()),
            Err(e) => spec_res_value_assignment(ctx.deep_view(), va.deep_view(), fuel as nat)
                == Err::<ValueAssignmentV, _>(e.deep_view()),
        },
{
    let base = match base_kind(ctx, &va.type_ref, fuel) {
        Err(e) => {
            return Err(e);
        },
        Ok(k) => k,
    };
    if matches!(base, BaseKind::StructKind) {
        match &va.value {
            ASN1Value::SequenceOrSetOf(items) => {
                proof {
                    crate::intermediate::lemma_value_list_deep(*items);
                }
                let ms = match struct_members(ctx, &va.type_ref, fuel) {
                    Err(e) => {
                        return Err(e);
                    },
                    Ok(ms) => ms,
                };
                match fill_members(ctx, ms, items, fuel) {
                    Err(e) => Err(e),
                    Ok(filled) => {
                        proof {
                            crate::intermediate::lemma_value_list_deep(filled);
                        }
                        Ok(
                            ValueAssignment {
                                name: va.name.clone(),
                                type_ref: copy_type(&va.type_ref),
                                value: ASN1Value::SequenceOrSetOf(filled),
                            },
                        )
                    },
                }
            },
            _ => Err(CompilerError::TypeMismatch { name: va.name.clone() }),
        }
    } else {
        match ground_value(ctx, &va.value, fuel) {
            Err(e) => Err(e),
            Ok(g) => {
                if kind_matches(base, &g) {
                    Ok(
                        ValueAssignment {
                            name: va.name.clone(),
                            type_ref: copy_type(&va.type_ref),
                            value: g,
                        },
                    )
                } else {
                    Err(CompilerError::TypeMismatch { name: va.name.clone() })
                }
            },
        }
    }
}

/// Pass 2 over the whole list; the twin of `spec_resolve_defaults`.
pub fn resolve_defaults_of(ctx: &Vec<Assignment>, asgs: &Vec<Assignment>, fuel: usize) -> (r:
    Result<Vec<Assignment>, CompilerError>)
    ensures
        match r {
            Ok(out) => spec_resolve_defaults(ctx.deep_view(), asgs.deep_view(), fuel as nat)
                == Ok::<_, CompilerErrorV>(out.deep_view()),
            Err(e) => spec_resolve_defaults(ctx.deep_view(), asgs.deep_view(), fuel as nat)
                == Err::<Seq<AssignmentV>, _>(e.deep_view()),
        },
{
    let ghost cd = asgs.deep_view();
    let mut out: Vec<Assignment> = Vec::new();
    let mut i: usize = 0;
    proof {
        assert(cd.skip(0) =~= cd);
        assert(out.deep_view() =~= Seq::<AssignmentV>::empty());
    }
    while i < asgs.len()
        invariant
            i <= asgs@.len(),
            cd == asgs.deep_view(),
            spec_resolve_defaults(ctx.deep_view(), cd, fuel as nat) matches Ok(full)
                ==> spec_resolve_defaults(ctx.deep_view(), cd.skip(i as int), fuel as nat)
                    matches Ok(rest) && full == out.deep_view() + rest,
            spec_resolve_defaults(ctx.deep_view(), cd, fuel as nat) matches Err(e)
                ==> spec_resolve_defaults(ctx.deep_view(), cd.skip(i as int), fuel as nat)
                    matches Err(e2) && e == e2,
        decreases asgs@.len() - i,
    {
        proof {
            assert(cd.skip(i as int)[0] == cd[i as int]);
            assert(cd.skip(i as int).skip(1) =~= cd.skip(i + 1));
        }
        let head: Result<Assignment, CompilerError> = match &asgs[i] {
            Assignment::Type(ta) => match &ta.ty {
                ASN1Type::Sequence(st) => match (
                    {
                        proof {
                            crate::intermediate::lemma_member_list_deep(st.members);
                        }
                        res_defaults_members(ctx, &st.members, fuel)
                    }
                ) {
                    Err(e) => Err(e),
                    Ok(ms) => {
                        proof {
                            crate::intermediate::lemma_member_list_deep(ms);
                            crate::intermediate::lemma_member_list_deep(st.members);
                        }
                        Ok(
                            Assignment::Type(
                                TypeAssignment {
                                    name: ta.name.clone(),
                                    ty: ASN1Type::Sequence(
                                        SequenceOrSet {
                                            members: ms,
                                            extensible: st.extensible,
                                        },
                                    ),
                                },
                            ),
                        )
                    },
                },
                ASN1Type::SetType(st) => match (
                    {
                        proof {
                            crate::intermediate::lemma_member_list_deep(st.members);
                        }
                        res_defaults_members(ctx, &st.members, fuel)
                    }
                ) {
                    Err(e) => Err(e),
                    Ok(ms) => {
                        proof {
                            crate::intermediate::lemma_member_list_deep(ms);
                        }
                        Ok(
                            Assignment::Type(
                                TypeAssignment {
                                    name: ta.name.clone(),
                                    ty: ASN1Type::SetType(
                                        SequenceOrSet {
                                            members: ms,
                                            extensible: st.extensible,
                                        },
                                    ),
                                },
                            ),
                        )
                    },
                },
                _ => Ok(
                    Assignment::Type(
                        TypeAssignment { name: ta.name.clone(), ty: copy_type(&ta.ty) },
                    ),
                ),
            },
            Assignment::Value(va) => match res_value_assignment(ctx, va, fuel) {
                Err(e) => Err(e),
                Ok(rva) => Ok(Assignment::Value(rva)),
            },
        };
        match head {
            Err(e) => {
                return Err(e);
            },
            Ok(a0) => {
                let ghost outd = out.deep_view();
                let ghost av = a0.deep_view();
                out.push(a0);
                proof {
                    assert(out.deep_view() =~= outd.push(av));
                    if spec_resolve_defaults(ctx.deep_view(), cd, fuel as nat) is Ok {
                        let rest = spec_resolve_defaults(
                            ctx.deep_view(),
                            cd.skip(i as int),
                            fuel as nat,
                        )->Ok_0;
                        let rest2 = spec_resolve_defaults(
                            ctx.deep_view(),
                            cd.skip(i + 1),
                            fuel as nat,
                        )->Ok_0;
                        assert(rest =~= seq![av] + rest2);
                        assert(outd + rest =~= outd.push(av) + rest2);
                    }
                }
            },
        }
        i = i + 1;
    }
    proof {
        assert(cd.skip(i as int) =~= Seq::<AssignmentV>::empty());
        if spec_resolve_defaults(ctx.deep_view(), cd, fuel as nat) is Ok {
            assert(spec_resolve_defaults(ctx.deep_view(), cd, fuel as nat)->Ok_0
                =~= out.deep_view());
        }
    }
    Ok(out)
}

/// Pass 2 applied to the whole list against itself.
pub fn resolve_defaults(ctx: &Vec<Assignment>, fuel: usize) -> (r: Result<
    Vec<Assignment>,
    CompilerError,
>)
    ensures
        match r {
            Ok(out) => spec_resolve_defaults(ctx.deep_view(), ctx.deep_view(), fuel as nat)
                == Ok::<_, CompilerErrorV>(out.deep_view()),
            Err(e) => spec_resolve_defaults(ctx.deep_view(), ctx.deep_view(), fuel as nat)
                == Err::<Seq<AssignmentV>, _>(e.deep_view()),
        },
{
    resolve_defaults_of(ctx, ctx, fuel)
}


/// Assigns automatic tags to one member list; the twin of
/// `spec_tag_members`.
fn tag_members(ms: &Vec<SequenceOrSetMember>) -> (r: Vec<SequenceOrSetMember>)
    ensures
        r.deep_view() == spec_tag_members(ms.deep_view(), 0),
{
    let ghost msd = ms.deep_view();
    let mut out: Vec<SequenceOrSetMember> = Vec::new();
    let mut i: usize = 0;
    let mut count: usize = 0;
    proof {
        assert(msd.skip(0) =~= msd);
        assert(out.deep_view() =~= Seq::<SequenceOrSetMemberV>::empty());
    }
    while i < ms.len()
        invariant
            i <= ms@.len(),
            count <= i,
            msd == ms.deep_view(),
            spec_tag_members(msd, 0) == out.deep_view() + spec_tag_members(
                msd.skip(i as int),
                count as nat,
            ),
        decreases ms@.len() - i,
    {
        proof {
            assert(msd.skip(i as int)[0] == msd[i as int]);
            assert(msd.skip(i as int).skip(1) =~= msd.skip(i + 1));
        }
        let m: &SequenceOrSetMember = &ms[i];
        let m2: SequenceOrSetMember = if m.tag.is_some() {
            copy_member(m)
        } else {
            let c = copy_member(m);
            SequenceOrSetMember {
                name: c.name,
                tag: Some(
                    AsnTag {
                        class: TagClass::ContextSpecific,
                        number: count as u64,
                        automatic: true,
                    },
                ),
                member_type: c.member_type,
                default_value: c.default_value,
                is_optional: c.is_optional,
            }
        };
        let advanced = m.tag.is_none();
        let ghost outd = out.deep_view();
        let ghost mv = m2.deep_view();
        out.push(m2);
        if advanced {
            count = count + 1;
        }
        proof {
            assert(out.deep_view() =~= outd.push(mv));
            assert(outd + (seq![mv] + spec_tag_members(msd.skip(i + 1), count as nat))
                =~= outd.push(mv) + spec_tag_members(msd.skip(i + 1), count as nat));
        }
        i = i + 1;
    }
    proof {
        assert(msd.skip(i as int) =~= Seq::<SequenceOrSetMemberV>::empty());
        assert(out.deep_view() + Seq::<SequenceOrSetMemberV>::empty() =~= out.deep_view());
    }
    out
}

/// Pass 3 over the whole list; the twin of `spec_assign_tags`.
pub fn assign_tags(ctx: &Vec<Assignment>, mode: TaggingMode) -> (r: Result<
    Vec<Assignment>,
    CompilerError,
>)
    ensures
        r is Ok && r->Ok_0.deep_view() == spec_assign_tags(ctx.deep_view(), mode),
{
    let ghost cd = ctx.deep_view();
    if !matches!(mode, TaggingMode::Automatic) {
        let mut out: Vec<Assignment> = Vec::new();
        let mut i: usize = 0;
        proof {
            assert(out.deep_view() =~= cd.take(0));
        }
        while i < ctx.len()
            invariant
                i <= ctx@.len(),
                cd == ctx.deep_view(),
                !(mode is Automatic),
                out.deep_view() == cd.take(i as int),
            decreases ctx@.len() - i,
        {
            let copied: Assignment = match &ctx[i] {
                Assignment::Type(ta) => Assignment::Type(
                    TypeAssignment { name: ta.name.clone(), ty: copy_type(&ta.ty) },
                ),
                Assignment::Value(va) => Assignment::Value(
                    ValueAssignment {
                        name: va.name.clone(),
                        type_ref: copy_type(&va.type_ref),
                        value: copy_value(&va.value),
                    },
                ),
            };
            let ghost outd = out.deep_view();
            let ghost av = copied.deep_view();
            out.push(copied);
            proof {
                assert(av == cd[i as int]);
                assert(out.deep_view() =~~= outd.push(av));
                assert(outd.push(av) =~~= cd.take(i + 1));
            }
            i = i + 1;
        }
        proof {
            assert(cd.take(cd.len() as int) =~= cd);
        }
        return Ok(out);
    }
    let mut out: Vec<Assignment> = Vec::new();
    let mut i: usize = 0;
    proof {
        assert(cd.skip(0) =~= cd);
        assert(out.deep_view() =~= Seq::<AssignmentV>::empty());
    }
    while i < ctx.len()
        invariant
            i <= ctx@.len(),
            cd == ctx.deep_view(),
            mode is Automatic,
            spec_assign_tags(cd, mode) == out.deep_view() + spec_assign_tags(
                cd.skip(i as int),
                mode,
            ),
        decreases ctx@.len() - i,
    {
        proof {
            assert(cd.skip(i as int)[0] == cd[i as int]);
            assert(cd.skip(i as int).skip(1) =~= cd.skip(i + 1));
        }
        let head: Assignment = match &ctx[i] {
            Assignment::Type(ta) => match &ta.ty {
                ASN1Type::Sequence(st) => {
                    let ms = tag_members(&st.members);
                    proof {
                        crate::intermediate::lemma_member_list_deep(ms);
                        crate::intermediate::lemma_member_list_deep(st.members);
                    }
                    Assignment::Type(
                        TypeAssignment {
                            name: ta.name.clone(),
                            ty: ASN1Type::Sequence(
                                SequenceOrSet { members: ms, extensible: st.extensible },
                            ),
                        },
                    )
                },
                ASN1Type::SetType(st) => {
                    let ms = tag_members(&st.members);
                    proof {
                        crate::intermediate::lemma_member_list_deep(ms);
                        crate::intermediate::lemma_member_list_deep(st.members);
                    }
                    Assignment::Type(
                        TypeAssignment {
                            name: ta.name.clone(),
                            ty: ASN1Type::SetType(
                                SequenceOrSet { members: ms, extensible: st.extensible },
                            ),
                        },
                    )
                },
                ASN1Type::Choice(st) => {
                    let ms = tag_members(&st.members);
                    proof {
                        crate::intermediate::lemma_member_list_deep(ms);
                        crate::intermediate::lemma_member_list_deep(st.members);
                    }
                    Assignment::Type(
                        TypeAssignment {
                            name: ta.name.clone(),
                            ty: ASN1Type::Choice(
                                SequenceOrSet { members: ms, extensible: st.extensible },
                            ),
                        },
                    )
                },
                _ => Assignment::Type(
                    TypeAssignment { name: ta.name.clone(), ty: copy_type(&ta.ty) },
                ),
            },
            Assignment::Value(va) => Assignment::Value(
                ValueAssignment {
                    name: va.name.clone(),
                    type_ref: copy_type(&va.type_ref),
                    value: copy_value(&va.value),
                },
            ),
        };
        let ghost outd = out.deep_view();
        let ghost av = head.deep_view();
        out.push(head);
        proof {
            assert(out.deep_view() =~= outd.push(av));
            assert(outd + (seq![av] + spec_assign_tags(cd.skip(i + 1), mode))
                =~= outd.push(av) + spec_assign_tags(cd.skip(i + 1), mode));
        }
        i = i + 1;
    }
    proof {
        assert(cd.skip(i as int) =~= Seq::<AssignmentV>::empty());
        assert(out.deep_view() + Seq::<AssignmentV>::empty() =~= out.deep_view());
    }
    Ok(out)
}

} // verus!
