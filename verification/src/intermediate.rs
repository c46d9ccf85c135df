//! The intermediate representation: types, values and constraints of the
//! notation, plus the assignments that bind them to names.
//!
//! Every executable node has a ghost twin (suffix `V`) over `Seq`-shaped
//! data; `deep_view` maps one onto the other.  The parser, the resolution
//! passes and the generator are each specified against the ghost twins.

use vstd::prelude::*;

verus! {

broadcast use
    vstd::std_specs::vec::axiom_vec_index_decreases,
    vstd::std_specs::vec::axiom_vec_decreases_to_view,
    vstd::seq::axiom_seq_index_decreases;

// ---------------------------------------------------------------------
// Small shared enums (identical in executable and ghost code).
// ---------------------------------------------------------------------

/// Tag class of an explicit or automatically assigned tag.
#[derive(Debug, Clone, Copy, PartialEq, Eq)]
pub enum TagClass {
    Universal,
    Application,
    ContextSpecific,
    Private,
}

impl DeepView for TagClass {
    type V = TagClass;

    open spec fn deep_view(&self) -> TagClass {
        *self
    }
}

/// The supported character-string kinds.
#[derive(Debug, Clone, Copy, PartialEq, Eq)]
pub enum CharacterStringKind {
    BMPString,
    UTF8String,
    IA5String,
    PrintableString,
}

impl DeepView for CharacterStringKind {
    type V = CharacterStringKind;

    open spec fn deep_view(&self) -> CharacterStringKind {
        *self
    }
}

/// Connective of a constraint set operation.
#[derive(Debug, Clone, Copy, PartialEq, Eq)]
pub enum SetOperator {
    Union,
    Intersection,
    Except,
}

impl DeepView for SetOperator {
    type V = SetOperator;

    open spec fn deep_view(&self) -> SetOperator {
        *self
    }
}

/// Tagging mode declared in a module header.
#[derive(Debug, Clone, Copy, PartialEq, Eq)]
pub enum TaggingMode {
    Automatic,
    Implicit,
    Explicit,
}

impl DeepView for TaggingMode {
    type V = TaggingMode;

    open spec fn deep_view(&self) -> TaggingMode {
        *self
    }
}

/// A context-specific (or explicitly classed) tag on a structured-type
/// member.  `automatic` records that the tagging assigner produced it,
/// as opposed to an explicit tag written in the source.
#[derive(Debug, Clone, Copy, PartialEq, Eq)]
pub struct AsnTag {
    pub class: TagClass,
    pub number: u64,
    pub automatic: bool,
}

impl DeepView for AsnTag {
    type V = AsnTag;

    open spec fn deep_view(&self) -> AsnTag {
        *self
    }
}

// ---------------------------------------------------------------------
// Values.
// ---------------------------------------------------------------------

/// A parsed value: literal, list, or reference to a value declared
/// elsewhere in the resolution context.
#[derive(Debug, PartialEq, Eq)]
pub enum ASN1Value {
    Boolean(bool),
    Integer(i128),
    StringValue(String),
    SequenceOrSetOf(Vec<ASN1Value>),
    ElsewhereDeclaredValue(String),
    Max,
    Min,
}

/// Deep view of a value list; recursion point for `ASN1Value`.
pub open spec fn view_value_list(vs: Seq<ASN1Value>) -> Seq<ASN1ValueV>
    decreases vs,
{
    if vs.len() == 0 {
        Seq::empty()
    } else {
        seq![vs[0].deep_view()] + view_value_list(vs.subrange(1, vs.len() as int))
    }
}

/// `view_value_list` agrees with the element-wise deep view.
pub proof fn lemma_view_value_list(vs: Seq<ASN1Value>)
    ensures
        view_value_list(vs).len() == vs.len(),
        forall|i: int| 0 <= i < vs.len() ==> view_value_list(vs)[i] == vs[i].deep_view(),
    decreases vs.len(),
{
    if vs.len() > 0 {
        let tail = vs.subrange(1, vs.len() as int);
        lemma_view_value_list(tail);
        assert(view_value_list(vs) == seq![vs[0].deep_view()] + view_value_list(tail));
        assert(view_value_list(vs).len() == vs.len());
        assert forall|i: int| 0 <= i < vs.len() implies view_value_list(vs)[i]
            == vs[i].deep_view() by {
            if i > 0 {
                assert(tail[i - 1] == vs[i]);
                assert(view_value_list(vs)[i] == view_value_list(tail)[i - 1]);
            }
        }
    }
}

/// `view_value_list` of a vector's contents is its deep view.
pub proof fn lemma_value_list_deep(v: Vec<ASN1Value>)
    ensures
        view_value_list(v@) == v.deep_view(),
{
    lemma_view_value_list(v@);
    assert(view_value_list(v@) =~= v.deep_view());
}

/// Ghost twin of `ASN1Value`.
pub enum ASN1ValueV {
    Boolean(bool),
    Integer(i128),
    StringValue(Seq<char>),
    SequenceOrSetOf(Seq<ASN1ValueV>),
    ElsewhereDeclaredValue(Seq<char>),
    Max,
    Min,
}

impl DeepView for ASN1Value {
    type V = ASN1ValueV;

    open spec fn deep_view(&self) -> ASN1ValueV
        decreases self,
    {
        match self {
            ASN1Value::Boolean(b) => ASN1ValueV::Boolean(*b),
            ASN1Value::Integer(i) => ASN1ValueV::Integer(*i),
            ASN1Value::StringValue(s) => ASN1ValueV::StringValue(s@),
            ASN1Value::SequenceOrSetOf(vs) => ASN1ValueV::SequenceOrSetOf(view_value_list(vs@)),
            ASN1Value::ElsewhereDeclaredValue(id) => ASN1ValueV::ElsewhereDeclaredValue(id@),
            ASN1Value::Max => ASN1ValueV::Max,
            ASN1Value::Min => ASN1ValueV::Min,
        }
    }
}

// ---------------------------------------------------------------------
// Constraints.
// ---------------------------------------------------------------------

/// One element of a subtype constraint.
#[derive(Debug, PartialEq, Eq)]
pub enum SubtypeElement {
    SingleValue { value: ASN1Value, extensible: bool },
    ValueRange { min: Option<ASN1Value>, max: Option<ASN1Value>, extensible: bool },
    SizeConstraint(Box<ElementOrSetOperation>),
    PermittedAlphabet(Box<ElementOrSetOperation>),
}

/// Ghost twin of `SubtypeElement`.  The boxed sub-operation appears as a
/// singleton sequence, because ghost data indirects through `Seq`.
pub enum SubtypeElementV {
    SingleValue { value: ASN1ValueV, extensible: bool },
    ValueRange { min: Option<ASN1ValueV>, max: Option<ASN1ValueV>, extensible: bool },
    SizeConstraint(Seq<ElementOrSetOperationV>),
    PermittedAlphabet(Seq<ElementOrSetOperationV>),
}

/// A constraint tree: a single element, or a set operation joining an
/// element with a further tree.
#[derive(Debug, PartialEq, Eq)]
pub enum ElementOrSetOperation {
    Element(SubtypeElement),
    SetOperation(SetOperation),
}

/// Ghost twin of `ElementOrSetOperation`.
pub enum ElementOrSetOperationV {
    Element(SubtypeElementV),
    SetOperation(SetOperationV),
}

/// A binary set operation between constraint elements.
#[derive(Debug, PartialEq, Eq)]
pub struct SetOperation {
    pub base: SubtypeElement,
    pub operator: SetOperator,
    pub operant: Box<ElementOrSetOperation>,
}

/// Ghost twin of `SetOperation`; `operant` is a singleton sequence.
pub struct SetOperationV {
    pub base: SubtypeElementV,
    pub operator: SetOperator,
    pub operant: Seq<ElementOrSetOperationV>,
}

impl DeepView for SubtypeElement {
    type V = SubtypeElementV;

    open spec fn deep_view(&self) -> SubtypeElementV
        decreases self,
    {
        match self {
            SubtypeElement::SingleValue { value, extensible } => SubtypeElementV::SingleValue {
                value: value.deep_view(),
                extensible: *extensible,
            },
            SubtypeElement::ValueRange { min, max, extensible } => SubtypeElementV::ValueRange {
                min: match min {
                    Some(v) => Some(v.deep_view()),
                    None => None,
                },
                max: match max {
                    Some(v) => Some(v.deep_view()),
                    None => None,
                },
                extensible: *extensible,
            },
            SubtypeElement::SizeConstraint(inner) => SubtypeElementV::SizeConstraint(
                seq![(**inner).deep_view()],
            ),
            SubtypeElement::PermittedAlphabet(inner) => SubtypeElementV::PermittedAlphabet(
                seq![(**inner).deep_view()],
            ),
        }
    }
}

impl DeepView for ElementOrSetOperation {
    type V = ElementOrSetOperationV;

    open spec fn deep_view(&self) -> ElementOrSetOperationV
        decreases self,
    {
        match self {
            ElementOrSetOperation::Element(e) => ElementOrSetOperationV::Element(e.deep_view()),
            ElementOrSetOperation::SetOperation(s) => ElementOrSetOperationV::SetOperation(
                SetOperationV {
                    base: s.base.deep_view(),
                    operator: s.operator,
                    operant: seq![(*s.operant).deep_view()],
                },
            ),
        }
    }
}

/// A subtype constraint with its extensibility marker.
#[derive(Debug, PartialEq, Eq)]
pub struct ElementSet {
    pub set: ElementOrSetOperation,
    pub extensible: bool,
}

/// Ghost twin of `ElementSet`.
pub struct ElementSetV {
    pub set: ElementOrSetOperationV,
    pub extensible: bool,
}

impl DeepView for ElementSet {
    type V = ElementSetV;

    open spec fn deep_view(&self) -> ElementSetV {
        ElementSetV { set: self.set.deep_view(), extensible: self.extensible }
    }
}

/// A reference to an object set used as a parameter argument.
#[derive(Debug, PartialEq, Eq)]
pub enum ObjectSetValue {
    Reference(String),
}

/// Ghost twin of `ObjectSetValue`.
pub enum ObjectSetValueV {
    Reference(Seq<char>),
}

impl DeepView for ObjectSetValue {
    type V = ObjectSetValueV;

    open spec fn deep_view(&self) -> ObjectSetValueV {
        match self {
            ObjectSetValue::Reference(s) => ObjectSetValueV::Reference(s@),
        }
    }
}

/// An object set: its member values and an optional extension point.
#[derive(Debug, PartialEq, Eq)]
pub struct ObjectSet {
    pub values: Vec<ObjectSetValue>,
    pub extensible: Option<usize>,
}

/// Ghost twin of `ObjectSet`.
pub struct ObjectSetV {
    pub values: Seq<ObjectSetValueV>,
    pub extensible: Option<usize>,
}

impl DeepView for ObjectSet {
    type V = ObjectSetV;

    open spec fn deep_view(&self) -> ObjectSetV {
        ObjectSetV { values: self.values.deep_view(), extensible: self.extensible }
    }
}

/// A parameter argument of a parameterized type reference.
#[derive(Debug, PartialEq, Eq)]
pub enum Parameter {
    ObjectSetParameter(ObjectSet),
}

/// Ghost twin of `Parameter`.
pub enum ParameterV {
    ObjectSetParameter(ObjectSetV),
}

impl DeepView for Parameter {
    type V = ParameterV;

    open spec fn deep_view(&self) -> ParameterV {
        match self {
            Parameter::ObjectSetParameter(o) => ParameterV::ObjectSetParameter(o.deep_view()),
        }
    }
}

/// A constraint applied to a type: a subtype constraint, or a parameter
/// list applied at a delegation point.
#[derive(Debug, PartialEq, Eq)]
pub enum Constraint {
    SubtypeConstraint(ElementSet),
    Parameter(Vec<Parameter>),
}

/// Ghost twin of `Constraint`.
pub enum ConstraintV {
    SubtypeConstraint(ElementSetV),
    Parameter(Seq<ParameterV>),
}

impl DeepView for Constraint {
    type V = ConstraintV;

    open spec fn deep_view(&self) -> ConstraintV
        decreases self,
    {
        match self {
            Constraint::SubtypeConstraint(e) => ConstraintV::SubtypeConstraint(e.deep_view()),
            Constraint::Parameter(ps) => ConstraintV::Parameter(ps.deep_view()),
        }
    }
}

// ---------------------------------------------------------------------
// Types.
// ---------------------------------------------------------------------

/// A named integer value attached to an integer or enumerated type.
#[derive(Debug, PartialEq, Eq)]
pub struct DistinguishedValue {
    pub name: String,
    pub value: i128,
}

/// Ghost twin of `DistinguishedValue`.
pub struct DistinguishedValueV {
    pub name: Seq<char>,
    pub value: i128,
}

impl DeepView for DistinguishedValue {
    type V = DistinguishedValueV;

    open spec fn deep_view(&self) -> DistinguishedValueV {
        DistinguishedValueV { name: self.name@, value: self.value }
    }
}

/// The boolean primitive.
#[derive(Debug, PartialEq, Eq)]
pub struct Boolean {
    pub constraints: Vec<Constraint>,
}

/// Ghost twin of `Boolean`.
pub struct BooleanV {
    pub constraints: Seq<ConstraintV>,
}

impl DeepView for Boolean {
    type V = BooleanV;

    open spec fn deep_view(&self) -> BooleanV {
        BooleanV { constraints: self.constraints.deep_view() }
    }
}

/// The integer primitive, with an optional distinguished-value table.
#[derive(Debug, PartialEq, Eq)]
pub struct Integer {
    pub constraints: Vec<Constraint>,
    pub distinguished_values: Option<Vec<DistinguishedValue>>,
    pub used_in_const: bool,
}

/// Ghost twin of `Integer`.
pub struct IntegerV {
    pub constraints: Seq<ConstraintV>,
    pub distinguished_values: Option<Seq<DistinguishedValueV>>,
    pub used_in_const: bool,
}

impl DeepView for Integer {
    type V = IntegerV;

    open spec fn deep_view(&self) -> IntegerV {
        IntegerV {
            constraints: self.constraints.deep_view(),
            distinguished_values: match &self.distinguished_values {
                Some(vs) => Some(vs.deep_view()),
                None => None,
            },
            used_in_const: self.used_in_const,
        }
    }
}

/// A character-string primitive of some kind.
#[derive(Debug, PartialEq, Eq)]
pub struct CharacterString {
    pub constraints: Vec<Constraint>,
    pub kind: CharacterStringKind,
}

/// Ghost twin of `CharacterString`.
pub struct CharacterStringV {
    pub constraints: Seq<ConstraintV>,
    pub kind: CharacterStringKind,
}

impl DeepView for CharacterString {
    type V = CharacterStringV;

    open spec fn deep_view(&self) -> CharacterStringV {
        CharacterStringV { constraints: self.constraints.deep_view(), kind: self.kind }
    }
}

/// An enumerated type.
#[derive(Debug, PartialEq, Eq)]
pub struct Enumerated {
    pub members: Vec<DistinguishedValue>,
    pub extensible: bool,
}

/// Ghost twin of `Enumerated`.
pub struct EnumeratedV {
    pub members: Seq<DistinguishedValueV>,
    pub extensible: bool,
}

impl DeepView for Enumerated {
    type V = EnumeratedV;

    open spec fn deep_view(&self) -> EnumeratedV {
        EnumeratedV { members: self.members.deep_view(), extensible: self.extensible }
    }
}

/// One member of a structured type.
#[derive(Debug, PartialEq, Eq)]
pub struct SequenceOrSetMember {
    pub name: String,
    pub tag: Option<AsnTag>,
    pub member_type: ASN1Type,
    pub default_value: Option<ASN1Value>,
    pub is_optional: bool,
}

/// Ghost twin of `SequenceOrSetMember`.
pub struct SequenceOrSetMemberV {
    pub name: Seq<char>,
    pub tag: Option<AsnTag>,
    pub member_type: ASN1TypeV,
    pub default_value: Option<ASN1ValueV>,
    pub is_optional: bool,
}

impl DeepView for SequenceOrSetMember {
    type V = SequenceOrSetMemberV;

    open spec fn deep_view(&self) -> SequenceOrSetMemberV
        decreases self,
    {
        SequenceOrSetMemberV {
            name: self.name@,
            tag: self.tag,
            member_type: self.member_type.deep_view(),
            default_value: match &self.default_value {
                Some(v) => Some(v.deep_view()),
                None => None,
            },
            is_optional: self.is_optional,
        }
    }
}

/// Deep view of a member list; recursion point for structured types.
pub open spec fn view_member_list(ms: Seq<SequenceOrSetMember>) -> Seq<SequenceOrSetMemberV>
    decreases ms,
{
    if ms.len() == 0 {
        Seq::empty()
    } else {
        seq![ms[0].deep_view()] + view_member_list(ms.subrange(1, ms.len() as int))
    }
}

/// `view_member_list` agrees with the element-wise deep view.
pub proof fn lemma_view_member_list(ms: Seq<SequenceOrSetMember>)
    ensures
        view_member_list(ms).len() == ms.len(),
        forall|i: int| 0 <= i < ms.len() ==> view_member_list(ms)[i] == ms[i].deep_view(),
    decreases ms.len(),
{
    if ms.len() > 0 {
        let tail = ms.subrange(1, ms.len() as int);
        lemma_view_member_list(tail);
        assert(view_member_list(ms) == seq![ms[0].deep_view()] + view_member_list(tail));
        assert(view_member_list(ms).len() == ms.len());
        assert forall|i: int| 0 <= i < ms.len() implies view_member_list(ms)[i]
            == ms[i].deep_view() by {
            if i > 0 {
                assert(tail[i - 1] == ms[i]);
                assert(view_member_list(ms)[i] == view_member_list(tail)[i - 1]);
            }
        }
    }
}

/// `view_member_list` of a vector's contents is its deep view.
pub proof fn lemma_member_list_deep(v: Vec<SequenceOrSetMember>)
    ensures
        view_member_list(v@) == v.deep_view(),
{
    lemma_view_member_list(v@);
    assert(view_member_list(v@) =~= v.deep_view());
}

/// A structured type: ordered members, and whether the member list
/// carries an extension marker.
#[derive(Debug, PartialEq, Eq)]
pub struct SequenceOrSet {
    pub members: Vec<SequenceOrSetMember>,
    pub extensible: bool,
}

/// Ghost twin of `SequenceOrSet`.
pub struct SequenceOrSetV {
    pub members: Seq<SequenceOrSetMemberV>,
    pub extensible: bool,
}

impl DeepView for SequenceOrSet {
    type V = SequenceOrSetV;

    open spec fn deep_view(&self) -> SequenceOrSetV
        decreases self,
    {
        SequenceOrSetV {
            members: view_member_list(self.members@),
            extensible: self.extensible,
        }
    }
}

/// A repetition type: one element type plus the constraints written
/// before the `OF` keyword.
#[derive(Debug, PartialEq, Eq)]
pub struct SequenceOrSetOf {
    pub constraints: Vec<Constraint>,
    pub element_type: Box<ASN1Type>,
}

/// Ghost twin of `SequenceOrSetOf`; the element type is a singleton
/// sequence.
pub struct SequenceOrSetOfV {
    pub constraints: Seq<ConstraintV>,
    pub element_type: Seq<ASN1TypeV>,
}

impl DeepView for SequenceOrSetOf {
    type V = SequenceOrSetOfV;

    open spec fn deep_view(&self) -> SequenceOrSetOfV
        decreases self,
    {
        SequenceOrSetOfV {
            constraints: self.constraints.deep_view(),
            element_type: seq![(*self.element_type).deep_view()],
        }
    }
}

/// A reference to a type declared elsewhere, with the constraints (and
/// parameter arguments) applied at this delegation point.
#[derive(Debug, PartialEq, Eq)]
pub struct DeclarationElsewhere {
    pub identifier: String,
    pub constraints: Vec<Constraint>,
}

/// Ghost twin of `DeclarationElsewhere`.
pub struct DeclarationElsewhereV {
    pub identifier: Seq<char>,
    pub constraints: Seq<ConstraintV>,
}

impl DeepView for DeclarationElsewhere {
    type V = DeclarationElsewhereV;

    open spec fn deep_view(&self) -> DeclarationElsewhereV {
        DeclarationElsewhereV {
            identifier: self.identifier@,
            constraints: self.constraints.deep_view(),
        }
    }
}

/// A reference to a field of an information object class, of the form
/// `ClassName.&FieldName(...)`.
#[derive(Debug, PartialEq, Eq)]
pub struct InformationObjectFieldReference {
    pub class: String,
    pub field: String,
}

/// Ghost twin of `InformationObjectFieldReference`.
pub struct InformationObjectFieldReferenceV {
    pub class: Seq<char>,
    pub field: Seq<char>,
}

impl DeepView for InformationObjectFieldReference {
    type V = InformationObjectFieldReferenceV;

    open spec fn deep_view(&self) -> InformationObjectFieldReferenceV {
        InformationObjectFieldReferenceV { class: self.class@, field: self.field@ }
    }
}

/// A type of the notation: the closed set of variants every pass
/// handles exhaustively.
#[derive(Debug, PartialEq, Eq)]
pub enum ASN1Type {
    Boolean(Boolean),
    Integer(Integer),
    CharacterString(CharacterString),
    Enumerated(Enumerated),
    Sequence(SequenceOrSet),
    SetType(SequenceOrSet),
    Choice(SequenceOrSet),
    SequenceOf(SequenceOrSetOf),
    SetOf(SequenceOrSetOf),
    ElsewhereDeclaredType(DeclarationElsewhere),
    InformationObjectFieldReference(InformationObjectFieldReference),
}

/// Ghost twin of `ASN1Type`.
pub enum ASN1TypeV {
    Boolean(BooleanV),
    Integer(IntegerV),
    CharacterString(CharacterStringV),
    Enumerated(EnumeratedV),
    Sequence(SequenceOrSetV),
    SetType(SequenceOrSetV),
    Choice(SequenceOrSetV),
    SequenceOf(SequenceOrSetOfV),
    SetOf(SequenceOrSetOfV),
    ElsewhereDeclaredType(DeclarationElsewhereV),
    InformationObjectFieldReference(InformationObjectFieldReferenceV),
}

impl DeepView for ASN1Type {
    type V = ASN1TypeV;

    open spec fn deep_view(&self) -> ASN1TypeV
        decreases self,
    {
        match self {
            ASN1Type::Boolean(b) => ASN1TypeV::Boolean(b.deep_view()),
            ASN1Type::Integer(i) => ASN1TypeV::Integer(i.deep_view()),
            ASN1Type::CharacterString(c) => ASN1TypeV::CharacterString(c.deep_view()),
            ASN1Type::Enumerated(e) => ASN1TypeV::Enumerated(e.deep_view()),
            ASN1Type::Sequence(s) => ASN1TypeV::Sequence(s.deep_view()),
            ASN1Type::SetType(s) => ASN1TypeV::SetType(s.deep_view()),
            ASN1Type::Choice(s) => ASN1TypeV::Choice(s.deep_view()),
            ASN1Type::SequenceOf(s) => ASN1TypeV::SequenceOf(s.deep_view()),
            ASN1Type::SetOf(s) => ASN1TypeV::SetOf(s.deep_view()),
            ASN1Type::ElsewhereDeclaredType(d) => ASN1TypeV::ElsewhereDeclaredType(d.deep_view()),
            ASN1Type::InformationObjectFieldReference(r) => {
                ASN1TypeV::InformationObjectFieldReference(r.deep_view())
            },
        }
    }
}

// ---------------------------------------------------------------------
// Assignments and modules.
// ---------------------------------------------------------------------

/// Binds a name to a type definition.
#[derive(Debug, PartialEq, Eq)]
pub struct TypeAssignment {
    pub name: String,
    pub ty: ASN1Type,
}

/// Ghost twin of `TypeAssignment`.
pub struct TypeAssignmentV {
    pub name: Seq<char>,
    pub ty: ASN1TypeV,
}

impl DeepView for TypeAssignment {
    type V = TypeAssignmentV;

    open spec fn deep_view(&self) -> TypeAssignmentV {
        TypeAssignmentV { name: self.name@, ty: self.ty.deep_view() }
    }
}

/// Binds a name to a typed value.
#[derive(Debug, PartialEq, Eq)]
pub struct ValueAssignment {
    pub name: String,
    pub type_ref: ASN1Type,
    pub value: ASN1Value,
}

/// Ghost twin of `ValueAssignment`.
pub struct ValueAssignmentV {
    pub name: Seq<char>,
    pub type_ref: ASN1TypeV,
    pub value: ASN1ValueV,
}

impl DeepView for ValueAssignment {
    type V = ValueAssignmentV;

    open spec fn deep_view(&self) -> ValueAssignmentV {
        ValueAssignmentV {
            name: self.name@,
            type_ref: self.type_ref.deep_view(),
            value: self.value.deep_view(),
        }
    }
}

/// One assignment of a module.
#[derive(Debug, PartialEq, Eq)]
pub enum Assignment {
    Type(TypeAssignment),
    Value(ValueAssignment),
}

/// Ghost twin of `Assignment`.
pub enum AssignmentV {
    Type(TypeAssignmentV),
    Value(ValueAssignmentV),
}

impl DeepView for Assignment {
    type V = AssignmentV;

    open spec fn deep_view(&self) -> AssignmentV {
        match self {
            Assignment::Type(t) => AssignmentV::Type(t.deep_view()),
            Assignment::Value(v) => AssignmentV::Value(v.deep_view()),
        }
    }
}

/// One parsed module: its name, tagging mode and ordered assignments.
#[derive(Debug, PartialEq, Eq)]
pub struct Module {
    pub name: String,
    pub tagging: TaggingMode,
    pub assignments: Vec<Assignment>,
}

/// Ghost twin of `Module`.
pub struct ModuleV {
    pub name: Seq<char>,
    pub tagging: TaggingMode,
    pub assignments: Seq<AssignmentV>,
}

impl DeepView for Module {
    type V = ModuleV;

    open spec fn deep_view(&self) -> ModuleV {
        ModuleV {
            name: self.name@,
            tagging: self.tagging,
            assignments: self.assignments.deep_view(),
        }
    }
}

// ---------------------------------------------------------------------
// Errors.
// ---------------------------------------------------------------------

/// The single terminal outcome of a failed compile call: a syntax error
/// at the position where no construct matched, or a semantic error.
#[derive(Debug, Clone, PartialEq, Eq)]
pub enum CompilerError {
    /// The grammar could not match the remaining input; `position` is
    /// the character index of the unconsumed remainder.
    Syntax { position: usize },
    /// A type or value reference has no assignment with that name.
    UnresolvedReference { identifier: String },
    /// Value references form a cycle.
    CyclicReference { identifier: String },
    /// A resolved value range has its minimum above its maximum.
    MalformedRange,
    /// A default or assigned value does not match its declared type.
    TypeMismatch { name: String },
    /// The source text is too large to compile.
    InputTooLong,
}

/// Ghost twin of `CompilerError`.
pub enum CompilerErrorV {
    Syntax { position: usize },
    UnresolvedReference { identifier: Seq<char> },
    CyclicReference { identifier: Seq<char> },
    MalformedRange,
    TypeMismatch { name: Seq<char> },
    InputTooLong,
}

impl DeepView for CompilerError {
    type V = CompilerErrorV;

    open spec fn deep_view(&self) -> CompilerErrorV {
        match self {
            CompilerError::Syntax { position } => CompilerErrorV::Syntax { position: *position },
            CompilerError::UnresolvedReference { identifier } => {
                CompilerErrorV::UnresolvedReference { identifier: identifier@ }
            },
            CompilerError::CyclicReference { identifier } => {
                CompilerErrorV::CyclicReference { identifier: identifier@ }
            },
            CompilerError::MalformedRange => CompilerErrorV::MalformedRange,
            CompilerError::TypeMismatch { name } => CompilerErrorV::TypeMismatch { name: name@ },
            CompilerError::InputTooLong => CompilerErrorV::InputTooLong,
        }
    }
}

} // verus!
