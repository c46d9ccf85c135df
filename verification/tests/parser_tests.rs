use rasn_compiler::intermediate::ASN1Type;
use rasn_compiler::intermediate::ASN1Value;
use rasn_compiler::intermediate::Boolean;
use rasn_compiler::intermediate::Constraint;
use rasn_compiler::intermediate::DeclarationElsewhere;
use rasn_compiler::intermediate::DistinguishedValue;
use rasn_compiler::intermediate::ElementOrSetOperation;
use rasn_compiler::intermediate::ElementSet;
use rasn_compiler::intermediate::Integer;
use rasn_compiler::intermediate::ObjectSet;
use rasn_compiler::intermediate::ObjectSetValue;
use rasn_compiler::intermediate::Parameter;
use rasn_compiler::intermediate::SequenceOrSetOf;
use rasn_compiler::intermediate::SubtypeElement;
use rasn_compiler::parser::sequence_of;
use rasn_compiler::parser::sequence_or_set_of_value;

#[test]
fn parses_simple_sequence_of() {
    assert_eq!(
        sequence_of("SEQUENCE OF BOOLEAN").unwrap().1,
        ASN1Type::SequenceOf(SequenceOrSetOf {
            constraints: vec![],
            element_type: Box::new(ASN1Type::Boolean(Boolean { constraints: vec![] }))
        })
    );
}

#[test]
fn parses_simple_sequence_of_elsewhere_declared_type() {
    assert_eq!(
        sequence_of("SEQUENCE OF Things").unwrap().1,
        ASN1Type::SequenceOf(SequenceOrSetOf {
            constraints: vec![],
            element_type: Box::new(ASN1Type::ElsewhereDeclaredType(DeclarationElsewhere {
                identifier: "Things".into(),
                constraints: vec![]
            }))
        })
    );
}

#[test]
fn parses_constraint_sequence_of_elsewhere_declared_type() {
    assert_eq!(
        sequence_of("SEQUENCE SIZE (1..13,...) OF CorrelationCellValue  ")
            .unwrap()
            .1,
        ASN1Type::SequenceOf(SequenceOrSetOf {
            constraints: vec![Constraint::SubtypeConstraint(ElementSet {
                set: ElementOrSetOperation::Element(SubtypeElement::SizeConstraint(Box::new(
                    ElementOrSetOperation::Element(SubtypeElement::ValueRange {
                        min: Some(ASN1Value::Integer(1)),
                        max: Some(ASN1Value::Integer(13)),
                        extensible: true
                    })
                ))),
                extensible: false
            })],
            element_type: Box::new(ASN1Type::ElsewhereDeclaredType(DeclarationElsewhere {
                identifier: "CorrelationCellValue".into(),
                constraints: vec![]
            }))
        })
    );
}

#[test]
fn parses_constraint_sequence_of_with_extra_parentheses() {
    assert_eq!(
        sequence_of("SEQUENCE (SIZE (1..13, ...)) OF CorrelationCellValue  ")
            .unwrap()
            .1,
        ASN1Type::SequenceOf(SequenceOrSetOf {
            constraints: vec![Constraint::SubtypeConstraint(ElementSet {
                set: ElementOrSetOperation::Element(SubtypeElement::SizeConstraint(Box::new(
                    ElementOrSetOperation::Element(SubtypeElement::ValueRange {
                        min: Some(ASN1Value::Integer(1)),
                        max: Some(ASN1Value::Integer(13)),
                        extensible: true
                    })
                ))),
                extensible: false
            })],
            element_type: Box::new(ASN1Type::ElsewhereDeclaredType(DeclarationElsewhere {
                identifier: "CorrelationCellValue".into(),
                constraints: vec![]
            }))
        })
    );
}

#[test]
fn parses_constraint_sequence_of_constraint_integer() {
    assert_eq!(
        sequence_of(
            r#"SEQUENCE SIZE (1..13,...) OF INTEGER {
              one-distinguished-value (12)
            } (1..13,...) "#
        )
        .unwrap()
        .1,
        ASN1Type::SequenceOf(SequenceOrSetOf {
            constraints: vec![Constraint::SubtypeConstraint(ElementSet {
                set: ElementOrSetOperation::Element(SubtypeElement::SizeConstraint(Box::new(
                    ElementOrSetOperation::Element(SubtypeElement::ValueRange {
                        min: Some(ASN1Value::Integer(1)),
                        max: Some(ASN1Value::Integer(13)),
                        extensible: true
                    })
                ))),
                extensible: false
            })],
            element_type: Box::new(ASN1Type::Integer(Integer {
                constraints: vec![Constraint::SubtypeConstraint(ElementSet {
                    set: ElementOrSetOperation::Element(SubtypeElement::ValueRange {
                        min: Some(ASN1Value::Integer(1)),
                        max: Some(ASN1Value::Integer(13)),
                        extensible: true
                    }),
                    extensible: false
                })],
                used_in_const: false,
                distinguished_values: Some(vec![DistinguishedValue {
                    name: "one-distinguished-value".into(),
                    value: 12
                }])
            }))
        })
    );
}

#[test]
fn parses_parameterized_constrained_sequence_of() {
    assert_eq!(
        sequence_of(
            r#"SEQUENCE (SIZE(1..4)) OF
      RegionalExtension {{Reg-MapData}} OPTIONAL,"#
        )
        .unwrap()
        .1,
        ASN1Type::SequenceOf(SequenceOrSetOf {
            constraints: vec![Constraint::SubtypeConstraint(ElementSet {
                set: ElementOrSetOperation::Element(SubtypeElement::SizeConstraint(Box::new(
                    ElementOrSetOperation::Element(SubtypeElement::ValueRange {
                        min: Some(ASN1Value::Integer(1)),
                        max: Some(ASN1Value::Integer(4)),
                        extensible: false
                    })
                ))),
                extensible: false
            })],
            element_type: Box::new(ASN1Type::ElsewhereDeclaredType(DeclarationElsewhere {
                identifier: "RegionalExtension".into(),
                constraints: vec![Constraint::Parameter(vec![Parameter::ObjectSetParameter(
                    ObjectSet {
                        values: vec![ObjectSetValue::Reference("Reg-MapData".into())],
                        extensible: None
                    }
                )])]
            }))
        })
    );
}

#[test]
fn handles_object_field_ref() {
    println!(
        "{:?}",
        sequence_of(
            r#"SEQUENCE (SIZE(1..MAX)) OF
        IEEE1609DOT2-HEADERINFO-CONTRIBUTED-EXTENSION.&Extn({
        Ieee1609Dot2HeaderInfoContributedExtensions
      }{@.contributorId})"#
        )
        .unwrap()
        .1
    )
}

#[test]
fn size_constraint_parenthesization_is_invariant() {
    let bare = sequence_of("SEQUENCE SIZE (1..13,...) OF CorrelationCellValue").unwrap().1;
    let wrapped = sequence_of("SEQUENCE (SIZE (1..13,...)) OF CorrelationCellValue").unwrap().1;
    assert_eq!(bare, wrapped);
}

#[test]
fn parses_sequence_of_value_list() {
    let (_, v) = sequence_or_set_of_value("{ 1, 2, 3 }").unwrap();
    assert_eq!(
        v,
        ASN1Value::SequenceOrSetOf(vec![
            ASN1Value::Integer(1),
            ASN1Value::Integer(2),
            ASN1Value::Integer(3)
        ])
    );
}

#[test]
fn parses_value_list_with_discarded_field_names() {
    let (_, v) = sequence_or_set_of_value("{ boolean TRUE, int 4 }").unwrap();
    assert_eq!(
        v,
        ASN1Value::SequenceOrSetOf(vec![ASN1Value::Boolean(true), ASN1Value::Integer(4)])
    );
}
