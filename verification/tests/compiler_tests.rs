use rasn_compiler::intermediate::CompilerError;
use rasn_compiler::RasnCompiler;

fn normalized(s: &str) -> String {
    s.replace(|c: char| c.is_whitespace(), "")
}

fn compile_body(asn1: &str) -> String {
    normalized(
        &RasnCompiler::new()
            .add_asn_literal(&format!(
                "TestModule DEFINITIONS AUTOMATIC TAGS::= BEGIN {} END",
                asn1
            ))
            .compile_to_string()
            .unwrap()
            .0,
    )
    .replace(
        "pubmodtest_module{externcratealloc;userasn::prelude::*;uselazy_static::lazy_static;",
        "",
    )
}

#[test]
fn t() {
    println!(
        "{}",
        RasnCompiler::new()
            .add_asn_literal(
                r#"
        TestModule DEFINITIONS AUTOMATIC TAGS ::= BEGIN

        Test-String ::= BMPString
        test-string-val Test-String ::= "012345"

        END
        "#
            )
            .compile_to_string()
            .unwrap()
            .0
    )
}

#[test]
fn boolean() {
    assert_eq!(
        compile_body(
            r#" Test-Boolean ::= BOOLEAN
                Wrapping-Boolean ::= Test-Boolean
                value Wrapping-Boolean ::= FALSE"#
        ),
        normalized(
            r#" #[derive(AsnType, Debug, Clone, Copy, Decode, Encode, PartialEq)]
                #[rasn(delegate)]
                pub struct TestBoolean(pub bool);

                #[derive(AsnType, Debug, Clone, Decode, Encode, PartialEq)]
                #[rasn(delegate)]
                pub struct WrappingBoolean(pub TestBoolean);

                pub const VALUE: WrappingBoolean = WrappingBoolean(TestBoolean(false)); }"#
        ),
    )
}

#[test]
fn integer() {
    assert_eq!(
        compile_body(
            r#" Test-Int ::= INTEGER (0..123723)
                Wrapping-Int ::= Test-Int (0..123)
                value Wrapping-Int ::= 4"#
        ),
        normalized(
            r#" #[derive(AsnType, Debug, Clone, Decode, Encode, PartialEq, PartialOrd, Eq, Ord, Hash)]
                #[rasn(delegate, value("0..=123723"))]
                pub struct TestInt(pub u32);

                #[derive(AsnType, Debug, Clone, Decode, Encode, PartialEq)]
                #[rasn(delegate, value("0..=123"))]
                pub struct WrappingInt(pub TestInt);

                pub const VALUE: WrappingInt = WrappingInt(TestInt(4)); }"#
        ),
    )
}

#[test]
fn constraint_cross_reference() {
    assert_eq!(
        compile_body(
            r#" Test-Int ::= INTEGER (0..123723)
                Wrapping-Int ::= Test-Int (0..value)
                value Test-Int ::= 5"#
        ),
        normalized(
            r#" #[derive(AsnType, Debug, Clone, Decode, Encode, PartialEq, PartialOrd, Eq, Ord, Hash)]
                #[rasn(delegate, value("0..=123723"))]
                pub struct TestInt(pub u32);

                #[derive(AsnType, Debug, Clone, Decode, Encode, PartialEq)]
                #[rasn(delegate, value("0..=5"))]
                pub struct WrappingInt(pub TestInt);

                pub const VALUE: TestInt = TestInt(5); }"#
        ),
    )
}

#[test]
fn sequence() {
    assert_eq!(
        compile_body(
            r#" Test-Int ::= INTEGER (0..123723)
                Wrapping-Int ::= Test-Int (0..123)
                Test-Boolean ::= BOOLEAN
                Wrapping-Boolean ::= Test-Boolean
                Test-Sequence ::= SEQUENCE {
                    int Wrapping-Int DEFAULT 5,
                    boolean Wrapping-Boolean,
                }
                value Test-Sequence ::= { boolean TRUE }"#
        ),
        normalized(
            r#" #[derive(AsnType, Debug, Clone, Copy, Decode, Encode, PartialEq)]
                #[rasn(delegate)]
                pub struct TestBoolean(pub bool);

                #[derive(AsnType, Debug, Clone, Decode, Encode, PartialEq, PartialOrd, Eq, Ord, Hash)]
                #[rasn(delegate, value("0..=123723"))]
                pub struct TestInt(pub u32);

                #[derive(AsnType, Debug, Clone, Decode, Encode, PartialEq)]
                #[rasn(automatic_tags)]
                pub struct TestSequence {
                    #[rasn(default = "test_sequence_int_default")]
                    pub int: WrappingInt,
                    pub boolean: WrappingBoolean,
                }
                fn test_sequence_int_default() -> WrappingInt { WrappingInt(TestInt(5)) }

                #[derive(AsnType, Debug, Clone, Decode, Encode, PartialEq)]
                #[rasn(delegate)]
                pub struct WrappingBoolean(pub TestBoolean);

                #[derive(AsnType, Debug, Clone, Decode, Encode, PartialEq)]
                #[rasn(delegate, value("0..=123"))]
                pub struct WrappingInt(pub TestInt);

                lazy_static! {
                    pub static ref VALUE: TestSequence = TestSequence {
                        int: WrappingInt(TestInt(5)),
                        boolean: WrappingBoolean(TestBoolean(true)),
                    };
                } }"#
        ),
    )
}

#[test]
fn compiling_twice_yields_identical_text() {
    let asn1 = r#"TestModule DEFINITIONS AUTOMATIC TAGS ::= BEGIN
        Test-Int ::= INTEGER (0..123723)
        Wrapping-Int ::= Test-Int (0..value)
        value Test-Int ::= 5
        END"#;
    let first = RasnCompiler::new()
        .add_asn_literal(asn1)
        .compile_to_string()
        .unwrap()
        .0;
    let second = RasnCompiler::new()
        .add_asn_literal(asn1)
        .compile_to_string()
        .unwrap()
        .0;
    assert_eq!(normalized(&first), normalized(&second));
}

#[test]
fn forward_references_across_fragments_resolve() {
    let out = RasnCompiler::new()
        .add_asn_literal(
            "ModuleA DEFINITIONS AUTOMATIC TAGS ::= BEGIN Wrapper ::= Base END",
        )
        .add_asn_literal(
            "ModuleB DEFINITIONS AUTOMATIC TAGS ::= BEGIN Base ::= BOOLEAN END",
        )
        .compile_to_string()
        .unwrap()
        .0;
    assert!(normalized(&out).contains("pubstructWrapper(pubBase);"));
    assert!(normalized(&out).contains("pubstructBase(pubbool);"));
}

#[test]
fn unresolvable_constraint_reference_fails() {
    let result = RasnCompiler::new()
        .add_asn_literal(
            r#"TestModule DEFINITIONS AUTOMATIC TAGS ::= BEGIN
            Test-Int ::= INTEGER (0..123723)
            Wrapping-Int ::= Test-Int (0..missing)
            END"#,
        )
        .compile_to_string();
    match result {
        Err(CompilerError::UnresolvedReference { identifier }) => {
            assert_eq!(identifier, "missing");
        },
        other => panic!("expected an unresolved-reference error, got {:?}", other),
    }
}

#[test]
fn unresolvable_type_reference_fails() {
    let result = RasnCompiler::new()
        .add_asn_literal(
            "TestModule DEFINITIONS AUTOMATIC TAGS ::= BEGIN Wrapper ::= Nowhere END",
        )
        .compile_to_string();
    assert!(matches!(
        result,
        Err(CompilerError::UnresolvedReference { .. })
    ));
}

#[test]
fn malformed_range_fails() {
    let result = RasnCompiler::new()
        .add_asn_literal(
            "TestModule DEFINITIONS AUTOMATIC TAGS ::= BEGIN Bad-Int ::= INTEGER (9..2) END",
        )
        .compile_to_string();
    assert!(matches!(result, Err(CompilerError::MalformedRange)));
}

#[test]
fn syntax_error_reports_unconsumed_remainder() {
    let result = RasnCompiler::new()
        .add_asn_literal("TestModule DEFINITIONS AUTOMATIC TAGS ::= BEGIN ??? END")
        .compile_to_string();
    assert!(matches!(result, Err(CompilerError::Syntax { .. })));
}

#[test]
fn extensible_range_is_flagged_distinctly() {
    let closed = compile_body("Test-Int ::= INTEGER (0..5)");
    let extensible = compile_body("Test-Int ::= INTEGER (0..5,...)");
    assert!(closed.contains("value(\"0..=5\")"));
    assert!(extensible.contains("value(\"0..=5\",extensible)"));
}

#[test]
fn decode_hex_decodes_digit_pairs() {
    assert_eq!(
        rasn_compiler::decode_hex("00ff10").unwrap(),
        vec![0u8, 255u8, 16u8]
    );
    assert_eq!(rasn_compiler::decode_hex("").unwrap(), Vec::<u8>::new());
}

#[test]
fn decode_hex_rejects_non_hex_digits() {
    assert!(rasn_compiler::decode_hex("0g").is_err());
}
