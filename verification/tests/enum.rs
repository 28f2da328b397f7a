use enum_ffi_newtype::conversions::{domain_to_wire, wire_to_domain};
use enum_ffi_newtype::discriminant::{evaluate_discriminant_expr, parse_decimal};
use enum_ffi_newtype::model::{Attr, DiscrExpr, MetaItem, MetaValue, SourceEnum, SourceVariant,
    TransformError};
use enum_ffi_newtype::options::parse_macro_args;
use enum_ffi_newtype::transform::{enum_ffi_newtype, get_enum_repr, Plan};

fn variant(name: &str) -> SourceVariant {
    SourceVariant { ident: name.to_string(), discriminant: None, has_fields: false }
}

fn variant_with_discriminant(name: &str, digits: &str) -> SourceVariant {
    SourceVariant {
        ident: name.to_string(),
        discriminant: Some(DiscrExpr::IntLiteral(digits.to_string())),
        has_fields: false,
    }
}

fn repr_attr(tokens: &str) -> Attr {
    Attr { outer: true, list_name: Some("repr".to_string()), tokens: tokens.to_string() }
}

fn source_enum(name: &str, variants: Vec<SourceVariant>) -> SourceEnum {
    SourceEnum { ident: name.to_string(), attrs: vec![repr_attr("u32")], variants }
}

fn flag(name: &str) -> MetaItem {
    MetaItem { name: name.to_string(), value: MetaValue::Flag }
}

fn string_option(name: &str, value: &str) -> MetaItem {
    MetaItem { name: name.to_string(), value: MetaValue::Str(value.to_string()) }
}

fn transform(source: &SourceEnum, args: Vec<MetaItem>) -> Plan {
    enum_ffi_newtype(source, &args).expect("transformation should succeed")
}

fn three_variant_foo() -> SourceEnum {
    source_enum("Foo", vec![variant("Variant"), variant("Variant2"), variant("Variant3")])
}

#[test]
fn test_roundtrip() {
    let source = three_variant_foo();
    let plan = transform(&source, vec![string_option("rust_enum_name", "FooRs")]);
    let foo = wire_to_domain(&plan, plan.constants[0].value);
    let back = domain_to_wire(&plan, foo);
    assert_eq!(plan.constants[0].value, back);
}

#[test]
fn default_mode_contiguous_variants() {
    let source = three_variant_foo();
    let plan = transform(&source, vec![]);
    assert_eq!(plan.domain_ident, "FooRustified");
    assert_eq!(plan.catch_all_ident, "UnknownVariantFoo");
    assert!(plan.catch_all_appended);
    assert!(!plan.non_zero);
    assert_eq!(plan.repr_tokens, "u32");
    assert_eq!(plan.constants.len(), 3);
    assert_eq!(plan.constants[0].ident, "Variant");
    assert_eq!(plan.constants[0].value, 0);
    assert_eq!(plan.constants[1].ident, "Variant2");
    assert_eq!(plan.constants[1].value, 1);
    assert_eq!(plan.constants[2].ident, "Variant3");
    assert_eq!(plan.constants[2].value, 2);
}

#[test]
fn default_mode_roundtrip_every_variant() {
    let source = three_variant_foo();
    let plan = transform(&source, vec![]);
    for i in 0..plan.constants.len() {
        let wire = plan.constants[i].value;
        let domain = wire_to_domain(&plan, wire);
        assert_eq!(domain, i);
        assert_eq!(domain_to_wire(&plan, domain), wire);
    }
}

#[test]
fn default_mode_unknown_value_hits_catch_all() {
    let source = three_variant_foo();
    let plan = transform(&source, vec![]);
    // The catch-all is appended after the three source variants.
    assert_eq!(wire_to_domain(&plan, 42), 3);
}

#[test]
fn custom_domain_name() {
    let source = three_variant_foo();
    let plan = transform(&source, vec![string_option("rust_enum_name", "FooRs")]);
    assert_eq!(plan.domain_ident, "FooRs");
    assert_eq!(plan.catch_all_ident, "UnknownVariantFoo");
    assert!(plan.catch_all_appended);
    assert_eq!(plan.constants.len(), 3);
    assert_eq!(plan.constants[0].value, 0);
    assert_eq!(plan.constants[1].value, 1);
    assert_eq!(plan.constants[2].value, 2);
    assert_eq!(wire_to_domain(&plan, 42), 3);
}

#[test]
fn non_zero_mode() {
    let source = source_enum(
        "FooNonZero",
        vec![
            variant_with_discriminant("Variant", "1"),
            variant("Variant2"),
            variant("Variant3"),
        ],
    );
    let plan = transform(&source, vec![flag("non_zero")]);
    assert!(plan.non_zero);
    assert_eq!(plan.repr_tokens, "u32");
    assert_eq!(plan.constants[0].value, 1);
    assert_eq!(plan.constants[1].value, 2);
    assert_eq!(plan.constants[2].value, 3);
    assert_eq!(plan.catch_all_ident, "UnknownVariantFooNonZero");
    assert!(plan.catch_all_appended);
    // The appended catch-all takes the successor of the last discriminant, so
    // the generated build-time assertion that it is non-zero holds here.
    assert_eq!(domain_to_wire(&plan, 3), 4);
    // The domain-to-wire conversion is total over all four domain variants.
    for i in 0..4 {
        let wire = domain_to_wire(&plan, i);
        if i < 3 {
            assert_eq!(wire, plan.constants[i].value);
        }
    }
}

#[test]
fn explicit_catch_all_that_already_exists() {
    let source = source_enum(
        "FooWithCatchAll",
        vec![
            variant("Variant"),
            variant("Variant2"),
            variant("Variant3"),
            variant("Unknown"),
        ],
    );
    let plan = transform(&source, vec![string_option("catch_all", "Unknown")]);
    // The existing variant is reused: nothing is appended, the domain type
    // keeps exactly its four variants.
    assert!(!plan.catch_all_appended);
    assert_eq!(plan.catch_all_ident, "Unknown");
    assert_eq!(plan.constants.len(), 4);
    assert_eq!(wire_to_domain(&plan, 99), 3);
}

#[test]
fn explicit_catch_all_absent_in_source() {
    let source = three_variant_foo();
    let plan = transform(&source, vec![string_option("catch_all", "Unknown")]);
    assert!(plan.catch_all_appended);
    assert_eq!(plan.catch_all_ident, "Unknown");
    assert_eq!(plan.constants.len(), 3);
    assert_eq!(wire_to_domain(&plan, 99), 3);
}

#[test]
fn payload_variant_is_rejected() {
    let mut bad = variant("Variant2");
    bad.has_fields = true;
    let source = source_enum("Foo", vec![variant("Variant"), bad]);
    let result = enum_ffi_newtype(&source, &vec![]);
    assert_eq!(result.unwrap_err(), TransformError::PayloadVariant { variant: 1 });
}

#[test]
fn missing_repr_is_rejected() {
    let source = SourceEnum {
        ident: "Foo".to_string(),
        attrs: vec![],
        variants: vec![variant("Variant")],
    };
    let result = enum_ffi_newtype(&source, &vec![]);
    assert_eq!(result.unwrap_err(), TransformError::MissingRepr);
}

#[test]
fn inner_attribute_is_not_a_repr_marker() {
    let source = SourceEnum {
        ident: "Foo".to_string(),
        attrs: vec![
            Attr { outer: false, list_name: Some("repr".to_string()), tokens: "u8".to_string() },
            repr_attr("u16"),
        ],
        variants: vec![variant("Variant")],
    };
    let repr = get_enum_repr(&source).unwrap();
    assert_eq!(repr, "u16");
}

#[test]
fn non_literal_discriminant_is_rejected() {
    let source = source_enum(
        "Foo",
        vec![SourceVariant {
            ident: "Variant".to_string(),
            discriminant: Some(DiscrExpr::Other),
            has_fields: false,
        }],
    );
    let result = enum_ffi_newtype(&source, &vec![]);
    assert_eq!(result.unwrap_err(), TransformError::NonIntegerDiscriminant { variant: 0 });
}

#[test]
fn zero_discriminant_under_non_zero_is_rejected() {
    let source = three_variant_foo();
    let result = enum_ffi_newtype(&source, &vec![flag("non_zero")]);
    assert_eq!(result.unwrap_err(), TransformError::ZeroDiscriminant { variant: 0 });
}

#[test]
fn explicit_zero_discriminant_under_non_zero_is_rejected() {
    let source = source_enum(
        "Foo",
        vec![variant_with_discriminant("Variant", "0"), variant("Variant2")],
    );
    let result = enum_ffi_newtype(&source, &vec![flag("non_zero")]);
    assert_eq!(result.unwrap_err(), TransformError::ZeroDiscriminant { variant: 0 });
}

#[test]
fn unknown_option_is_rejected() {
    let source = three_variant_foo();
    let result = enum_ffi_newtype(&source, &vec![flag("non_zer0")]);
    assert_eq!(result.unwrap_err(), TransformError::UnknownOption { option: 0 });
}

#[test]
fn malformed_option_is_rejected() {
    let source = three_variant_foo();
    let result = enum_ffi_newtype(&source, &vec![flag("catch_all")]);
    assert_eq!(result.unwrap_err(), TransformError::MalformedOption { option: 0 });
}

#[test]
fn duplicate_option_is_rejected() {
    let source = three_variant_foo();
    let args = vec![flag("non_zero"), flag("non_zero")];
    let result = enum_ffi_newtype(&source, &args);
    assert_eq!(result.unwrap_err(), TransformError::DuplicateOption { option: 1 });
}

#[test]
fn non_zero_accepts_boolean_values() {
    let on = parse_macro_args(&vec![MetaItem {
        name: "non_zero".to_string(),
        value: MetaValue::Bool(true),
    }])
    .unwrap();
    assert!(on.non_zero);
    let off = parse_macro_args(&vec![MetaItem {
        name: "non_zero".to_string(),
        value: MetaValue::Bool(false),
    }])
    .unwrap();
    assert!(!off.non_zero);
    let absent = parse_macro_args(&vec![]).unwrap();
    assert!(!absent.non_zero);
    assert!(absent.catch_all.is_none());
    assert!(absent.rust_enum_name.is_none());
}

#[test]
fn explicit_discriminants_reset_the_counter() {
    // Discriminant identity: an explicit value sets the counter, the next
    // variant takes its successor, and sparse values stay as given.
    let source = source_enum(
        "Sparse",
        vec![
            variant("A"),
            variant_with_discriminant("B", "5"),
            variant("C"),
            variant_with_discriminant("D", "100"),
        ],
    );
    let plan = transform(&source, vec![]);
    assert_eq!(plan.constants[0].value, 0);
    assert_eq!(plan.constants[1].value, 5);
    assert_eq!(plan.constants[2].value, 6);
    assert_eq!(plan.constants[3].value, 100);
}

#[test]
fn sparse_values_fall_into_catch_all() {
    let source = source_enum(
        "Sparse",
        vec![variant_with_discriminant("A", "5"), variant_with_discriminant("B", "3")],
    );
    let plan = transform(&source, vec![]);
    // The gap between the sparse discriminants hits the catch-all.
    assert_eq!(wire_to_domain(&plan, 5), 0);
    assert_eq!(wire_to_domain(&plan, 3), 1);
    assert_eq!(wire_to_domain(&plan, 0), 2);
    // The appended catch-all takes the successor of the last variant's value.
    assert_eq!(domain_to_wire(&plan, 2), 4);
}

#[test]
fn discriminant_evaluator_accepts_only_integer_literals() {
    assert_eq!(
        evaluate_discriminant_expr(&DiscrExpr::IntLiteral("17".to_string()), 4),
        Ok(17)
    );
    assert_eq!(
        evaluate_discriminant_expr(&DiscrExpr::Other, 4),
        Err(TransformError::NonIntegerDiscriminant { variant: 4 })
    );
    assert_eq!(
        evaluate_discriminant_expr(&DiscrExpr::IntLiteral("9223372036854775807".to_string()), 0),
        Ok(i64::MAX)
    );
    assert_eq!(
        evaluate_discriminant_expr(&DiscrExpr::IntLiteral("9223372036854775808".to_string()), 0),
        Err(TransformError::DiscriminantOutOfRange { variant: 0 })
    );
}

#[test]
fn parse_decimal_reads_digit_runs_exactly() {
    assert_eq!(parse_decimal("0"), Some(0));
    assert_eq!(parse_decimal("007"), Some(7));
    assert_eq!(parse_decimal("65536"), Some(65536));
    assert_eq!(parse_decimal(""), None);
    assert_eq!(parse_decimal("1x"), None);
    assert_eq!(parse_decimal("-1"), None);
}

#[test]
fn empty_enumeration_gets_only_the_catch_all() {
    let source = source_enum("Foo", vec![]);
    let plan = transform(&source, vec![]);
    assert!(plan.catch_all_appended);
    assert_eq!(plan.constants.len(), 0);
    // Every wire value falls into the catch-all, which sits at position zero
    // and takes discriminant zero.
    assert_eq!(wire_to_domain(&plan, 7), 0);
    assert_eq!(domain_to_wire(&plan, 0), 0);
}

#[test]
fn counter_may_step_past_the_largest_explicit_value() {
    // The variant after an explicit i64::MAX takes its successor; the walker
    // does not wrap or fail.
    let source = source_enum(
        "Wide",
        vec![variant_with_discriminant("A", "9223372036854775807"), variant("B")],
    );
    let plan = transform(&source, vec![]);
    assert_eq!(plan.constants[0].value, i64::MAX as i128);
    assert_eq!(plan.constants[1].value, i64::MAX as i128 + 1);
}

#[test]
fn error_messages_match_the_diagnostics() {
    assert_eq!(TransformError::MissingRepr.message(), "No `repr` attribute found.");
    assert_eq!(
        TransformError::NonIntegerDiscriminant { variant: 0 }.message(),
        "discriminant must be an integer"
    );
    assert_eq!(
        TransformError::ZeroDiscriminant { variant: 0 }.message(),
        "discriminant must not be zero for NonZero representation"
    );
    assert_eq!(
        TransformError::PayloadVariant { variant: 0 }.message(),
        "FFI Enum variants may not contain fields"
    );
}

// Under non-zero mode the plan directs the caller to wrap the representation
// primitive in its non-zero form; the wire type stays the primitive's size
// and keeps the all-zero niche.
#[test]
fn non_zero_wrapper_keeps_size_and_niche() {
    assert_eq!(
        core::mem::size_of::<core::num::NonZeroU32>(),
        core::mem::size_of::<u32>()
    );
    assert_eq!(
        core::mem::align_of::<core::num::NonZeroU32>(),
        core::mem::align_of::<u32>()
    );
    assert_eq!(
        core::mem::size_of::<Option<core::num::NonZeroU32>>(),
        core::mem::size_of::<u32>()
    );
}
