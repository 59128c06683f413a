use serde_poly::expand_ownable_poly::expand_ownable_poly;
use serde_poly::expand_ownable_poly::FieldsPlan;
use serde_poly::expand_ownable_poly::NamedFieldPlan;
use serde_poly::expand_ownable_poly::OwnablePlan;
use serde_poly::expand_ownable_poly::VariantPlan;
use serde_poly::schema::FieldDecl;
use serde_poly::schema::FieldsShape;
use serde_poly::schema::GenericArg;
use serde_poly::schema::GenericParam;
use serde_poly::schema::PathSegment;
use serde_poly::schema::TupleFieldDecl;
use serde_poly::schema::TypeExpr;
use serde_poly::schema::TypeSchema;
use serde_poly::schema::TypeShape;
use serde_poly::schema::VariantSpec;
use serde_poly::schema::Visibility;
use serde_poly::value::apply_ownable;
use serde_poly::value::FieldValue;
use serde_poly::value::PolyValue;

fn plain(name: &str) -> TypeExpr {
    TypeExpr::Path {
        segments: vec![PathSegment { name: name.to_string(), args: vec![] }],
    }
}

fn cow_str(scope: &str) -> TypeExpr {
    TypeExpr::Path {
        segments: vec![PathSegment {
            name: "Cow".to_string(),
            args: vec![
                GenericArg::ScopeArg { name: scope.to_string() },
                GenericArg::TypeArg { ty: plain("str") },
            ],
        }],
    }
}

fn vec_of(elem: TypeExpr) -> TypeExpr {
    TypeExpr::Path {
        segments: vec![PathSegment {
            name: "Vec".to_string(),
            args: vec![GenericArg::TypeArg { ty: elem }],
        }],
    }
}

fn named_field(name: &str, ty: TypeExpr) -> FieldDecl {
    FieldDecl { name: name.to_string(), vis: Visibility::Private, ty }
}

fn struct_schema(name: &str, generics: Vec<GenericParam>, fields: FieldsShape) -> TypeSchema {
    TypeSchema {
        name: name.to_string(),
        vis: Visibility::Private,
        generics,
        shape: TypeShape::Struct { fields },
        attrs: vec![],
    }
}

fn enum_schema(name: &str, generics: Vec<GenericParam>, variants: Vec<VariantSpec>) -> TypeSchema {
    TypeSchema {
        name: name.to_string(),
        vis: Visibility::Private,
        generics,
        shape: TypeShape::Enum { variants },
        attrs: vec![],
    }
}

fn scope(name: &str) -> GenericParam {
    GenericParam::BorrowScope { name: name.to_string() }
}

fn type_param(name: &str) -> GenericParam {
    GenericParam::TypeParam { name: name.to_string() }
}

fn borrowed(text: &str) -> PolyValue {
    PolyValue::Str { owned: false, text: text.to_string() }
}

fn owned_str(text: &str) -> PolyValue {
    PolyValue::Str { owned: true, text: text.to_string() }
}

fn int_val(value: i64) -> PolyValue {
    PolyValue::Int { value }
}

fn field(name: &str, value: PolyValue) -> FieldValue {
    FieldValue { name: name.to_string(), value }
}

fn record(fields: Vec<FieldValue>) -> PolyValue {
    PolyValue::Record { fields }
}

fn tuple(items: Vec<PolyValue>) -> PolyValue {
    PolyValue::Tuple { items }
}

fn case(name: &str, payload: PolyValue) -> PolyValue {
    PolyValue::Case { name: name.to_string(), payload: Box::new(payload) }
}

fn simple_enum_schema() -> TypeSchema {
    enum_schema(
        "SimpleEnum",
        vec![scope("a")],
        vec![
            VariantSpec {
                name: "Borrowed".to_string(),
                fields: FieldsShape::Unnamed {
                    fields: vec![TupleFieldDecl { vis: Visibility::Private, ty: cow_str("a") }],
                },
            },
            VariantSpec {
                name: "Owned".to_string(),
                fields: FieldsShape::Unnamed {
                    fields: vec![TupleFieldDecl { vis: Visibility::Private, ty: plain("String") }],
                },
            },
            VariantSpec { name: "Unit".to_string(), fields: FieldsShape::Unit },
        ],
    )
}

fn complex_enum_schema() -> TypeSchema {
    enum_schema(
        "ComplexEnum",
        vec![scope("a")],
        vec![
            VariantSpec {
                name: "Named".to_string(),
                fields: FieldsShape::Named {
                    fields: vec![
                        named_field("name", cow_str("a")),
                        named_field("count", plain("u32")),
                    ],
                },
            },
            VariantSpec {
                name: "Tuple".to_string(),
                fields: FieldsShape::Unnamed {
                    fields: vec![
                        TupleFieldDecl { vis: Visibility::Private, ty: cow_str("a") },
                        TupleFieldDecl { vis: Visibility::Private, ty: plain("u32") },
                        TupleFieldDecl { vis: Visibility::Private, ty: plain("String") },
                    ],
                },
            },
            VariantSpec { name: "Unit".to_string(), fields: FieldsShape::Unit },
        ],
    )
}

fn mixed_enum_schema() -> TypeSchema {
    enum_schema(
        "MixedEnum",
        vec![scope("a"), type_param("T")],
        vec![
            VariantSpec {
                name: "WithLifetime".to_string(),
                fields: FieldsShape::Unnamed {
                    fields: vec![TupleFieldDecl { vis: Visibility::Private, ty: cow_str("a") }],
                },
            },
            VariantSpec {
                name: "WithGeneric".to_string(),
                fields: FieldsShape::Unnamed {
                    fields: vec![TupleFieldDecl { vis: Visibility::Private, ty: plain("T") }],
                },
            },
            VariantSpec {
                name: "WithBoth".to_string(),
                fields: FieldsShape::Named {
                    fields: vec![
                        named_field("data", cow_str("a")),
                        named_field("value", plain("T")),
                    ],
                },
            },
        ],
    )
}

#[test]
fn test_simple_example() {
    let schema = struct_schema(
        "SimpleExample",
        vec![scope("a")],
        FieldsShape::Named { fields: vec![named_field("data", cow_str("a"))] },
    );
    let plan = expand_ownable_poly(&schema).unwrap();
    assert_eq!(
        plan,
        OwnablePlan::Struct {
            fields: FieldsPlan::Named {
                fields: vec![NamedFieldPlan { name: "data".to_string(), convert: true }],
            },
        }
    );
    let example = record(vec![field("data", borrowed("hello"))]);
    let owned = apply_ownable(&plan, &example);
    assert_eq!(owned, record(vec![field("data", owned_str("hello"))]));
}

#[test]
fn test_multi_field_example() {
    let schema = struct_schema(
        "MultiFieldExample",
        vec![scope("a")],
        FieldsShape::Named {
            fields: vec![
                named_field("name", cow_str("a")),
                named_field("count", plain("u32")),
                named_field("values", vec_of(cow_str("a"))),
            ],
        },
    );
    let plan = expand_ownable_poly(&schema).unwrap();
    let example = record(vec![
        field("name", borrowed("test")),
        field("count", int_val(42)),
        field("values", PolyValue::List { items: vec![borrowed("a"), borrowed("b")] }),
    ]);
    let owned = apply_ownable(&plan, &example);
    match &owned {
        PolyValue::Record { fields } => {
            assert_eq!(fields[0].value, owned_str("test"));
            assert_eq!(fields[1].value, int_val(42));
            match &fields[2].value {
                PolyValue::List { items } => assert_eq!(items.len(), 2),
                other => panic!("expected a list, got {:?}", other),
            }
        },
        other => panic!("expected a record, got {:?}", other),
    }
}

#[test]
fn test_tuple_example() {
    let schema = struct_schema(
        "TupleExample",
        vec![scope("a")],
        FieldsShape::Unnamed {
            fields: vec![
                TupleFieldDecl { vis: Visibility::Private, ty: cow_str("a") },
                TupleFieldDecl { vis: Visibility::Private, ty: plain("u32") },
            ],
        },
    );
    let plan = expand_ownable_poly(&schema).unwrap();
    let example = tuple(vec![borrowed("world"), int_val(100)]);
    let owned = apply_ownable(&plan, &example);
    match &owned {
        PolyValue::Tuple { items } => {
            assert_eq!(items[0], owned_str("world"));
            assert_eq!(items[1], int_val(100));
        },
        other => panic!("expected a tuple, got {:?}", other),
    }
}

#[test]
fn test_no_lifetime_example() {
    let schema = struct_schema(
        "NoLifetimeExample",
        vec![],
        FieldsShape::Named {
            fields: vec![
                named_field("data", plain("String")),
                named_field("count", plain("u32")),
            ],
        },
    );
    let plan = expand_ownable_poly(&schema).unwrap();
    assert_eq!(plan, OwnablePlan::Identity);
    let example = record(vec![field("data", owned_str("test")), field("count", int_val(5))]);
    let owned = apply_ownable(&plan, &example);
    match &owned {
        PolyValue::Record { fields } => {
            assert_eq!(fields[0].value, owned_str("test"));
            assert_eq!(fields[1].value, int_val(5));
        },
        other => panic!("expected a record, got {:?}", other),
    }
}

#[test]
fn test_with_generics() {
    let schema = struct_schema(
        "WithGenerics",
        vec![scope("a"), type_param("T")],
        FieldsShape::Named {
            fields: vec![
                named_field("data", cow_str("a")),
                named_field("value", plain("T")),
            ],
        },
    );
    let plan = expand_ownable_poly(&schema).unwrap();
    let example = record(vec![field("data", borrowed("generic")), field("value", int_val(123))]);
    let owned = apply_ownable(&plan, &example);
    match &owned {
        PolyValue::Record { fields } => {
            assert_eq!(fields[0].value, owned_str("generic"));
            assert_eq!(fields[1].value, int_val(123));
        },
        other => panic!("expected a record, got {:?}", other),
    }
}

#[test]
fn test_simple_enum_borrowed() {
    let plan = expand_ownable_poly(&simple_enum_schema()).unwrap();
    let example = case("Borrowed", tuple(vec![borrowed("test")]));
    let owned = apply_ownable(&plan, &example);
    assert_eq!(owned, case("Borrowed", tuple(vec![owned_str("test")])));
}

#[test]
fn test_simple_enum_owned() {
    let plan = expand_ownable_poly(&simple_enum_schema()).unwrap();
    let example = case("Owned", tuple(vec![owned_str("test")]));
    let owned = apply_ownable(&plan, &example);
    assert_eq!(owned, case("Owned", tuple(vec![owned_str("test")])));
}

#[test]
fn test_simple_enum_unit() {
    let plan = expand_ownable_poly(&simple_enum_schema()).unwrap();
    let example = case("Unit", PolyValue::Unit);
    let owned = apply_ownable(&plan, &example);
    assert_eq!(owned, case("Unit", PolyValue::Unit));
}

#[test]
fn test_complex_enum_named() {
    let plan = expand_ownable_poly(&complex_enum_schema()).unwrap();
    let example = case(
        "Named",
        record(vec![field("name", borrowed("test")), field("count", int_val(42))]),
    );
    let owned = apply_ownable(&plan, &example);
    assert_eq!(
        owned,
        case("Named", record(vec![field("name", owned_str("test")), field("count", int_val(42))]))
    );
}

#[test]
fn test_complex_enum_tuple() {
    let plan = expand_ownable_poly(&complex_enum_schema()).unwrap();
    let example = case("Tuple", tuple(vec![borrowed("hello"), int_val(123), owned_str("world")]));
    let owned = apply_ownable(&plan, &example);
    assert_eq!(
        owned,
        case("Tuple", tuple(vec![owned_str("hello"), int_val(123), owned_str("world")]))
    );
}

#[test]
fn test_complex_enum_unit() {
    let plan = expand_ownable_poly(&complex_enum_schema()).unwrap();
    let example = case("Unit", PolyValue::Unit);
    let owned = apply_ownable(&plan, &example);
    assert_eq!(owned, case("Unit", PolyValue::Unit));
}

#[test]
fn test_mixed_enum_with_lifetime() {
    let plan = expand_ownable_poly(&mixed_enum_schema()).unwrap();
    let example = case("WithLifetime", tuple(vec![borrowed("test")]));
    let owned = apply_ownable(&plan, &example);
    assert_eq!(owned, case("WithLifetime", tuple(vec![owned_str("test")])));
}

#[test]
fn test_mixed_enum_with_generic() {
    let plan = expand_ownable_poly(&mixed_enum_schema()).unwrap();
    let example = case("WithGeneric", tuple(vec![int_val(42)]));
    let owned = apply_ownable(&plan, &example);
    assert_eq!(owned, case("WithGeneric", tuple(vec![int_val(42)])));
}

#[test]
fn test_mixed_enum_with_both() {
    let plan = expand_ownable_poly(&mixed_enum_schema()).unwrap();
    let example = case(
        "WithBoth",
        record(vec![field("data", borrowed("hello")), field("value", owned_str("world"))]),
    );
    let owned = apply_ownable(&plan, &example);
    assert_eq!(
        owned,
        case(
            "WithBoth",
            record(vec![field("data", owned_str("hello")), field("value", owned_str("world"))])
        )
    );
}

#[test]
fn test_no_lifetime_enum() {
    let schema = enum_schema(
        "NoLifetimeEnum",
        vec![],
        vec![
            VariantSpec {
                name: "Variant1".to_string(),
                fields: FieldsShape::Unnamed {
                    fields: vec![TupleFieldDecl { vis: Visibility::Private, ty: plain("String") }],
                },
            },
            VariantSpec {
                name: "Variant2".to_string(),
                fields: FieldsShape::Named { fields: vec![named_field("data", plain("u32"))] },
            },
            VariantSpec { name: "Variant3".to_string(), fields: FieldsShape::Unit },
        ],
    );
    let plan = expand_ownable_poly(&schema).unwrap();
    assert_eq!(plan, OwnablePlan::Identity);

    let example = case("Variant1", tuple(vec![owned_str("test")]));
    let owned = apply_ownable(&plan, &example);
    assert_eq!(owned, case("Variant1", tuple(vec![owned_str("test")])));

    let example = case("Variant2", record(vec![field("data", int_val(42))]));
    let owned = apply_ownable(&plan, &example);
    assert_eq!(owned, case("Variant2", record(vec![field("data", int_val(42))])));

    let example = case("Variant3", PolyValue::Unit);
    let owned = apply_ownable(&plan, &example);
    assert_eq!(owned, case("Variant3", PolyValue::Unit));
}

#[test]
fn test_enum_plan_shape() {
    let plan = expand_ownable_poly(&simple_enum_schema()).unwrap();
    assert_eq!(
        plan,
        OwnablePlan::Enum {
            variants: vec![
                VariantPlan {
                    name: "Borrowed".to_string(),
                    fields: FieldsPlan::Unnamed { converts: vec![true] },
                },
                VariantPlan {
                    name: "Owned".to_string(),
                    fields: FieldsPlan::Unnamed { converts: vec![false] },
                },
                VariantPlan { name: "Unit".to_string(), fields: FieldsPlan::Unit },
            ],
        }
    );
}
