use serde_poly::analysis::depends_on_scope;
use serde_poly::diagnostics::validate_schema;
use serde_poly::diagnostics::GenError;
use serde_poly::expand_ownable_poly::expand_ownable_poly;
use serde_poly::expand_ownable_poly::OwnablePlan;
use serde_poly::expand_poly::expand_poly;
use serde_poly::expand_poly::resolve_tag_name;
use serde_poly::schema::AttrOption;
use serde_poly::schema::FieldDecl;
use serde_poly::schema::FieldsShape;
use serde_poly::schema::GenericArg;
use serde_poly::schema::GenericParam;
use serde_poly::schema::PathSegment;
use serde_poly::schema::TypeExpr;
use serde_poly::schema::TypeSchema;
use serde_poly::schema::TypeShape;
use serde_poly::schema::Visibility;
use serde_poly::value::apply_ownable;
use serde_poly::value::own_value;
use serde_poly::value::FieldValue;
use serde_poly::value::PolyValue;
use serde_poly::OwnablePoly;

fn plain(name: &str) -> TypeExpr {
    TypeExpr::Path {
        segments: vec![PathSegment { name: name.to_string(), args: vec![] }],
    }
}

fn cow_str(scope: &str) -> TypeExpr {
    TypeExpr::Path {
        segments: vec![PathSegment {
            name: "Cow".to_string(),
            args: vec![
                GenericArg::ScopeArg { name: scope.to_string() },
                GenericArg::TypeArg { ty: plain("str") },
            ],
        }],
    }
}

fn schema_with(
    name: &str,
    generics: Vec<GenericParam>,
    shape: TypeShape,
    attrs: Vec<AttrOption>,
) -> TypeSchema {
    TypeSchema { name: name.to_string(), vis: Visibility::Private, generics, shape, attrs }
}

fn scope(name: &str) -> GenericParam {
    GenericParam::BorrowScope { name: name.to_string() }
}

fn one_field(ty: TypeExpr) -> TypeShape {
    TypeShape::Struct {
        fields: FieldsShape::Named {
            fields: vec![FieldDecl {
                name: "data".to_string(),
                vis: Visibility::Private,
                ty,
            }],
        },
    }
}

fn borrowed(text: &str) -> PolyValue {
    PolyValue::Str { owned: false, text: text.to_string() }
}

fn owned_str(text: &str) -> PolyValue {
    PolyValue::Str { owned: true, text: text.to_string() }
}

#[test]
fn two_scope_params_rejected() {
    let schema = schema_with(
        "TwoScopes",
        vec![scope("a"), scope("b")],
        one_field(cow_str("a")),
        vec![],
    );
    let expected = GenError::MultipleBorrowScopes { second: "b".to_string() };
    assert_eq!(validate_schema(&schema).unwrap_err(), expected);
    let expected = GenError::MultipleBorrowScopes { second: "b".to_string() };
    assert_eq!(expand_ownable_poly(&schema).unwrap_err(), expected);
    let expected = GenError::MultipleBorrowScopes { second: "b".to_string() };
    assert_eq!(expand_poly(&schema).unwrap_err(), expected);
}

#[test]
fn union_rejected() {
    let schema = schema_with("SomeUnion", vec![scope("a")], TypeShape::Union, vec![]);
    assert_eq!(expand_ownable_poly(&schema).unwrap_err(), GenError::UnionNotSupported);
    assert_eq!(expand_poly(&schema).unwrap_err(), GenError::UnionNotSupported);
}

#[test]
fn unsupported_attr_key_rejected() {
    let schema = schema_with(
        "BadAttr",
        vec![scope("a")],
        one_field(cow_str("a")),
        vec![AttrOption { key: "rename".to_string(), value: "X".to_string() }],
    );
    let expected = GenError::UnsupportedAttrKey { key: "rename".to_string() };
    assert_eq!(expand_poly(&schema).unwrap_err(), expected);
}

#[test]
fn name_override_on_scopeless_rejected() {
    let schema = schema_with(
        "NoScope",
        vec![],
        one_field(plain("String")),
        vec![AttrOption { key: "name".to_string(), value: "Alias".to_string() }],
    );
    assert_eq!(expand_poly(&schema).unwrap_err(), GenError::NameOverrideOnScopeless);
    assert_eq!(expand_ownable_poly(&schema).unwrap_err(), GenError::NameOverrideOnScopeless);
}

#[test]
fn resolve_tag_name_default_and_override() {
    let name = "Borrowed".to_string();
    let decision = resolve_tag_name(&name, &vec![], true).unwrap();
    assert_eq!(decision.tag_name, "BorrowedTag");
    assert!(!decision.attribute_used);

    let attrs = vec![AttrOption { key: "name".to_string(), value: "Alias".to_string() }];
    let decision = resolve_tag_name(&name, &attrs, true).unwrap();
    assert_eq!(decision.tag_name, "Alias");
    assert!(decision.attribute_used);

    let attrs = vec![AttrOption { key: "name".to_string(), value: "Alias".to_string() }];
    assert_eq!(
        resolve_tag_name(&name, &attrs, false).unwrap_err(),
        GenError::NameOverrideOnScopeless
    );
}

#[test]
fn scope_dependence_is_structural() {
    let scopes = vec!["a".to_string()];
    // a direct reference annotated with the scope
    let ty = TypeExpr::Reference {
        scope: Some("a".to_string()),
        elem: Box::new(plain("str")),
    };
    assert!(depends_on_scope(&ty, &scopes));
    // a reference annotated with a different scope
    let ty = TypeExpr::Reference {
        scope: Some("b".to_string()),
        elem: Box::new(plain("str")),
    };
    assert!(!depends_on_scope(&ty, &scopes));
    // nesting: Vec<Cow<'a, str>> inside a tuple inside a slice
    let ty = TypeExpr::Slice {
        elem: Box::new(TypeExpr::Tuple {
            elems: vec![
                plain("u64"),
                TypeExpr::Path {
                    segments: vec![PathSegment {
                        name: "Vec".to_string(),
                        args: vec![GenericArg::TypeArg { ty: cow_str("a") }],
                    }],
                },
            ],
        }),
    };
    assert!(depends_on_scope(&ty, &scopes));
    // a constraint region bound
    let ty = TypeExpr::Path {
        segments: vec![PathSegment {
            name: "Thing".to_string(),
            args: vec![GenericArg::ScopeConstraint { scopes: vec!["a".to_string()] }],
        }],
    };
    assert!(depends_on_scope(&ty, &scopes));
    // a plain path with no matching argument
    assert!(!depends_on_scope(&plain("u32"), &scopes));
}

#[test]
fn conversion_is_idempotent() {
    let value = PolyValue::Record {
        fields: vec![
            FieldValue { name: "name".to_string(), value: borrowed("test") },
            FieldValue {
                name: "items".to_string(),
                value: PolyValue::List { items: vec![borrowed("x"), owned_str("y")] },
            },
        ],
    };
    let once = own_value(&value);
    let twice = own_value(&once);
    assert_eq!(once, twice);

    let schema = schema_with("Idem", vec![scope("a")], one_field(cow_str("a")), vec![]);
    let plan = expand_ownable_poly(&schema).unwrap();
    let v = PolyValue::Record {
        fields: vec![FieldValue { name: "data".to_string(), value: borrowed("hello") }],
    };
    let once = apply_ownable(&plan, &v);
    let twice = apply_ownable(&plan, &once);
    assert_eq!(once, twice);
}

#[test]
fn field_order_is_preserved() {
    let schema = schema_with(
        "Ordered",
        vec![scope("a")],
        TypeShape::Struct {
            fields: FieldsShape::Named {
                fields: vec![
                    FieldDecl {
                        name: "first".to_string(),
                        vis: Visibility::Private,
                        ty: cow_str("a"),
                    },
                    FieldDecl {
                        name: "second".to_string(),
                        vis: Visibility::Private,
                        ty: plain("u32"),
                    },
                    FieldDecl {
                        name: "third".to_string(),
                        vis: Visibility::Private,
                        ty: cow_str("a"),
                    },
                ],
            },
        },
        vec![],
    );
    let plan = expand_ownable_poly(&schema).unwrap();
    let v = PolyValue::Record {
        fields: vec![
            FieldValue { name: "first".to_string(), value: borrowed("1") },
            FieldValue { name: "second".to_string(), value: PolyValue::Int { value: 2 } },
            FieldValue { name: "third".to_string(), value: borrowed("3") },
        ],
    };
    let owned = apply_ownable(&plan, &v);
    match &owned {
        PolyValue::Record { fields } => {
            assert_eq!(fields.len(), 3);
            assert_eq!(fields[0].name, "first");
            assert_eq!(fields[1].name, "second");
            assert_eq!(fields[2].name, "third");
            assert_eq!(fields[1].value, PolyValue::Int { value: 2 });
        },
        other => panic!("expected a record, got {:?}", other),
    }
}

#[test]
fn empty_enum_is_legal() {
    let schema = schema_with(
        "Empty",
        vec![scope("a")],
        TypeShape::Enum { variants: vec![] },
        vec![],
    );
    let plan = expand_ownable_poly(&schema).unwrap();
    assert_eq!(plan, OwnablePlan::Enum { variants: vec![] });
    // a value of an unknown variant passes through unchanged
    let v = PolyValue::Case {
        name: "Ghostly".to_string(),
        payload: Box::new(PolyValue::Unit),
    };
    let owned = apply_ownable(&plan, &v);
    assert_eq!(
        owned,
        PolyValue::Case { name: "Ghostly".to_string(), payload: Box::new(PolyValue::Unit) }
    );
}

#[test]
fn stock_conversions_are_identity() {
    assert_eq!(42u32.into_owned(), 42u32);
    assert_eq!(true.into_owned(), true);
    assert_eq!('x'.into_owned(), 'x');
    assert_eq!("text".to_string().into_owned(), "text".to_string());
    assert_eq!(vec![1u32, 2, 3].into_owned(), vec![1u32, 2, 3]);
    assert_eq!(Some(7i64).into_owned(), Some(7i64));
    assert_eq!(Ok::<u32, i64>(9).into_owned(), Ok::<u32, i64>(9));
    assert_eq!(Err::<u32, i64>(-1).into_owned(), Err::<u32, i64>(-1));
    let id = uuid::Uuid::from_u128(0x1234_5678_9abc_def0_1122_3344_5566_7788);
    assert_eq!(id.into_owned(), id);
}

#[test]
fn poly_value_into_owned_matches_own_value() {
    let v = PolyValue::Case {
        name: "Borrowed".to_string(),
        payload: Box::new(PolyValue::Tuple { items: vec![borrowed("test")] }),
    };
    let expected = own_value(&v);
    assert_eq!(v.into_owned(), expected);
}

#[test]
fn scope_dependence_through_other_forms() {
    let scopes = vec!["a".to_string()];
    // an associated-type argument
    let ty = TypeExpr::Path {
        segments: vec![PathSegment {
            name: "Iterator".to_string(),
            args: vec![GenericArg::AssocTypeArg { ty: cow_str("a") }],
        }],
    };
    assert!(depends_on_scope(&ty, &scopes));
    // array, raw pointer, parenthesized and grouped element types
    let ty = TypeExpr::Array { elem: Box::new(cow_str("a")) };
    assert!(depends_on_scope(&ty, &scopes));
    let ty = TypeExpr::RawPtr { elem: Box::new(cow_str("a")) };
    assert!(depends_on_scope(&ty, &scopes));
    let ty = TypeExpr::Paren {
        elem: Box::new(TypeExpr::Group { elem: Box::new(cow_str("a")) }),
    };
    assert!(depends_on_scope(&ty, &scopes));
    // a reference without an annotation, over an independent element
    let ty = TypeExpr::Reference { scope: None, elem: Box::new(plain("str")) };
    assert!(!depends_on_scope(&ty, &scopes));
    // anything else is never dependent
    assert!(!depends_on_scope(&TypeExpr::Opaque, &scopes));
}
