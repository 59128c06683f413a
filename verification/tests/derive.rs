use serde_poly::expand_poly::expand_poly;
use serde_poly::schema::AttrOption;
use serde_poly::schema::FieldDecl;
use serde_poly::schema::FieldsShape;
use serde_poly::schema::GenericParam;
use serde_poly::schema::PathSegment;
use serde_poly::schema::TypeExpr;
use serde_poly::schema::TypeSchema;
use serde_poly::schema::TypeShape;
use serde_poly::schema::Visibility;

fn plain(name: &str) -> TypeExpr {
    TypeExpr::Path {
        segments: vec![PathSegment { name: name.to_string(), args: vec![] }],
    }
}

fn ref_str(scope: &str) -> TypeExpr {
    TypeExpr::Reference {
        scope: Some(scope.to_string()),
        elem: Box::new(plain("str")),
    }
}

fn named_struct(
    name: &str,
    vis: Visibility,
    generics: Vec<GenericParam>,
    attrs: Vec<AttrOption>,
    fields: Vec<FieldDecl>,
) -> TypeSchema {
    TypeSchema {
        name: name.to_string(),
        vis,
        generics,
        shape: TypeShape::Struct { fields: FieldsShape::Named { fields } },
        attrs,
    }
}

fn scope(name: &str) -> GenericParam {
    GenericParam::BorrowScope { name: name.to_string() }
}

#[test]
fn owned_types_use_self() {
    let schema = named_struct(
        "Owned",
        Visibility::Private,
        vec![],
        vec![],
        vec![FieldDecl {
            name: "value".to_string(),
            vis: Visibility::Private,
            ty: plain("String"),
        }],
    );
    let artifacts = expand_poly(&schema).unwrap();
    assert!(artifacts.decl.is_none());
    assert_eq!(artifacts.erase.target, artifacts.erase.source);
    assert_eq!(artifacts.restore.target, artifacts.restore.source);
    assert_eq!(artifacts.erase.source.name, "Owned");
    assert!(!artifacts.erase.source.takes_scope);
}

#[test]
fn borrowed_types_generate_poly_struct() {
    let schema = named_struct(
        "Borrowed",
        Visibility::Private,
        vec![scope("a")],
        vec![],
        vec![FieldDecl {
            name: "value".to_string(),
            vis: Visibility::Private,
            ty: ref_str("a"),
        }],
    );
    let artifacts = expand_poly(&schema).unwrap();
    let decl = artifacts.decl.as_ref().unwrap();
    assert_eq!(decl.name, "BorrowedTag");
    assert_eq!(artifacts.erase.source.name, "Borrowed");
    assert!(artifacts.erase.source.takes_scope);
    assert_eq!(artifacts.erase.target.name, "BorrowedTag");
    assert!(!artifacts.erase.target.takes_scope);
    assert_eq!(artifacts.restore.source.name, "BorrowedTag");
    assert_eq!(artifacts.restore.target.name, "Borrowed");
    assert!(artifacts.restore.target.takes_scope);
    // the tag type is zero-size: no retained parameters, no markers
    assert_eq!(decl.params.len(), 0);
    assert_eq!(decl.markers.len(), 0);
}

#[test]
fn custom_name_attribute_applies() {
    let schema = named_struct(
        "WithCustomName",
        Visibility::Private,
        vec![scope("a")],
        vec![AttrOption { key: "name".to_string(), value: "BorrowedAlias".to_string() }],
        vec![FieldDecl {
            name: "data".to_string(),
            vis: Visibility::Private,
            ty: ref_str("a"),
        }],
    );
    let artifacts = expand_poly(&schema).unwrap();
    assert_eq!(artifacts.decl.as_ref().unwrap().name, "BorrowedAlias");
    assert_eq!(artifacts.erase.target.name, "BorrowedAlias");
    assert_eq!(artifacts.restore.source.name, "BorrowedAlias");
    assert_eq!(artifacts.restore.target.name, "WithCustomName");
}

#[test]
fn public_poly_struct_is_public() {
    let schema = named_struct(
        "Public",
        Visibility::Public,
        vec![scope("a")],
        vec![],
        vec![FieldDecl {
            name: "data".to_string(),
            vis: Visibility::Public,
            ty: ref_str("a"),
        }],
    );
    let artifacts = expand_poly(&schema).unwrap();
    let decl = artifacts.decl.as_ref().unwrap();
    assert_eq!(decl.name, "PublicTag");
    assert_eq!(decl.vis, Visibility::Public);
}

#[test]
fn const_generics_are_supported() {
    let schema = named_struct(
        "ZerocopyBytes",
        Visibility::Private,
        vec![scope("a"), GenericParam::ConstParam { name: "LEN".to_string() }],
        vec![],
        vec![FieldDecl {
            name: "bytes".to_string(),
            vis: Visibility::Private,
            ty: ref_str("a"),
        }],
    );
    let artifacts = expand_poly(&schema).unwrap();
    let decl = artifacts.decl.as_ref().unwrap();
    assert_eq!(decl.name, "ZerocopyBytesTag");
    // the const parameter is retained verbatim, with no erasure marker
    assert_eq!(decl.params, vec![GenericParam::ConstParam { name: "LEN".to_string() }]);
    assert_eq!(decl.markers.len(), 0);
    assert_eq!(artifacts.erase.source.params, vec!["LEN".to_string()]);
    assert_eq!(artifacts.erase.target.params, vec!["LEN".to_string()]);
}

#[test]
fn type_params_get_markers() {
    let schema = named_struct(
        "WithGenerics",
        Visibility::Private,
        vec![scope("a"), GenericParam::TypeParam { name: "T".to_string() }],
        vec![],
        vec![FieldDecl {
            name: "data".to_string(),
            vis: Visibility::Private,
            ty: ref_str("a"),
        }],
    );
    let artifacts = expand_poly(&schema).unwrap();
    let decl = artifacts.decl.as_ref().unwrap();
    assert_eq!(decl.name, "WithGenericsTag");
    assert_eq!(decl.params, vec![GenericParam::TypeParam { name: "T".to_string() }]);
    assert_eq!(decl.markers, vec!["T".to_string()]);
}
