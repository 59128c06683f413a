//! The structural description of a type declaration that the generator
//! consumes: its kind (struct or enum), its generic parameter list, the shape
//! of its fields or variants, and the per-type attribute options.
//!
//! Each executable datatype has a mathematical mirror (the `Spec*` types,
//! reached through `View`) over which the generator's contracts are stated.
//! Identifiers are modelled as their character sequences.
//!
//! A type expression is kept only as far as the borrow analysis reads it:
//! reference types carry their borrow-scope annotation, path types carry
//! their argument lists, and the grouping forms carry their element types.
//! Function-shaped argument lists (inputs and output of an `Fn(..) -> ..`
//! path) are carried as plain type arguments, since the analysis inspects
//! them exactly like angle-bracketed type arguments.

use vstd::prelude::*;

verus! {

/// Whether a declaration or a field is visible outside its module.
#[derive(Clone, Copy, PartialEq, Eq, Structural, Debug)]
pub enum Visibility {
    Public,
    Private,
}

/// One parameter of a declaration's generic parameter list.
#[derive(Debug, PartialEq, Eq)]
pub enum GenericParam {
    /// A borrow-scope (region) parameter.
    BorrowScope { name: String },
    /// An ordinary type parameter.
    TypeParam { name: String },
    /// A const parameter.
    ConstParam { name: String },
}

/// One argument inside a path segment's argument list.
#[derive(Debug, PartialEq, Eq)]
pub enum GenericArg {
    /// A borrow-scope argument, e.g. the region of `Cow<'a, str>`.
    ScopeArg { name: String },
    /// A type argument.
    TypeArg { ty: TypeExpr },
    /// The type of an associated-type binding, e.g. `Item = T`.
    AssocTypeArg { ty: TypeExpr },
    /// A constraint argument; only its region bounds matter here.
    ScopeConstraint { scopes: Vec<String> },
    /// Any other argument (for instance a const expression).
    OtherArg,
}

/// One segment of a path type, with its argument list.
#[derive(Debug, PartialEq, Eq)]
pub struct PathSegment {
    pub name: String,
    pub args: Vec<GenericArg>,
}

/// A type expression, as far as the borrow analysis reads it.
#[derive(Debug, PartialEq, Eq)]
pub enum TypeExpr {
    /// A reference type with an optional borrow-scope annotation.
    Reference { scope: Option<String>, elem: Box<TypeExpr> },
    /// A (possibly generic) named type.
    Path { segments: Vec<PathSegment> },
    /// A tuple type.
    Tuple { elems: Vec<TypeExpr> },
    /// An array type (its length does not matter here).
    Array { elem: Box<TypeExpr> },
    /// A raw-pointer type.
    RawPtr { elem: Box<TypeExpr> },
    /// A slice type.
    Slice { elem: Box<TypeExpr> },
    /// A parenthesized type.
    Paren { elem: Box<TypeExpr> },
    /// A grouped (invisibly delimited) type.
    Group { elem: Box<TypeExpr> },
    /// Anything else; never borrow-scope dependent.
    Opaque,
}

/// A named field of a struct or of a named-field variant.
#[derive(Debug, PartialEq, Eq)]
pub struct FieldDecl {
    pub name: String,
    pub vis: Visibility,
    pub ty: TypeExpr,
}

/// A positional field of a tuple struct or of a tuple variant.
#[derive(Debug, PartialEq, Eq)]
pub struct TupleFieldDecl {
    pub vis: Visibility,
    pub ty: TypeExpr,
}

/// The shape of a struct's or a variant's fields. Field order is
/// semantically significant and is preserved through generation.
#[derive(Debug, PartialEq, Eq)]
pub enum FieldsShape {
    Named { fields: Vec<FieldDecl> },
    Unnamed { fields: Vec<TupleFieldDecl> },
    Unit,
}

/// One variant of an enum declaration.
#[derive(Debug, PartialEq, Eq)]
pub struct VariantSpec {
    pub name: String,
    pub fields: FieldsShape,
}

/// The body of a declaration. Unions are representable so that the
/// generator can reject them with a precise diagnostic.
#[derive(Debug, PartialEq, Eq)]
pub enum TypeShape {
    Struct { fields: FieldsShape },
    Enum { variants: Vec<VariantSpec> },
    Union,
}

/// One `key = "value"` option from the per-type attribute.
#[derive(Debug, PartialEq, Eq)]
pub struct AttrOption {
    pub key: String,
    pub value: String,
}

/// A normalized type declaration: everything the generator reads.
#[derive(Debug, PartialEq, Eq)]
pub struct TypeSchema {
    pub name: String,
    pub vis: Visibility,
    pub generics: Vec<GenericParam>,
    pub shape: TypeShape,
    pub attrs: Vec<AttrOption>,
}

// ---------------------------------------------------------------------------
// Mathematical mirrors.
// ---------------------------------------------------------------------------

pub ghost enum SpecGenericParam {
    BorrowScope { name: Seq<char> },
    TypeParam { name: Seq<char> },
    ConstParam { name: Seq<char> },
}

pub ghost enum SpecGenericArg {
    ScopeArg { name: Seq<char> },
    TypeArg { ty: SpecTypeExpr },
    AssocTypeArg { ty: SpecTypeExpr },
    ScopeConstraint { scopes: Seq<Seq<char>> },
    OtherArg,
}

pub ghost struct SpecPathSegment {
    pub name: Seq<char>,
    pub args: Seq<SpecGenericArg>,
}

pub ghost enum SpecTypeExpr {
    Reference { scope: Option<Seq<char>>, elem: Box<SpecTypeExpr> },
    Path { segments: Seq<SpecPathSegment> },
    Tuple { elems: Seq<SpecTypeExpr> },
    Array { elem: Box<SpecTypeExpr> },
    RawPtr { elem: Box<SpecTypeExpr> },
    Slice { elem: Box<SpecTypeExpr> },
    Paren { elem: Box<SpecTypeExpr> },
    Group { elem: Box<SpecTypeExpr> },
    Opaque,
}

pub ghost struct SpecFieldDecl {
    pub name: Seq<char>,
    pub vis: Visibility,
    pub ty: SpecTypeExpr,
}

pub ghost struct SpecTupleFieldDecl {
    pub vis: Visibility,
    pub ty: SpecTypeExpr,
}

pub ghost enum SpecFieldsShape {
    Named { fields: Seq<SpecFieldDecl> },
    Unnamed { fields: Seq<SpecTupleFieldDecl> },
    Unit,
}

pub ghost struct SpecVariantSpec {
    pub name: Seq<char>,
    pub fields: SpecFieldsShape,
}

pub ghost enum SpecTypeShape {
    Struct { fields: SpecFieldsShape },
    Enum { variants: Seq<SpecVariantSpec> },
    Union,
}

pub ghost struct SpecAttrOption {
    pub key: Seq<char>,
    pub value: Seq<char>,
}

pub ghost struct SpecTypeSchema {
    pub name: Seq<char>,
    pub vis: Visibility,
    pub generics: Seq<SpecGenericParam>,
    pub shape: SpecTypeShape,
    pub attrs: Seq<SpecAttrOption>,
}

// ---------------------------------------------------------------------------
// Views from the executable datatypes to their mirrors.
// ---------------------------------------------------------------------------

pub open spec fn view_generic_param(p: GenericParam) -> SpecGenericParam {
    match p {
        GenericParam::BorrowScope { name } => SpecGenericParam::BorrowScope { name: name@ },
        GenericParam::TypeParam { name } => SpecGenericParam::TypeParam { name: name@ },
        GenericParam::ConstParam { name } => SpecGenericParam::ConstParam { name: name@ },
    }
}

pub open spec fn view_type_expr(ty: TypeExpr) -> SpecTypeExpr
    decreases ty,
{
    match ty {
        TypeExpr::Reference { scope, elem } => SpecTypeExpr::Reference {
            scope: match scope {
                Option::Some(s) => Option::Some(s@),
                Option::None => Option::None,
            },
            elem: Box::new(view_type_expr(*elem)),
        },
        TypeExpr::Path { segments } => SpecTypeExpr::Path {
            segments: view_segments(segments@),
        },
        TypeExpr::Tuple { elems } => SpecTypeExpr::Tuple { elems: view_type_exprs(elems@) },
        TypeExpr::Array { elem } => SpecTypeExpr::Array { elem: Box::new(view_type_expr(*elem)) },
        TypeExpr::RawPtr { elem } => SpecTypeExpr::RawPtr { elem: Box::new(view_type_expr(*elem)) },
        TypeExpr::Slice { elem } => SpecTypeExpr::Slice { elem: Box::new(view_type_expr(*elem)) },
        TypeExpr::Paren { elem } => SpecTypeExpr::Paren { elem: Box::new(view_type_expr(*elem)) },
        TypeExpr::Group { elem } => SpecTypeExpr::Group { elem: Box::new(view_type_expr(*elem)) },
        TypeExpr::Opaque => SpecTypeExpr::Opaque,
    }
}

pub open spec fn view_type_exprs(tys: Seq<TypeExpr>) -> Seq<SpecTypeExpr>
    decreases tys,
{
    if tys.len() == 0 {
        Seq::empty()
    } else {
        view_type_exprs(tys.drop_last()).push(view_type_expr(tys.last()))
    }
}

pub open spec fn view_segments(segs: Seq<PathSegment>) -> Seq<SpecPathSegment>
    decreases segs,
{
    if segs.len() == 0 {
        Seq::empty()
    } else {
        view_segments(segs.drop_last()).push(view_segment(segs.last()))
    }
}

pub open spec fn view_segment(seg: PathSegment) -> SpecPathSegment
    decreases seg,
{
    SpecPathSegment { name: seg.name@, args: view_generic_args(seg.args@) }
}

pub open spec fn view_generic_args(args: Seq<GenericArg>) -> Seq<SpecGenericArg>
    decreases args,
{
    if args.len() == 0 {
        Seq::empty()
    } else {
        view_generic_args(args.drop_last()).push(view_generic_arg(args.last()))
    }
}

pub open spec fn view_generic_arg(arg: GenericArg) -> SpecGenericArg
    decreases arg,
{
    match arg {
        GenericArg::ScopeArg { name } => SpecGenericArg::ScopeArg { name: name@ },
        GenericArg::TypeArg { ty } => SpecGenericArg::TypeArg { ty: view_type_expr(ty) },
        GenericArg::AssocTypeArg { ty } => SpecGenericArg::AssocTypeArg { ty: view_type_expr(ty) },
        GenericArg::ScopeConstraint { scopes } => SpecGenericArg::ScopeConstraint {
            scopes: scopes.deep_view(),
        },
        GenericArg::OtherArg => SpecGenericArg::OtherArg,
    }
}

impl View for GenericParam {
    type V = SpecGenericParam;

    open spec fn view(&self) -> SpecGenericParam {
        view_generic_param(*self)
    }
}

impl View for TypeExpr {
    type V = SpecTypeExpr;

    open spec fn view(&self) -> SpecTypeExpr {
        view_type_expr(*self)
    }
}

impl View for PathSegment {
    type V = SpecPathSegment;

    open spec fn view(&self) -> SpecPathSegment {
        view_segment(*self)
    }
}

impl View for GenericArg {
    type V = SpecGenericArg;

    open spec fn view(&self) -> SpecGenericArg {
        view_generic_arg(*self)
    }
}

impl View for FieldDecl {
    type V = SpecFieldDecl;

    open spec fn view(&self) -> SpecFieldDecl {
        SpecFieldDecl { name: self.name@, vis: self.vis, ty: self.ty@ }
    }
}

impl View for TupleFieldDecl {
    type V = SpecTupleFieldDecl;

    open spec fn view(&self) -> SpecTupleFieldDecl {
        SpecTupleFieldDecl { vis: self.vis, ty: self.ty@ }
    }
}

impl View for FieldsShape {
    type V = SpecFieldsShape;

    open spec fn view(&self) -> SpecFieldsShape {
        match *self {
            FieldsShape::Named { fields } => SpecFieldsShape::Named {
                fields: fields.deep_view(),
            },
            FieldsShape::Unnamed { fields } => SpecFieldsShape::Unnamed {
                fields: fields.deep_view(),
            },
            FieldsShape::Unit => SpecFieldsShape::Unit,
        }
    }
}

impl View for VariantSpec {
    type V = SpecVariantSpec;

    open spec fn view(&self) -> SpecVariantSpec {
        SpecVariantSpec { name: self.name@, fields: self.fields@ }
    }
}

impl View for TypeShape {
    type V = SpecTypeShape;

    open spec fn view(&self) -> SpecTypeShape {
        match *self {
            TypeShape::Struct { fields } => SpecTypeShape::Struct { fields: fields@ },
            TypeShape::Enum { variants } => SpecTypeShape::Enum { variants: variants.deep_view() },
            TypeShape::Union => SpecTypeShape::Union,
        }
    }
}

impl View for AttrOption {
    type V = SpecAttrOption;

    open spec fn view(&self) -> SpecAttrOption {
        SpecAttrOption { key: self.key@, value: self.value@ }
    }
}

impl View for TypeSchema {
    type V = SpecTypeSchema;

    open spec fn view(&self) -> SpecTypeSchema {
        SpecTypeSchema {
            name: self.name@,
            vis: self.vis,
            generics: self.generics.deep_view(),
            shape: self.shape@,
            attrs: self.attrs.deep_view(),
        }
    }
}

impl DeepView for GenericParam {
    type V = SpecGenericParam;

    open spec fn deep_view(&self) -> SpecGenericParam {
        self.view()
    }
}

impl DeepView for FieldDecl {
    type V = SpecFieldDecl;

    open spec fn deep_view(&self) -> SpecFieldDecl {
        self.view()
    }
}

impl DeepView for TupleFieldDecl {
    type V = SpecTupleFieldDecl;

    open spec fn deep_view(&self) -> SpecTupleFieldDecl {
        self.view()
    }
}

impl DeepView for VariantSpec {
    type V = SpecVariantSpec;

    open spec fn deep_view(&self) -> SpecVariantSpec {
        self.view()
    }
}

impl DeepView for AttrOption {
    type V = SpecAttrOption;

    open spec fn deep_view(&self) -> SpecAttrOption {
        self.view()
    }
}

} // verus!
