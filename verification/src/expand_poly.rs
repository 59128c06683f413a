//! The naming resolver and the tag synthesizer: from a validated schema they
//! derive the type-identity artifacts. A schema without a borrow-scope
//! parameter is its own tag: erase and restore are the identity and no new
//! type is declared. A schema with one borrow-scope parameter gets a fresh
//! zero-size tag type carrying exactly the schema's non-scope parameters in
//! order, with one erasure marker per retained type parameter and none for
//! const parameters; erase drops the scope and keeps the other parameters
//! verbatim, and restore reinstates the schema at a caller-chosen scope.
//!
//! The tag type's name defaults to the schema's name with the fixed suffix
//! `Tag` appended; an explicit `name` attribute option overrides it, and is
//! legal only on borrow-scoped schemas.

use vstd::prelude::*;
use vstd::string::StringExecFns;

use crate::diagnostics::GenError;
use crate::diagnostics::SpecGenError;
use crate::diagnostics::scope_params;
use crate::diagnostics::spec_bad_attr_key;
use crate::diagnostics::spec_name_override;
use crate::diagnostics::spec_nonscope_params;
use crate::diagnostics::spec_scope_params;
use crate::diagnostics::spec_type_param_names;
use crate::diagnostics::spec_validate;
use crate::diagnostics::validate_schema;
use crate::schema::AttrOption;
use crate::schema::GenericParam;
use crate::schema::SpecAttrOption;
use crate::schema::SpecGenericParam;
use crate::schema::SpecTypeSchema;
use crate::schema::TypeSchema;
use crate::schema::Visibility;

verus! {

/// The resolved name of the tag type, and whether an attribute chose it.
#[derive(Debug, PartialEq, Eq)]
pub struct NamingDecision {
    pub tag_name: String,
    pub attribute_used: bool,
}

/// A type as the generated mappings name it: its name, whether its argument
/// list carries the borrow scope, and the names of the remaining parameters,
/// passed through verbatim in order.
#[derive(Debug, PartialEq, Eq)]
pub struct TypeInstance {
    pub name: String,
    pub takes_scope: bool,
    pub params: Vec<String>,
}

/// One directional type-level mapping between the schema and its tag.
#[derive(Debug, PartialEq, Eq)]
pub struct TagMapping {
    pub source: TypeInstance,
    pub target: TypeInstance,
}

/// The declaration of a fresh zero-size tag type: its name, the schema's
/// visibility, the retained non-scope parameters in order, and one erasure
/// marker per retained type parameter.
#[derive(Debug, PartialEq, Eq)]
pub struct TagDecl {
    pub name: String,
    pub vis: Visibility,
    pub params: Vec<GenericParam>,
    pub markers: Vec<String>,
}

/// The type-identity artifacts for one schema: the tag type declaration, if
/// one is synthesized, and the erase and restore mappings.
#[derive(Debug, PartialEq, Eq)]
pub struct TagArtifacts {
    pub decl: Option<TagDecl>,
    pub erase: TagMapping,
    pub restore: TagMapping,
}

pub ghost struct SpecNamingDecision {
    pub tag_name: Seq<char>,
    pub attribute_used: bool,
}

pub ghost struct SpecTypeInstance {
    pub name: Seq<char>,
    pub takes_scope: bool,
    pub params: Seq<Seq<char>>,
}

pub ghost struct SpecTagMapping {
    pub source: SpecTypeInstance,
    pub target: SpecTypeInstance,
}

pub ghost struct SpecTagDecl {
    pub name: Seq<char>,
    pub vis: Visibility,
    pub params: Seq<SpecGenericParam>,
    pub markers: Seq<Seq<char>>,
}

pub ghost struct SpecTagArtifacts {
    pub decl: Option<SpecTagDecl>,
    pub erase: SpecTagMapping,
    pub restore: SpecTagMapping,
}

impl View for NamingDecision {
    type V = SpecNamingDecision;

    open spec fn view(&self) -> SpecNamingDecision {
        SpecNamingDecision { tag_name: self.tag_name@, attribute_used: self.attribute_used }
    }
}

impl View for TypeInstance {
    type V = SpecTypeInstance;

    open spec fn view(&self) -> SpecTypeInstance {
        SpecTypeInstance {
            name: self.name@,
            takes_scope: self.takes_scope,
            params: self.params.deep_view(),
        }
    }
}

impl View for TagMapping {
    type V = SpecTagMapping;

    open spec fn view(&self) -> SpecTagMapping {
        SpecTagMapping { source: self.source@, target: self.target@ }
    }
}

impl View for TagDecl {
    type V = SpecTagDecl;

    open spec fn view(&self) -> SpecTagDecl {
        SpecTagDecl {
            name: self.name@,
            vis: self.vis,
            params: self.params.deep_view(),
            markers: self.markers.deep_view(),
        }
    }
}

impl View for TagArtifacts {
    type V = SpecTagArtifacts;

    open spec fn view(&self) -> SpecTagArtifacts {
        SpecTagArtifacts {
            decl: match self.decl {
                Option::Some(d) => Option::Some(d@),
                Option::None => Option::None,
            },
            erase: self.erase@,
            restore: self.restore@,
        }
    }
}

/// The name a generic parameter binds.
pub open spec fn spec_param_name(p: SpecGenericParam) -> Seq<char> {
    match p {
        SpecGenericParam::BorrowScope { name } => name,
        SpecGenericParam::TypeParam { name } => name,
        SpecGenericParam::ConstParam { name } => name,
    }
}

/// The names of the given parameters, in order.
pub open spec fn spec_param_names(gs: Seq<SpecGenericParam>) -> Seq<Seq<char>> {
    Seq::new(gs.len(), |i: int| spec_param_name(gs[i]))
}

/// The resolved tag-type name: the `name` attribute option's value when one
/// is present, and otherwise the schema's name with the suffix `Tag`.
pub open spec fn spec_tag_name(s: SpecTypeSchema) -> Seq<char> {
    match spec_name_override(s.attrs) {
        Option::Some(n) => n,
        Option::None => s.name + "Tag"@,
    }
}

/// What the naming resolver decides, before any synthesis: an unsupported
/// attribute key is an error; an explicit override is accepted exactly on
/// borrow-scoped schemas; otherwise the default suffixed name applies.
pub open spec fn spec_resolve_naming(
    name: Seq<char>,
    attrs: Seq<SpecAttrOption>,
    has_scope: bool,
) -> Result<SpecNamingDecision, SpecGenError> {
    if spec_bad_attr_key(attrs) is Some {
        Result::Err(SpecGenError::UnsupportedAttrKey { key: spec_bad_attr_key(attrs)->Some_0 })
    } else {
        match spec_name_override(attrs) {
            Option::Some(n) => if has_scope {
                Result::Ok(SpecNamingDecision { tag_name: n, attribute_used: true })
            } else {
                Result::Err(SpecGenError::NameOverrideOnScopeless)
            },
            Option::None => Result::Ok(
                SpecNamingDecision { tag_name: name + "Tag"@, attribute_used: false },
            ),
        }
    }
}

/// What the tag synthesizer produces for a schema.
pub open spec fn spec_expand_poly(s: SpecTypeSchema) -> Result<SpecTagArtifacts, SpecGenError> {
    match spec_validate(s) {
        Result::Err(e) => Result::Err(e),
        Result::Ok(u) => {
            let scopes = spec_scope_params(s.generics);
            let retained = spec_nonscope_params(s.generics);
            let pnames = spec_param_names(retained);
            if scopes.len() == 0 {
                let inst = SpecTypeInstance {
                    name: s.name,
                    takes_scope: false,
                    params: pnames,
                };
                Result::Ok(
                    SpecTagArtifacts {
                        decl: Option::None,
                        erase: SpecTagMapping { source: inst, target: inst },
                        restore: SpecTagMapping { source: inst, target: inst },
                    },
                )
            } else {
                let tn = spec_tag_name(s);
                let schema_inst = SpecTypeInstance {
                    name: s.name,
                    takes_scope: true,
                    params: pnames,
                };
                let tag_inst = SpecTypeInstance {
                    name: tn,
                    takes_scope: false,
                    params: pnames,
                };
                Result::Ok(
                    SpecTagArtifacts {
                        decl: Option::Some(
                            SpecTagDecl {
                                name: tn,
                                vis: s.vis,
                                params: retained,
                                markers: spec_type_param_names(s.generics),
                            },
                        ),
                        erase: SpecTagMapping { source: schema_inst, target: tag_inst },
                        restore: SpecTagMapping { source: tag_inst, target: schema_inst },
                    },
                )
            }
        },
    }
}

/// The view of a naming result, for stating contracts.
pub open spec fn view_naming_result(r: Result<NamingDecision, GenError>) -> Result<
    SpecNamingDecision,
    SpecGenError,
> {
    match r {
        Result::Ok(d) => Result::Ok(d@),
        Result::Err(e) => Result::Err(e@),
    }
}

/// The view of a synthesis result, for stating contracts.
pub open spec fn view_tag_result(r: Result<TagArtifacts, GenError>) -> Result<
    SpecTagArtifacts,
    SpecGenError,
> {
    match r {
        Result::Ok(a) => Result::Ok(a@),
        Result::Err(e) => Result::Err(e@),
    }
}

/// Resolve the tag type's name for a schema called `name` with the given
/// attribute options; `has_scope` says whether the schema carries a
/// borrow-scope parameter.
pub fn resolve_tag_name(name: &String, attrs: &Vec<AttrOption>, has_scope: bool) -> (r: Result<
    NamingDecision,
    GenError,
>)
    ensures
        view_naming_result(r) == spec_resolve_naming(name@, attrs.deep_view(), has_scope),
{
    let (over, bad) = crate::diagnostics::scan_attrs(attrs);
    if let Option::Some(key) = bad {
        return Result::Err(GenError::UnsupportedAttrKey { key });
    }
    match over {
        Option::Some(n) => {
            if has_scope {
                Result::Ok(NamingDecision { tag_name: n, attribute_used: true })
            } else {
                Result::Err(GenError::NameOverrideOnScopeless)
            }
        },
        Option::None => {
            let tag_name = name.clone().concat("Tag");
            Result::Ok(NamingDecision { tag_name, attribute_used: false })
        },
    }
}

/// A fresh copy of one generic parameter.
fn copy_param(p: &GenericParam) -> (r: GenericParam)
    ensures
        r@ == p@,
{
    match p {
        GenericParam::BorrowScope { name } => GenericParam::BorrowScope { name: name.clone() },
        GenericParam::TypeParam { name } => GenericParam::TypeParam { name: name.clone() },
        GenericParam::ConstParam { name } => GenericParam::ConstParam { name: name.clone() },
    }
}

/// The non-scope parameters of `generics`, in order.
fn nonscope_params(generics: &Vec<GenericParam>) -> (r: Vec<GenericParam>)
    ensures
        r.deep_view() == spec_nonscope_params(generics.deep_view()),
{
    let mut r: Vec<GenericParam> = Vec::new();
    let mut i: usize = 0;
    proof {
        assert(generics.deep_view().subrange(0, 0) =~= Seq::<SpecGenericParam>::empty());
        assert(r.deep_view() =~= Seq::<SpecGenericParam>::empty());
    }
    while i < generics.len()
        invariant
            0 <= i <= generics.len(),
            generics.deep_view().len() == generics@.len(),
            forall|j: int| 0 <= j < generics@.len() ==> generics.deep_view()[j]
                == generics@[j]@,
            r.deep_view() == spec_nonscope_params(generics.deep_view().subrange(0, i as int)),
        decreases generics.len() - i,
    {
        let ghost prefix = generics.deep_view().subrange(0, i as int);
        match &generics[i] {
            GenericParam::BorrowScope { name } => {},
            _ => {
                let ghost prevv = r@;
                let ghost prevd = r.deep_view();
                let p = copy_param(&generics[i]);
                let ghost pv = p@;
                r.push(p);
                proof {
                    assert forall|j: int| 0 <= j < r@.len() implies r.deep_view()[j]
                        == prevd.push(pv)[j] by {
                        if j < prevv.len() {
                            assert(r@[j] == prevv[j]);
                        } else {
                            assert(r@[j]@ == pv);
                        }
                    }
                    assert(r.deep_view() =~= prevd.push(pv));
                }
            },
        }
        proof {
            let longer = generics.deep_view().subrange(0, i + 1);
            assert(longer.drop_last() =~= prefix);
            assert(longer.last() == generics.deep_view()[i as int]);
        }
        i = i + 1;
    }
    proof {
        assert(generics.deep_view().subrange(0, generics@.len() as int)
            =~= generics.deep_view());
    }
    r
}

/// The names of the type parameters of `generics`, in order.
fn type_param_names(generics: &Vec<GenericParam>) -> (r: Vec<String>)
    ensures
        r.deep_view() == spec_type_param_names(generics.deep_view()),
{
    let mut r: Vec<String> = Vec::new();
    let mut i: usize = 0;
    proof {
        assert(generics.deep_view().subrange(0, 0) =~= Seq::<SpecGenericParam>::empty());
        assert(r.deep_view() =~= Seq::<Seq<char>>::empty());
    }
    while i < generics.len()
        invariant
            0 <= i <= generics.len(),
            generics.deep_view().len() == generics@.len(),
            forall|j: int| 0 <= j < generics@.len() ==> generics.deep_view()[j]
                == generics@[j]@,
            r.deep_view() == spec_type_param_names(
                generics.deep_view().subrange(0, i as int),
            ),
        decreases generics.len() - i,
    {
        let ghost prefix = generics.deep_view().subrange(0, i as int);
        match &generics[i] {
            GenericParam::TypeParam { name } => {
                r.push(name.clone());
            },
            _ => {},
        }
        proof {
            let longer = generics.deep_view().subrange(0, i + 1);
            assert(longer.drop_last() =~= prefix);
            assert(longer.last() == generics.deep_view()[i as int]);
        }
        i = i + 1;
    }
    proof {
        assert(generics.deep_view().subrange(0, generics@.len() as int)
            =~= generics.deep_view());
    }
    r
}

/// The names of the given parameters, in order.
fn param_names(params: &Vec<GenericParam>) -> (r: Vec<String>)
    ensures
        r.deep_view() == spec_param_names(params.deep_view()),
{
    let ghost target = spec_param_names(params.deep_view());
    let mut r: Vec<String> = Vec::new();
    let mut i: usize = 0;
    proof {
        assert(r.deep_view() =~= target.subrange(0, 0));
    }
    while i < params.len()
        invariant
            0 <= i <= params.len(),
            target == spec_param_names(params.deep_view()),
            params.deep_view().len() == params@.len(),
            forall|j: int| 0 <= j < params@.len() ==> params.deep_view()[j] == params@[j]@,
            r.deep_view() == target.subrange(0, i as int),
        decreases params.len() - i,
    {
        let name = match &params[i] {
            GenericParam::BorrowScope { name } => name.clone(),
            GenericParam::TypeParam { name } => name.clone(),
            GenericParam::ConstParam { name } => name.clone(),
        };
        let ghost nv = name@;
        let ghost prevv = r@;
        let ghost prevd = r.deep_view();
        r.push(name);
        proof {
            assert forall|j: int| 0 <= j < r@.len() implies r.deep_view()[j] == prevd.push(
                nv,
            )[j] by {
                if j < prevv.len() {
                    assert(r@[j] == prevv[j]);
                } else {
                    assert(r@[j]@ == nv);
                }
            }
            assert(r.deep_view() =~= prevd.push(nv));
            assert(nv == target[i as int]);
            assert(target.subrange(0, i + 1) =~= prevd.push(nv));
        }
        i = i + 1;
    }
    proof {
        assert(target.subrange(0, params@.len() as int) =~= target);
    }
    r
}

/// Derive the type-identity artifacts for one schema: validate it, resolve
/// the tag type's name, and produce the tag declaration together with the
/// erase and restore mappings; for a scope-less schema both mappings are the
/// identity on the schema itself and no tag type is declared.
pub fn expand_poly(schema: &TypeSchema) -> (r: Result<TagArtifacts, GenError>)
    ensures
        view_tag_result(r) == spec_expand_poly(schema@),
{
    match validate_schema(schema) {
        Result::Err(e) => {
            return Result::Err(e);
        },
        Result::Ok(u) => {},
    }
    let scopes = scope_params(&schema.generics);
    let retained = nonscope_params(&schema.generics);
    let pnames = param_names(&retained);
    if scopes.len() == 0 {
        let source = TypeInstance {
            name: schema.name.clone(),
            takes_scope: false,
            params: clone_names(&pnames),
        };
        let target = TypeInstance {
            name: schema.name.clone(),
            takes_scope: false,
            params: clone_names(&pnames),
        };
        let restore_source = TypeInstance {
            name: schema.name.clone(),
            takes_scope: false,
            params: clone_names(&pnames),
        };
        let restore_target = TypeInstance {
            name: schema.name.clone(),
            takes_scope: false,
            params: pnames,
        };
        return Result::Ok(
            TagArtifacts {
                decl: Option::None,
                erase: TagMapping { source, target },
                restore: TagMapping { source: restore_source, target: restore_target },
            },
        );
    }
    let naming = resolve_tag_name(&schema.name, &schema.attrs, true);
    let tag_name = match naming {
        Result::Ok(d) => d.tag_name,
        Result::Err(e) => {
            proof {
                assert(false);
            }
            return Result::Err(e);
        },
    };
    let markers = type_param_names(&schema.generics);
    let decl = TagDecl {
        name: tag_name.clone(),
        vis: schema.vis,
        params: retained,
        markers,
    };
    let erase = TagMapping {
        source: TypeInstance {
            name: schema.name.clone(),
            takes_scope: true,
            params: clone_names(&pnames),
        },
        target: TypeInstance {
            name: tag_name.clone(),
            takes_scope: false,
            params: clone_names(&pnames),
        },
    };
    let restore = TagMapping {
        source: TypeInstance {
            name: tag_name,
            takes_scope: false,
            params: clone_names(&pnames),
        },
        target: TypeInstance { name: schema.name.clone(), takes_scope: true, params: pnames },
    };
    Result::Ok(TagArtifacts { decl: Option::Some(decl), erase, restore })
}

/// A fresh copy of a list of names.
fn clone_names(names: &Vec<String>) -> (r: Vec<String>)
    ensures
        r.deep_view() == names.deep_view(),
{
    let mut r: Vec<String> = Vec::new();
    let mut i: usize = 0;
    proof {
        assert(r.deep_view() =~= names.deep_view().subrange(0, 0));
    }
    while i < names.len()
        invariant
            0 <= i <= names.len(),
            names.deep_view().len() == names@.len(),
            forall|j: int| 0 <= j < names@.len() ==> names.deep_view()[j] == names@[j]@,
            r.deep_view() == names.deep_view().subrange(0, i as int),
        decreases names.len() - i,
    {
        let name = names[i].clone();
        let ghost nv = name@;
        let ghost prevv = r@;
        let ghost prevd = r.deep_view();
        r.push(name);
        proof {
            assert forall|j: int| 0 <= j < r@.len() implies r.deep_view()[j] == prevd.push(
                nv,
            )[j] by {
                if j < prevv.len() {
                    assert(r@[j] == prevv[j]);
                } else {
                    assert(r@[j]@ == nv);
                }
            }
            assert(r.deep_view() =~= prevd.push(nv));
            assert(names.deep_view().subrange(0, i + 1) =~= prevd.push(nv));
        }
        i = i + 1;
    }
    proof {
        assert(names.deep_view().subrange(0, names@.len() as int) =~= names.deep_view());
    }
    r
}

} // verus!
