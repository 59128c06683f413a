//! The ownership-transform synthesizer: from a validated schema it derives
//! the plan of the recursive into-owned conversion. A schema without a
//! borrow-scope parameter gets the identity plan. A schema with one scope
//! parameter gets a per-field plan: exactly the fields whose type depends on
//! the scope are marked for recursive conversion, in declaration order, and
//! every other field is passed through unchanged. For enums the plan keeps
//! one entry per variant, preserving the variant's name and field order.

use vstd::prelude::*;

use crate::analysis::depends_on_scope;
use crate::analysis::spec_type_depends;
use crate::diagnostics::GenError;
use crate::diagnostics::SpecGenError;
use crate::diagnostics::scope_params;
use crate::diagnostics::spec_scope_params;
use crate::diagnostics::spec_validate;
use crate::diagnostics::validate_schema;
use crate::schema::FieldsShape;
use crate::schema::SpecFieldDecl;
use crate::schema::SpecFieldsShape;
use crate::schema::SpecTupleFieldDecl;
use crate::schema::SpecTypeSchema;
use crate::schema::SpecTypeShape;
use crate::schema::SpecVariantSpec;
use crate::schema::TypeSchema;
use crate::schema::TypeShape;
use crate::schema::VariantSpec;

verus! {

/// The plan for one named field: keep its name, and either convert the
/// field's value recursively or pass it through unchanged.
#[derive(Debug, PartialEq, Eq)]
pub struct NamedFieldPlan {
    pub name: String,
    pub convert: bool,
}

/// The per-field plan for one fields shape. Positional fields are planned by
/// index, in declaration order.
#[derive(Debug, PartialEq, Eq)]
pub enum FieldsPlan {
    Named { fields: Vec<NamedFieldPlan> },
    Unnamed { converts: Vec<bool> },
    Unit,
}

/// The plan for one enum variant: the reconstructed variant keeps its name.
#[derive(Debug, PartialEq, Eq)]
pub struct VariantPlan {
    pub name: String,
    pub fields: FieldsPlan,
}

/// The ownership-conversion plan for a whole schema.
#[derive(Debug, PartialEq, Eq)]
pub enum OwnablePlan {
    /// No borrow-scope parameter: the conversion returns its input unchanged.
    Identity,
    /// A struct is reassembled field by field.
    Struct { fields: FieldsPlan },
    /// An enum is dispatched on its active variant.
    Enum { variants: Vec<VariantPlan> },
}

pub ghost struct SpecNamedFieldPlan {
    pub name: Seq<char>,
    pub convert: bool,
}

pub ghost enum SpecFieldsPlan {
    Named { fields: Seq<SpecNamedFieldPlan> },
    Unnamed { converts: Seq<bool> },
    Unit,
}

pub ghost struct SpecVariantPlan {
    pub name: Seq<char>,
    pub fields: SpecFieldsPlan,
}

pub ghost enum SpecOwnablePlan {
    Identity,
    Struct { fields: SpecFieldsPlan },
    Enum { variants: Seq<SpecVariantPlan> },
}

impl View for NamedFieldPlan {
    type V = SpecNamedFieldPlan;

    open spec fn view(&self) -> SpecNamedFieldPlan {
        SpecNamedFieldPlan { name: self.name@, convert: self.convert }
    }
}

impl DeepView for NamedFieldPlan {
    type V = SpecNamedFieldPlan;

    open spec fn deep_view(&self) -> SpecNamedFieldPlan {
        self.view()
    }
}

impl View for FieldsPlan {
    type V = SpecFieldsPlan;

    open spec fn view(&self) -> SpecFieldsPlan {
        match *self {
            FieldsPlan::Named { fields } => SpecFieldsPlan::Named {
                fields: fields.deep_view(),
            },
            FieldsPlan::Unnamed { converts } => SpecFieldsPlan::Unnamed {
                converts: converts@,
            },
            FieldsPlan::Unit => SpecFieldsPlan::Unit,
        }
    }
}

impl View for VariantPlan {
    type V = SpecVariantPlan;

    open spec fn view(&self) -> SpecVariantPlan {
        SpecVariantPlan { name: self.name@, fields: self.fields@ }
    }
}

impl DeepView for VariantPlan {
    type V = SpecVariantPlan;

    open spec fn deep_view(&self) -> SpecVariantPlan {
        self.view()
    }
}

impl View for OwnablePlan {
    type V = SpecOwnablePlan;

    open spec fn view(&self) -> SpecOwnablePlan {
        match *self {
            OwnablePlan::Identity => SpecOwnablePlan::Identity,
            OwnablePlan::Struct { fields } => SpecOwnablePlan::Struct { fields: fields@ },
            OwnablePlan::Enum { variants } => SpecOwnablePlan::Enum {
                variants: variants.deep_view(),
            },
        }
    }
}

/// The plan derived for a list of named fields: names kept in order, each
/// field marked exactly when its type depends on one of the scopes.
pub open spec fn spec_plan_named(fs: Seq<SpecFieldDecl>, scopes: Seq<Seq<char>>) -> Seq<
    SpecNamedFieldPlan,
> {
    Seq::new(
        fs.len(),
        |i: int|
            SpecNamedFieldPlan {
                name: fs[i].name,
                convert: spec_type_depends(fs[i].ty, scopes),
            },
    )
}

/// The plan derived for a list of positional fields, by index.
pub open spec fn spec_plan_unnamed(fs: Seq<SpecTupleFieldDecl>, scopes: Seq<Seq<char>>) -> Seq<
    bool,
> {
    Seq::new(fs.len(), |i: int| spec_type_depends(fs[i].ty, scopes))
}

/// The plan derived for one fields shape.
pub open spec fn spec_plan_fields(fs: SpecFieldsShape, scopes: Seq<Seq<char>>) -> SpecFieldsPlan {
    match fs {
        SpecFieldsShape::Named { fields } => SpecFieldsPlan::Named {
            fields: spec_plan_named(fields, scopes),
        },
        SpecFieldsShape::Unnamed { fields } => SpecFieldsPlan::Unnamed {
            converts: spec_plan_unnamed(fields, scopes),
        },
        SpecFieldsShape::Unit => SpecFieldsPlan::Unit,
    }
}

/// The plan derived for an enum's variant list, preserving variant order.
pub open spec fn spec_plan_variants(vs: Seq<SpecVariantSpec>, scopes: Seq<Seq<char>>) -> Seq<
    SpecVariantPlan,
> {
    Seq::new(
        vs.len(),
        |i: int|
            SpecVariantPlan { name: vs[i].name, fields: spec_plan_fields(vs[i].fields, scopes) },
    )
}

/// What the ownership-transform synthesizer produces for a schema: the
/// validation verdict, and on success either the identity plan (no scope
/// parameter) or the per-field plan against the schema's scope parameter.
pub open spec fn spec_expand_ownable(s: SpecTypeSchema) -> Result<SpecOwnablePlan, SpecGenError> {
    match spec_validate(s) {
        Result::Err(e) => Result::Err(e),
        Result::Ok(u) => {
            let scopes = spec_scope_params(s.generics);
            if scopes.len() == 0 {
                Result::Ok(SpecOwnablePlan::Identity)
            } else {
                match s.shape {
                    SpecTypeShape::Struct { fields } => Result::Ok(
                        SpecOwnablePlan::Struct { fields: spec_plan_fields(fields, scopes) },
                    ),
                    SpecTypeShape::Enum { variants } => Result::Ok(
                        SpecOwnablePlan::Enum { variants: spec_plan_variants(variants, scopes) },
                    ),
                    // validation has already rejected unions; this arm is vacuous
                    SpecTypeShape::Union => Result::Ok(SpecOwnablePlan::Identity),
                }
            }
        },
    }
}

/// The view of a synthesis result, for stating contracts.
pub open spec fn view_plan_result(r: Result<OwnablePlan, GenError>) -> Result<
    SpecOwnablePlan,
    SpecGenError,
> {
    match r {
        Result::Ok(p) => Result::Ok(p@),
        Result::Err(e) => Result::Err(e@),
    }
}

/// Derive the per-field plan for one fields shape.
fn generate_field_transformations(fs: &FieldsShape, scopes: &Vec<String>) -> (r: FieldsPlan)
    ensures
        r@ == spec_plan_fields(fs@, scopes.deep_view()),
{
    match fs {
        FieldsShape::Named { fields } => {
            let ghost target = spec_plan_named(fields.deep_view(), scopes.deep_view());
            let mut plans: Vec<NamedFieldPlan> = Vec::new();
            let mut i: usize = 0;
            proof {
                assert(plans.deep_view() =~= target.subrange(0, 0));
            }
            while i < fields.len()
                invariant
                    0 <= i <= fields.len(),
                    target == spec_plan_named(fields.deep_view(), scopes.deep_view()),
                    fields.deep_view().len() == fields@.len(),
                    forall|j: int| 0 <= j < fields@.len() ==> fields.deep_view()[j]
                        == fields@[j]@,
                    plans.deep_view() == target.subrange(0, i as int),
                decreases fields.len() - i,
            {
                let convert = depends_on_scope(&fields[i].ty, scopes);
                let name = fields[i].name.clone();
                let ghost expected = SpecNamedFieldPlan { name: name@, convert };
                let ghost prevv = plans@;
                let ghost prevd = plans.deep_view();
                plans.push(NamedFieldPlan { name, convert });
                proof {
                    assert forall|j: int| 0 <= j < plans@.len() implies plans.deep_view()[j]
                        == prevd.push(expected)[j] by {
                        if j < prevv.len() {
                            assert(plans@[j] == prevv[j]);
                        } else {
                            assert(plans@[j]@ == expected);
                        }
                    }
                    assert(plans.deep_view() =~= prevd.push(expected));
                    assert(expected == target[i as int]);
                    assert(target.subrange(0, i + 1) =~= prevd.push(expected));
                }
                i = i + 1;
            }
            proof {
                assert(target.subrange(0, fields@.len() as int) =~= target);
            }
            FieldsPlan::Named { fields: plans }
        },
        FieldsShape::Unnamed { fields } => {
            let mut converts: Vec<bool> = Vec::new();
            let mut i: usize = 0;
            while i < fields.len()
                invariant
                    0 <= i <= fields.len(),
                    fields.deep_view().len() == fields@.len(),
                    forall|j: int| 0 <= j < fields@.len() ==> fields.deep_view()[j]
                        == fields@[j]@,
                    converts@.len() == i,
                    forall|j: int| 0 <= j < i ==> converts@[j] == spec_plan_unnamed(
                        fields.deep_view(),
                        scopes.deep_view(),
                    )[j],
                decreases fields.len() - i,
            {
                let convert = depends_on_scope(&fields[i].ty, scopes);
                converts.push(convert);
                i = i + 1;
            }
            proof {
                assert(converts@ =~= spec_plan_unnamed(fields.deep_view(), scopes.deep_view()));
            }
            FieldsPlan::Unnamed { converts }
        },
        FieldsShape::Unit => FieldsPlan::Unit,
    }
}

/// Derive the per-variant plan for an enum's variant list.
fn generate_enum_transformation(variants: &Vec<VariantSpec>, scopes: &Vec<String>) -> (r: Vec<
    VariantPlan,
>)
    ensures
        r.deep_view() == spec_plan_variants(variants.deep_view(), scopes.deep_view()),
{
    let ghost target = spec_plan_variants(variants.deep_view(), scopes.deep_view());
    let mut plans: Vec<VariantPlan> = Vec::new();
    let mut i: usize = 0;
    proof {
        assert(plans.deep_view() =~= target.subrange(0, 0));
    }
    while i < variants.len()
        invariant
            0 <= i <= variants.len(),
            target == spec_plan_variants(variants.deep_view(), scopes.deep_view()),
            variants.deep_view().len() == variants@.len(),
            forall|j: int| 0 <= j < variants@.len() ==> variants.deep_view()[j]
                == variants@[j]@,
            plans.deep_view() == target.subrange(0, i as int),
        decreases variants.len() - i,
    {
        let name = variants[i].name.clone();
        let fields = generate_field_transformations(&variants[i].fields, scopes);
        let ghost expected = SpecVariantPlan { name: name@, fields: fields@ };
        let ghost prevv = plans@;
        let ghost prevd = plans.deep_view();
        plans.push(VariantPlan { name, fields });
        proof {
            assert forall|j: int| 0 <= j < plans@.len() implies plans.deep_view()[j]
                == prevd.push(expected)[j] by {
                if j < prevv.len() {
                    assert(plans@[j] == prevv[j]);
                } else {
                    assert(plans@[j]@ == expected);
                }
            }
            assert(plans.deep_view() =~= prevd.push(expected));
            assert(variants.deep_view()[i as int].fields == variants@[i as int].fields@);
            assert(expected == target[i as int]);
            assert(target.subrange(0, i + 1) =~= prevd.push(expected));
        }
        i = i + 1;
    }
    proof {
        assert(target.subrange(0, variants@.len() as int) =~= target);
    }
    plans
}

/// Derive the ownership-conversion plan for one schema: validate it, hand
/// back the identity plan when it carries no borrow-scope parameter, and
/// otherwise mark, shape by shape, exactly the fields whose type depends on
/// the scope parameter.
pub fn expand_ownable_poly(schema: &TypeSchema) -> (r: Result<OwnablePlan, GenError>)
    ensures
        view_plan_result(r) == spec_expand_ownable(schema@),
{
    match validate_schema(schema) {
        Result::Err(e) => {
            return Result::Err(e);
        },
        Result::Ok(u) => {},
    }
    let scopes = scope_params(&schema.generics);
    if scopes.len() == 0 {
        return Result::Ok(OwnablePlan::Identity);
    }
    match &schema.shape {
        TypeShape::Struct { fields } => {
            let plan = generate_field_transformations(fields, &scopes);
            Result::Ok(OwnablePlan::Struct { fields: plan })
        },
        TypeShape::Enum { variants } => {
            let plan = generate_enum_transformation(variants, &scopes);
            Result::Ok(OwnablePlan::Enum { variants: plan })
        },
        TypeShape::Union => {
            proof {
                assert(false);
            }
            vstd::pervasive::unreached()
        },
    }
}

} // verus!
