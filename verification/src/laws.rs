//! The laws of the generator, stated over the mathematical mirrors and
//! proved from the synthesizers' and the conversion's definitions.

use vstd::prelude::*;

use crate::diagnostics::SpecGenError;
use crate::diagnostics::spec_bad_attr_key;
use crate::diagnostics::spec_name_override;
use crate::diagnostics::spec_scope_params;
use crate::diagnostics::spec_validate;
use crate::expand_ownable_poly::SpecFieldsPlan;
use crate::expand_ownable_poly::SpecNamedFieldPlan;
use crate::expand_ownable_poly::SpecOwnablePlan;
use crate::expand_ownable_poly::SpecVariantPlan;
use crate::expand_ownable_poly::spec_expand_ownable;
use crate::expand_ownable_poly::spec_plan_fields;
use crate::expand_ownable_poly::spec_plan_named;
use crate::expand_ownable_poly::spec_plan_unnamed;
use crate::expand_ownable_poly::spec_plan_variants;
use crate::expand_poly::spec_expand_poly;
use crate::schema::SpecFieldDecl;
use crate::schema::SpecFieldsShape;
use crate::schema::SpecTupleFieldDecl;
use crate::schema::SpecTypeSchema;
use crate::schema::SpecVariantSpec;
use crate::analysis::spec_type_depends;
use crate::value::SpecFieldValue;
use crate::value::SpecPolyValue;
use crate::value::spec_apply;
use crate::value::spec_apply_fields;
use crate::value::spec_find_variant;
use crate::value::spec_own;
use crate::value::spec_own_field;
use crate::value::spec_own_fields;
use crate::value::spec_own_seq;

verus! {

/// Identity law: a valid schema without a borrow-scope parameter is its own
/// tag — no tag type is declared, erase and restore both map the schema to
/// itself — its conversion plan is the identity, and running the identity
/// plan leaves every value unchanged.
pub proof fn lemma_identity_law(s: SpecTypeSchema, v: SpecPolyValue)
    requires
        spec_validate(s) is Ok,
        spec_scope_params(s.generics).len() == 0,
    ensures
        spec_expand_ownable(s) == Result::<SpecOwnablePlan, SpecGenError>::Ok(
            SpecOwnablePlan::Identity,
        ),
        spec_apply(SpecOwnablePlan::Identity, v) == v,
        spec_expand_poly(s) matches Result::Ok(a) && {
            &&& a.decl is None
            &&& a.erase.target == a.erase.source
            &&& a.restore.target == a.restore.source
            &&& a.erase.source.name == s.name
            &&& !a.erase.source.takes_scope
            &&& a.restore.source == a.erase.source
        },
{
}

/// Default naming law: a valid schema with one borrow-scope parameter and no
/// naming override gets a tag type named after the schema with the fixed
/// suffix appended.
pub proof fn lemma_default_naming_law(s: SpecTypeSchema)
    requires
        spec_validate(s) is Ok,
        spec_scope_params(s.generics).len() == 1,
        spec_name_override(s.attrs) is None,
    ensures
        spec_expand_poly(s) matches Result::Ok(a) && a.decl matches Option::Some(d) && d.name
            == s.name + "Tag"@,
{
}

/// Naming override law: an explicit `name` option on a borrow-scoped schema
/// names the tag type exactly; the same option on a scope-less schema is
/// rejected at generation time.
pub proof fn lemma_naming_override_law(s: SpecTypeSchema, n: Seq<char>)
    requires
        spec_name_override(s.attrs) == Option::Some(n),
        spec_bad_attr_key(s.attrs) is None,
        !(s.shape is Union),
    ensures
        spec_scope_params(s.generics).len() == 1 ==> (spec_expand_poly(s) matches Result::Ok(
            a,
        ) && a.decl matches Option::Some(d) && d.name == n),
        spec_scope_params(s.generics).len() == 0 ==> spec_expand_poly(s) == Result::<
            crate::expand_poly::SpecTagArtifacts,
            SpecGenError,
        >::Err(SpecGenError::NameOverrideOnScopeless),
{
}

/// The derived plan lists the schema's fields under their own names, in
/// declaration order, and marks a field exactly when its type depends on one
/// of the scopes; positional fields are planned in index order the same way.
pub proof fn lemma_plan_order_and_selection(
    fs: Seq<SpecFieldDecl>,
    ts: Seq<SpecTupleFieldDecl>,
    scopes: Seq<Seq<char>>,
)
    ensures
        spec_plan_named(fs, scopes).len() == fs.len(),
        forall|i: int| 0 <= i < fs.len() ==> spec_plan_named(fs, scopes)[i].name == fs[i].name,
        forall|i: int| 0 <= i < fs.len() ==> spec_plan_named(fs, scopes)[i].convert
            == spec_type_depends(fs[i].ty, scopes),
        spec_plan_unnamed(ts, scopes).len() == ts.len(),
        forall|i: int| 0 <= i < ts.len() ==> spec_plan_unnamed(ts, scopes)[i]
            == spec_type_depends(ts[i].ty, scopes),
{
}

/// The enum plan lists one entry per variant, in declaration order, each
/// keeping its variant's name; a payload's plan follows the same per-field
/// rule as the struct case, and a unit variant's plan converts nothing.
pub proof fn lemma_variant_plan_order_and_selection(
    vs: Seq<SpecVariantSpec>,
    scopes: Seq<Seq<char>>,
)
    ensures
        spec_plan_variants(vs, scopes).len() == vs.len(),
        forall|i: int| 0 <= i < vs.len() ==> spec_plan_variants(vs, scopes)[i].name
            == vs[i].name,
        forall|i: int| 0 <= i < vs.len() ==> spec_plan_variants(vs, scopes)[i].fields
            == spec_plan_fields(vs[i].fields, scopes),
        spec_plan_fields(SpecFieldsShape::Unit, scopes) == crate::expand_ownable_poly::SpecFieldsPlan::Unit,
{
}

/// Field-order preservation: running any fields plan over a record yields a
/// record of the same length whose field names stand in the original order;
/// over a tuple it yields a tuple of the same length.
pub proof fn lemma_field_order_preservation(
    fp: SpecFieldsPlan,
    fields: Seq<SpecFieldValue>,
    items: Seq<SpecPolyValue>,
)
    ensures
        (spec_apply_fields(fp, SpecPolyValue::Record { fields }) matches SpecPolyValue::Record {
            fields: out,
        } && out.len() == fields.len() && (forall|i: int|
            0 <= i < fields.len() ==> out[i].name == fields[i].name)),
        (spec_apply_fields(fp, SpecPolyValue::Tuple { items }) matches SpecPolyValue::Tuple {
            items: out,
        } && out.len() == items.len()),
{
}

/// Selective recursion: running a fields plan converts exactly the marked
/// fields to their owned form and returns every other field untouched.
pub proof fn lemma_selective_recursion(
    plans: Seq<SpecNamedFieldPlan>,
    fields: Seq<SpecFieldValue>,
    converts: Seq<bool>,
    items: Seq<SpecPolyValue>,
)
    ensures
        (spec_apply_fields(
            SpecFieldsPlan::Named { fields: plans },
            SpecPolyValue::Record { fields },
        ) matches SpecPolyValue::Record { fields: out } && (forall|i: int|
            0 <= i < fields.len() ==> out[i] == (if 0 <= i < plans.len() && plans[i].convert {
                spec_own_field(fields[i])
            } else {
                fields[i]
            }))),
        (spec_apply_fields(
            SpecFieldsPlan::Unnamed { converts },
            SpecPolyValue::Tuple { items },
        ) matches SpecPolyValue::Tuple { items: out } && (forall|i: int|
            0 <= i < items.len() ==> out[i] == (if 0 <= i < converts.len() && converts[i] {
                spec_own(items[i])
            } else {
                items[i]
            }))),
{
}

/// Converting a value that is already fully owned changes nothing further:
/// the into-owned conversion is idempotent.
pub proof fn lemma_own_idempotent(v: SpecPolyValue)
    ensures
        spec_own(spec_own(v)) == spec_own(v),
    decreases v,
{
    match v {
        SpecPolyValue::List { items } => {
            lemma_own_seq_idempotent(items);
        },
        SpecPolyValue::Tuple { items } => {
            lemma_own_seq_idempotent(items);
        },
        SpecPolyValue::Record { fields } => {
            lemma_own_fields_idempotent(fields);
        },
        SpecPolyValue::Case { name, payload } => {
            lemma_own_idempotent(*payload);
        },
        _ => {},
    }
}

proof fn lemma_own_seq_idempotent(items: Seq<SpecPolyValue>)
    ensures
        spec_own_seq(spec_own_seq(items)) == spec_own_seq(items),
    decreases items,
{
    if items.len() > 0 {
        lemma_own_seq_idempotent(items.drop_last());
        lemma_own_idempotent(items.last());
        assert(spec_own_seq(items).drop_last() =~= spec_own_seq(items.drop_last()));
        assert(spec_own_seq(items).last() == spec_own(items.last()));
        assert(spec_own_seq(spec_own_seq(items)) =~= spec_own_seq(items));
    } else {
        assert(spec_own_seq(spec_own_seq(items)) =~= spec_own_seq(items));
    }
}

proof fn lemma_own_fields_idempotent(fields: Seq<SpecFieldValue>)
    ensures
        spec_own_fields(spec_own_fields(fields)) == spec_own_fields(fields),
    decreases fields,
{
    if fields.len() > 0 {
        lemma_own_fields_idempotent(fields.drop_last());
        lemma_own_idempotent(fields.last().value);
        assert(spec_own_field(spec_own_field(fields.last())) == spec_own_field(fields.last()));
        assert(spec_own_fields(fields).drop_last() =~= spec_own_fields(fields.drop_last()));
        assert(spec_own_fields(fields).last() == spec_own_field(fields.last()));
        assert(spec_own_fields(spec_own_fields(fields)) =~= spec_own_fields(fields));
    } else {
        assert(spec_own_fields(spec_own_fields(fields)) =~= spec_own_fields(fields));
    }
}

/// Running one fields plan a second time changes nothing further.
pub proof fn lemma_apply_fields_idempotent(fp: SpecFieldsPlan, v: SpecPolyValue)
    ensures
        spec_apply_fields(fp, spec_apply_fields(fp, v)) == spec_apply_fields(fp, v),
{
    let once = spec_apply_fields(fp, v);
    match fp {
        SpecFieldsPlan::Named { fields: plans } => {
            match v {
                SpecPolyValue::Record { fields } => {
                    let out = match once {
                        SpecPolyValue::Record { fields: o } => o,
                        _ => Seq::empty(),
                    };
                    assert forall|i: int| 0 <= i < fields.len() implies (
                    if 0 <= i < plans.len() && plans[i].convert {
                        spec_own_field(out[i])
                    } else {
                        out[i]
                    }) == out[i] by {
                        if 0 <= i < plans.len() && plans[i].convert {
                            lemma_own_idempotent(fields[i].value);
                        }
                    }
                    assert(spec_apply_fields(fp, once) matches SpecPolyValue::Record {
                        fields: o2,
                    } && o2 =~= out);
                },
                _ => {},
            }
        },
        SpecFieldsPlan::Unnamed { converts } => {
            match v {
                SpecPolyValue::Tuple { items } => {
                    let out = match once {
                        SpecPolyValue::Tuple { items: o } => o,
                        _ => Seq::empty(),
                    };
                    assert forall|i: int| 0 <= i < items.len() implies (
                    if 0 <= i < converts.len() && converts[i] {
                        spec_own(out[i])
                    } else {
                        out[i]
                    }) == out[i] by {
                        if 0 <= i < converts.len() && converts[i] {
                            lemma_own_idempotent(items[i]);
                        }
                    }
                    assert(spec_apply_fields(fp, once) matches SpecPolyValue::Tuple {
                        items: o2,
                    } && o2 =~= out);
                },
                _ => {},
            }
        },
        SpecFieldsPlan::Unit => {},
    }
}

/// Idempotence: running a whole conversion plan a second time returns an
/// equal value — the first run leaves no convertible borrow behind that the
/// plan would still see.
pub proof fn lemma_apply_idempotent(plan: SpecOwnablePlan, v: SpecPolyValue)
    ensures
        spec_apply(plan, spec_apply(plan, v)) == spec_apply(plan, v),
{
    match plan {
        SpecOwnablePlan::Identity => {},
        SpecOwnablePlan::Struct { fields } => {
            lemma_apply_fields_idempotent(fields, v);
        },
        SpecOwnablePlan::Enum { variants } => {
            match v {
                SpecPolyValue::Case { name, payload } => {
                    match spec_find_variant(variants, name) {
                        Option::Some(vp) => {
                            lemma_apply_fields_idempotent(vp.fields, *payload);
                        },
                        Option::None => {},
                    }
                },
                _ => {},
            }
        },
    }
}

/// Variant preservation: an enum plan keeps the active variant's name; a
/// variant the plan does not know, and a unit variant, come back unchanged.
pub proof fn lemma_variant_preservation(
    variants: Seq<SpecVariantPlan>,
    name: Seq<char>,
    payload: SpecPolyValue,
)
    ensures
        (spec_apply(
            SpecOwnablePlan::Enum { variants },
            SpecPolyValue::Case { name, payload: Box::new(payload) },
        ) matches SpecPolyValue::Case { name: out_name, payload: out_payload } && out_name
            == name),
        (spec_find_variant(variants, name) is None ==> spec_apply(
            SpecOwnablePlan::Enum { variants },
            SpecPolyValue::Case { name, payload: Box::new(payload) },
        ) == SpecPolyValue::Case { name, payload: Box::new(payload) }),
        ((spec_find_variant(variants, name) matches Option::Some(vp) && vp.fields is Unit)
            ==> spec_apply(
            SpecOwnablePlan::Enum { variants },
            SpecPolyValue::Case { name, payload: Box::new(payload) },
        ) == SpecPolyValue::Case { name, payload: Box::new(payload) }),
{
}

/// Erase and restore are mutually inverse type-level mappings: restore
/// starts from exactly the type erase produces, and hands back exactly the
/// type erase started from, with the non-scope parameters passed through
/// verbatim on both sides.
pub proof fn lemma_erase_restore_inverse(s: SpecTypeSchema)
    requires
        spec_validate(s) is Ok,
    ensures
        (spec_expand_poly(s) matches Result::Ok(a) && {
            &&& a.restore.source == a.erase.target
            &&& a.restore.target == a.erase.source
            &&& a.erase.source.params == a.erase.target.params
        }),
{
}

/// Constraint rejection: a schema with a second borrow-scope parameter fails
/// generation in both synthesizers with an error naming that parameter, and
/// a union-shaped declaration fails generation in both synthesizers.
pub proof fn lemma_constraint_rejection(s: SpecTypeSchema)
    ensures
        spec_scope_params(s.generics).len() >= 2 ==> {
            &&& spec_expand_ownable(s) == Result::<SpecOwnablePlan, SpecGenError>::Err(
                SpecGenError::MultipleBorrowScopes {
                    second: spec_scope_params(s.generics)[1],
                },
            )
            &&& spec_expand_poly(s) == Result::<
                crate::expand_poly::SpecTagArtifacts,
                SpecGenError,
            >::Err(
                SpecGenError::MultipleBorrowScopes {
                    second: spec_scope_params(s.generics)[1],
                },
            )
        },
        spec_scope_params(s.generics).len() < 2 && s.shape is Union ==> {
            &&& spec_expand_ownable(s) == Result::<SpecOwnablePlan, SpecGenError>::Err(
                SpecGenError::UnionNotSupported,
            )
            &&& spec_expand_poly(s) == Result::<
                crate::expand_poly::SpecTagArtifacts,
                SpecGenError,
            >::Err(SpecGenError::UnionNotSupported)
        },
{
}

} // verus!
