//! A runtime model of the values the generated conversion operates on, and
//! the conversion itself: `own_value` is the capability's recursive
//! into-owned operation (text loses its borrowed standing and nothing else
//! changes), and `apply_ownable` runs an ownership-conversion plan over a
//! value the way the generated code would: the identity plan returns the
//! value unchanged; a struct plan reassembles the fields in order, converting
//! exactly the marked ones; an enum plan dispatches on the active variant's
//! name, keeps it, and converts the matched variant's payload fields.

use vstd::prelude::*;

use crate::expand_ownable_poly::OwnablePlan;
use crate::expand_ownable_poly::SpecFieldsPlan;
use crate::expand_ownable_poly::SpecOwnablePlan;
use crate::expand_ownable_poly::SpecVariantPlan;
use crate::expand_ownable_poly::FieldsPlan;
use crate::expand_ownable_poly::VariantPlan;

verus! {

/// One field of a record value.
#[derive(Debug, PartialEq, Eq)]
pub struct FieldValue {
    pub name: String,
    pub value: PolyValue,
}

/// A value of a schema instance, as the conversion sees it: text that is
/// either a borrowed view or owned, plain data, and the compound shapes.
#[derive(Debug, PartialEq, Eq)]
pub enum PolyValue {
    /// A piece of text; `owned` says whether it has shed its borrow.
    Str { owned: bool, text: String },
    /// A plain number; never borrow-scope dependent.
    Int { value: i64 },
    /// The unit payload.
    Unit,
    /// A homogeneous sequence.
    List { items: Vec<PolyValue> },
    /// A positional tuple.
    Tuple { items: Vec<PolyValue> },
    /// A named-field record.
    Record { fields: Vec<FieldValue> },
    /// An enum value: the active variant's name and its payload.
    Case { name: String, payload: Box<PolyValue> },
}

pub ghost struct SpecFieldValue {
    pub name: Seq<char>,
    pub value: SpecPolyValue,
}

pub ghost enum SpecPolyValue {
    Str { owned: bool, text: Seq<char> },
    Int { value: i64 },
    Unit,
    List { items: Seq<SpecPolyValue> },
    Tuple { items: Seq<SpecPolyValue> },
    Record { fields: Seq<SpecFieldValue> },
    Case { name: Seq<char>, payload: Box<SpecPolyValue> },
}

pub open spec fn view_poly_value(v: PolyValue) -> SpecPolyValue
    decreases v,
{
    match v {
        PolyValue::Str { owned, text } => SpecPolyValue::Str { owned, text: text@ },
        PolyValue::Int { value } => SpecPolyValue::Int { value },
        PolyValue::Unit => SpecPolyValue::Unit,
        PolyValue::List { items } => SpecPolyValue::List { items: view_poly_values(items@) },
        PolyValue::Tuple { items } => SpecPolyValue::Tuple { items: view_poly_values(items@) },
        PolyValue::Record { fields } => SpecPolyValue::Record {
            fields: view_field_values(fields@),
        },
        PolyValue::Case { name, payload } => SpecPolyValue::Case {
            name: name@,
            payload: Box::new(view_poly_value(*payload)),
        },
    }
}

pub open spec fn view_poly_values(items: Seq<PolyValue>) -> Seq<SpecPolyValue>
    decreases items,
{
    if items.len() == 0 {
        Seq::empty()
    } else {
        view_poly_values(items.drop_last()).push(view_poly_value(items.last()))
    }
}

pub open spec fn view_field_values(fields: Seq<FieldValue>) -> Seq<SpecFieldValue>
    decreases fields,
{
    if fields.len() == 0 {
        Seq::empty()
    } else {
        view_field_values(fields.drop_last()).push(view_field_value(fields.last()))
    }
}

pub open spec fn view_field_value(f: FieldValue) -> SpecFieldValue
    decreases f,
{
    SpecFieldValue { name: f.name@, value: view_poly_value(f.value) }
}

impl View for PolyValue {
    type V = SpecPolyValue;

    open spec fn view(&self) -> SpecPolyValue {
        view_poly_value(*self)
    }
}

impl DeepView for PolyValue {
    type V = SpecPolyValue;

    open spec fn deep_view(&self) -> SpecPolyValue {
        self.view()
    }
}

impl View for FieldValue {
    type V = SpecFieldValue;

    open spec fn view(&self) -> SpecFieldValue {
        view_field_value(*self)
    }
}

impl DeepView for FieldValue {
    type V = SpecFieldValue;

    open spec fn deep_view(&self) -> SpecFieldValue {
        self.view()
    }
}

/// The viewed value list indexes to the view of each element.
pub proof fn lemma_view_poly_values_index(items: Seq<PolyValue>)
    ensures
        view_poly_values(items).len() == items.len(),
        forall|j: int| 0 <= j < items.len() ==> view_poly_values(items)[j] == view_poly_value(
            items[j],
        ),
    decreases items,
{
    if items.len() > 0 {
        lemma_view_poly_values_index(items.drop_last());
    }
}

/// The viewed field list indexes to the view of each element.
pub proof fn lemma_view_field_values_index(fields: Seq<FieldValue>)
    ensures
        view_field_values(fields).len() == fields.len(),
        forall|j: int| 0 <= j < fields.len() ==> view_field_values(fields)[j]
            == view_field_value(fields[j]),
    decreases fields,
{
    if fields.len() > 0 {
        lemma_view_field_values_index(fields.drop_last());
    }
}

/// The recursive into-owned conversion of a value: text becomes owned, and
/// every compound shape is rebuilt around its converted members; nothing else
/// changes.
pub open spec fn spec_own(v: SpecPolyValue) -> SpecPolyValue
    decreases v,
{
    match v {
        SpecPolyValue::Str { owned, text } => SpecPolyValue::Str { owned: true, text },
        SpecPolyValue::Int { value } => SpecPolyValue::Int { value },
        SpecPolyValue::Unit => SpecPolyValue::Unit,
        SpecPolyValue::List { items } => SpecPolyValue::List { items: spec_own_seq(items) },
        SpecPolyValue::Tuple { items } => SpecPolyValue::Tuple { items: spec_own_seq(items) },
        SpecPolyValue::Record { fields } => SpecPolyValue::Record {
            fields: spec_own_fields(fields),
        },
        SpecPolyValue::Case { name, payload } => SpecPolyValue::Case {
            name,
            payload: Box::new(spec_own(*payload)),
        },
    }
}

pub open spec fn spec_own_seq(items: Seq<SpecPolyValue>) -> Seq<SpecPolyValue>
    decreases items,
{
    if items.len() == 0 {
        Seq::empty()
    } else {
        spec_own_seq(items.drop_last()).push(spec_own(items.last()))
    }
}

pub open spec fn spec_own_fields(fields: Seq<SpecFieldValue>) -> Seq<SpecFieldValue>
    decreases fields,
{
    if fields.len() == 0 {
        Seq::empty()
    } else {
        spec_own_fields(fields.drop_last()).push(spec_own_field(fields.last()))
    }
}

pub open spec fn spec_own_field(f: SpecFieldValue) -> SpecFieldValue
    decreases f,
{
    SpecFieldValue { name: f.name, value: spec_own(f.value) }
}

/// The owned value list indexes to the owned form of each element.
pub proof fn lemma_spec_own_seq_index(items: Seq<SpecPolyValue>)
    ensures
        spec_own_seq(items).len() == items.len(),
        forall|j: int| 0 <= j < items.len() ==> spec_own_seq(items)[j] == spec_own(items[j]),
    decreases items,
{
    if items.len() > 0 {
        lemma_spec_own_seq_index(items.drop_last());
    }
}

/// The owned field list indexes to the owned form of each field.
pub proof fn lemma_spec_own_fields_index(fields: Seq<SpecFieldValue>)
    ensures
        spec_own_fields(fields).len() == fields.len(),
        forall|j: int| 0 <= j < fields.len() ==> spec_own_fields(fields)[j] == spec_own_field(
            fields[j],
        ),
    decreases fields,
{
    if fields.len() > 0 {
        lemma_spec_own_fields_index(fields.drop_last());
    }
}

/// The first variant plan with the given name, if any.
pub open spec fn spec_find_variant(vs: Seq<SpecVariantPlan>, name: Seq<char>) -> Option<
    SpecVariantPlan,
>
    decreases vs,
{
    if vs.len() == 0 {
        Option::None
    } else if vs[0].name == name {
        Option::Some(vs[0])
    } else {
        spec_find_variant(vs.subrange(1, vs.len() as int), name)
    }
}

/// Running one fields plan over a value: a named plan reassembles a record
/// in field order, converting exactly the marked fields; a positional plan
/// does the same by index; everything else is returned unchanged.
pub open spec fn spec_apply_fields(fp: SpecFieldsPlan, v: SpecPolyValue) -> SpecPolyValue {
    match fp {
        SpecFieldsPlan::Named { fields: plans } => match v {
            SpecPolyValue::Record { fields } => SpecPolyValue::Record {
                fields: Seq::new(
                    fields.len(),
                    |i: int|
                        if 0 <= i < plans.len() && plans[i].convert {
                            spec_own_field(fields[i])
                        } else {
                            fields[i]
                        },
                ),
            },
            _ => v,
        },
        SpecFieldsPlan::Unnamed { converts } => match v {
            SpecPolyValue::Tuple { items } => SpecPolyValue::Tuple {
                items: Seq::new(
                    items.len(),
                    |i: int|
                        if 0 <= i < converts.len() && converts[i] {
                            spec_own(items[i])
                        } else {
                            items[i]
                        },
                ),
            },
            _ => v,
        },
        SpecFieldsPlan::Unit => v,
    }
}

/// Running a whole ownership-conversion plan over a value.
pub open spec fn spec_apply(plan: SpecOwnablePlan, v: SpecPolyValue) -> SpecPolyValue {
    match plan {
        SpecOwnablePlan::Identity => v,
        SpecOwnablePlan::Struct { fields } => spec_apply_fields(fields, v),
        SpecOwnablePlan::Enum { variants } => match v {
            SpecPolyValue::Case { name, payload } => match spec_find_variant(variants, name) {
                Option::Some(vp) => SpecPolyValue::Case {
                    name,
                    payload: Box::new(spec_apply_fields(vp.fields, *payload)),
                },
                Option::None => v,
            },
            _ => v,
        },
    }
}

/// A fresh copy of a value, equal to the value it copies.
pub fn clone_value(v: &PolyValue) -> (r: PolyValue)
    ensures
        r@ == v@,
    decreases *v,
{
    match v {
        PolyValue::Str { owned, text } => PolyValue::Str { owned: *owned, text: text.clone() },
        PolyValue::Int { value } => PolyValue::Int { value: *value },
        PolyValue::Unit => PolyValue::Unit,
        PolyValue::List { items } => PolyValue::List { items: clone_values(items) },
        PolyValue::Tuple { items } => PolyValue::Tuple { items: clone_values(items) },
        PolyValue::Record { fields } => PolyValue::Record { fields: clone_field_values(fields) },
        PolyValue::Case { name, payload } => PolyValue::Case {
            name: name.clone(),
            payload: Box::new(clone_value(payload)),
        },
    }
}

fn clone_values(items: &Vec<PolyValue>) -> (r: Vec<PolyValue>)
    ensures
        view_poly_values(r@) == view_poly_values(items@),
        r@.len() == items@.len(),
    decreases items@,
{
    let ghost target = view_poly_values(items@);
    proof {
        lemma_view_poly_values_index(items@);
    }
    let mut r: Vec<PolyValue> = Vec::new();
    let mut i: usize = 0;
    proof {
        assert(view_poly_values(r@) =~= Seq::<SpecPolyValue>::empty());
    }
    while i < items.len()
        invariant
            0 <= i <= items.len(),
            target == view_poly_values(items@),
            target.len() == items@.len(),
            forall|j: int| 0 <= j < items@.len() ==> target[j] == view_poly_value(items@[j]),
            r@.len() == i,
            view_poly_values(r@) == target.subrange(0, i as int),
        decreases items.len() - i,
    {
        let ghost prevv = r@;
        let x = clone_value(&items[i]);
        let ghost xv = x@;
        r.push(x);
        proof {
            assert(r@.drop_last() =~= prevv);
            assert(view_poly_values(r@) == view_poly_values(prevv).push(xv));
            assert(target.subrange(0, i + 1) =~= target.subrange(0, i as int).push(
                target[i as int],
            ));
        }
        i = i + 1;
    }
    proof {
        assert(target.subrange(0, items@.len() as int) =~= target);
    }
    r
}

fn clone_field_values(fields: &Vec<FieldValue>) -> (r: Vec<FieldValue>)
    ensures
        view_field_values(r@) == view_field_values(fields@),
        r@.len() == fields@.len(),
    decreases fields@,
{
    let ghost target = view_field_values(fields@);
    proof {
        lemma_view_field_values_index(fields@);
    }
    let mut r: Vec<FieldValue> = Vec::new();
    let mut i: usize = 0;
    proof {
        assert(view_field_values(r@) =~= Seq::<SpecFieldValue>::empty());
    }
    while i < fields.len()
        invariant
            0 <= i <= fields.len(),
            target == view_field_values(fields@),
            target.len() == fields@.len(),
            forall|j: int| 0 <= j < fields@.len() ==> target[j] == view_field_value(
                fields@[j],
            ),
            r@.len() == i,
            view_field_values(r@) == target.subrange(0, i as int),
        decreases fields.len() - i,
    {
        let ghost prevv = r@;
        let name = fields[i].name.clone();
        let value = clone_value(&fields[i].value);
        let f = FieldValue { name, value };
        let ghost fv = f@;
        r.push(f);
        proof {
            assert(r@.drop_last() =~= prevv);
            assert(view_field_values(r@) == view_field_values(prevv).push(fv));
            assert(fv == target[i as int]);
            assert(target.subrange(0, i + 1) =~= target.subrange(0, i as int).push(
                target[i as int],
            ));
        }
        i = i + 1;
    }
    proof {
        assert(target.subrange(0, fields@.len() as int) =~= target);
    }
    r
}

/// Convert a value into its fully owned form.
pub fn own_value(v: &PolyValue) -> (r: PolyValue)
    ensures
        r@ == spec_own(v@),
    decreases *v,
{
    match v {
        PolyValue::Str { owned, text } => PolyValue::Str { owned: true, text: text.clone() },
        PolyValue::Int { value } => PolyValue::Int { value: *value },
        PolyValue::Unit => PolyValue::Unit,
        PolyValue::List { items } => PolyValue::List { items: own_values(items) },
        PolyValue::Tuple { items } => PolyValue::Tuple { items: own_values(items) },
        PolyValue::Record { fields } => PolyValue::Record { fields: own_field_values(fields) },
        PolyValue::Case { name, payload } => PolyValue::Case {
            name: name.clone(),
            payload: Box::new(own_value(payload)),
        },
    }
}

fn own_values(items: &Vec<PolyValue>) -> (r: Vec<PolyValue>)
    ensures
        view_poly_values(r@) == spec_own_seq(view_poly_values(items@)),
        r@.len() == items@.len(),
    decreases items@,
{
    let ghost target = spec_own_seq(view_poly_values(items@));
    proof {
        lemma_view_poly_values_index(items@);
        lemma_spec_own_seq_index(view_poly_values(items@));
    }
    let mut r: Vec<PolyValue> = Vec::new();
    let mut i: usize = 0;
    proof {
        assert(view_poly_values(r@) =~= Seq::<SpecPolyValue>::empty());
        assert(target.subrange(0, 0) =~= Seq::<SpecPolyValue>::empty());
    }
    while i < items.len()
        invariant
            0 <= i <= items.len(),
            target == spec_own_seq(view_poly_values(items@)),
            target.len() == items@.len(),
            forall|j: int| 0 <= j < items@.len() ==> target[j] == spec_own(
                view_poly_value(items@[j]),
            ),
            r@.len() == i,
            view_poly_values(r@) == target.subrange(0, i as int),
        decreases items.len() - i,
    {
        let ghost prevv = r@;
        let x = own_value(&items[i]);
        let ghost xv = x@;
        r.push(x);
        proof {
            assert(r@.drop_last() =~= prevv);
            assert(view_poly_values(r@) == view_poly_values(prevv).push(xv));
            assert(xv == target[i as int]);
            assert(target.subrange(0, i + 1) =~= target.subrange(0, i as int).push(
                target[i as int],
            ));
        }
        i = i + 1;
    }
    proof {
        assert(target.subrange(0, items@.len() as int) =~= target);
    }
    r
}

fn own_field_values(fields: &Vec<FieldValue>) -> (r: Vec<FieldValue>)
    ensures
        view_field_values(r@) == spec_own_fields(view_field_values(fields@)),
        r@.len() == fields@.len(),
    decreases fields@,
{
    let ghost target = spec_own_fields(view_field_values(fields@));
    proof {
        lemma_view_field_values_index(fields@);
        lemma_spec_own_fields_index(view_field_values(fields@));
    }
    let mut r: Vec<FieldValue> = Vec::new();
    let mut i: usize = 0;
    proof {
        assert(view_field_values(r@) =~= Seq::<SpecFieldValue>::empty());
        assert(target.subrange(0, 0) =~= Seq::<SpecFieldValue>::empty());
    }
    while i < fields.len()
        invariant
            0 <= i <= fields.len(),
            target == spec_own_fields(view_field_values(fields@)),
            target.len() == fields@.len(),
            forall|j: int| 0 <= j < fields@.len() ==> target[j] == spec_own_field(
                view_field_value(fields@[j]),
            ),
            r@.len() == i,
            view_field_values(r@) == target.subrange(0, i as int),
        decreases fields.len() - i,
    {
        let ghost prevv = r@;
        let name = fields[i].name.clone();
        let value = own_value(&fields[i].value);
        let f = FieldValue { name, value };
        let ghost fv = f@;
        r.push(f);
        proof {
            assert(r@.drop_last() =~= prevv);
            assert(view_field_values(r@) == view_field_values(prevv).push(fv));
            assert(fv == target[i as int]);
            assert(target.subrange(0, i + 1) =~= target.subrange(0, i as int).push(
                target[i as int],
            ));
        }
        i = i + 1;
    }
    proof {
        assert(target.subrange(0, fields@.len() as int) =~= target);
    }
    r
}

/// Run one fields plan over a value, as the generated reassembly would.
fn apply_fields_plan(fp: &FieldsPlan, v: &PolyValue) -> (r: PolyValue)
    ensures
        r@ == spec_apply_fields(fp@, v@),
{
    match fp {
        FieldsPlan::Named { fields: plans } => {
            match v {
                PolyValue::Record { fields } => {
                    let ghost vfields = view_field_values(fields@);
                    let ghost target = spec_apply_fields(fp@, v@);
                    proof {
                        lemma_view_field_values_index(fields@);
                    }
                    let mut out: Vec<FieldValue> = Vec::new();
                    let mut i: usize = 0;
                    proof {
                        assert(view_field_values(out@) =~= Seq::<SpecFieldValue>::empty());
                    }
                    while i < fields.len()
                        invariant
                            0 <= i <= fields.len(),
                            vfields == view_field_values(fields@),
                            vfields.len() == fields@.len(),
                            forall|j: int| 0 <= j < fields@.len() ==> vfields[j]
                                == view_field_value(fields@[j]),
                            plans.deep_view().len() == plans@.len(),
                            forall|j: int| 0 <= j < plans@.len() ==> plans.deep_view()[j]
                                == plans@[j]@,
                            fp@ == (SpecFieldsPlan::Named { fields: plans.deep_view() }),
                            v@ == (SpecPolyValue::Record { fields: vfields }),
                            out@.len() == i,
                            forall|j: int| 0 <= j < i ==> view_field_values(out@)[j] == (
                            if 0 <= j < plans.deep_view().len() && plans.deep_view()[j].convert {
                                spec_own_field(vfields[j])
                            } else {
                                vfields[j]
                            }),
                            view_field_values(out@).len() == i,
                        decreases fields.len() - i,
                    {
                        let ghost prevv = out@;
                        let convert = if i < plans.len() {
                            plans[i].convert
                        } else {
                            false
                        };
                        let f = if convert {
                            let name = fields[i].name.clone();
                            let value = own_value(&fields[i].value);
                            FieldValue { name, value }
                        } else {
                            let name = fields[i].name.clone();
                            let value = clone_value(&fields[i].value);
                            FieldValue { name, value }
                        };
                        let ghost fv = f@;
                        out.push(f);
                        proof {
                            assert(out@.drop_last() =~= prevv);
                            assert(view_field_values(out@) == view_field_values(prevv).push(fv));
                            lemma_view_field_values_index(prevv);
                            lemma_view_field_values_index(out@);
                            assert(view_field_values(out@)[i as int] == fv);
                            assert(fv == (if 0 <= (i as int) && (i as int) < plans.deep_view().len()
                                && plans.deep_view()[i as int].convert {
                                spec_own_field(vfields[i as int])
                            } else {
                                vfields[i as int]
                            }));
                        }
                        i = i + 1;
                    }
                    proof {
                        lemma_view_field_values_index(out@);
                        assert(view_field_values(out@) =~= (match target {
                            SpecPolyValue::Record { fields: tf } => tf,
                            _ => Seq::empty(),
                        }));
                    }
                    PolyValue::Record { fields: out }
                },
                _ => clone_value(v),
            }
        },
        FieldsPlan::Unnamed { converts } => {
            match v {
                PolyValue::Tuple { items } => {
                    let ghost vitems = view_poly_values(items@);
                    let ghost target = spec_apply_fields(fp@, v@);
                    proof {
                        lemma_view_poly_values_index(items@);
                    }
                    let ghost tgt_items = Seq::new(
                        vitems.len(),
                        |i: int|
                            if 0 <= i < converts@.len() && converts@[i] {
                                spec_own(vitems[i])
                            } else {
                                vitems[i]
                            },
                    );
                    let mut out: Vec<PolyValue> = Vec::new();
                    let mut i: usize = 0;
                    proof {
                        assert(view_poly_values(out@) =~= tgt_items.subrange(0, 0));
                    }
                    while i < items.len()
                        invariant
                            0 <= i <= items.len(),
                            vitems == view_poly_values(items@),
                            vitems.len() == items@.len(),
                            forall|j: int| 0 <= j < items@.len() ==> vitems[j]
                                == view_poly_value(items@[j]),
                            fp@ == (SpecFieldsPlan::Unnamed { converts: converts@ }),
                            v@ == (SpecPolyValue::Tuple { items: vitems }),
                            tgt_items == Seq::new(
                                vitems.len(),
                                |j: int|
                                    if 0 <= j < converts@.len() && converts@[j] {
                                        spec_own(vitems[j])
                                    } else {
                                        vitems[j]
                                    },
                            ),
                            out@.len() == i,
                            view_poly_values(out@) == tgt_items.subrange(0, i as int),
                        decreases items.len() - i,
                    {
                        let ghost prevv = out@;
                        let convert = if i < converts.len() {
                            converts[i]
                        } else {
                            false
                        };
                        let x = if convert {
                            own_value(&items[i])
                        } else {
                            clone_value(&items[i])
                        };
                        let ghost xv = x@;
                        out.push(x);
                        proof {
                            assert(out@.drop_last() =~= prevv);
                            assert(view_poly_values(out@) == view_poly_values(prevv).push(xv));
                            assert(xv == tgt_items[i as int]);
                            assert(tgt_items.subrange(0, i + 1) =~= tgt_items.subrange(
                                0,
                                i as int,
                            ).push(tgt_items[i as int]));
                        }
                        i = i + 1;
                    }
                    proof {
                        assert(tgt_items.subrange(0, items@.len() as int) =~= tgt_items);
                        assert(view_poly_values(out@) =~= (match target {
                            SpecPolyValue::Tuple { items: ti } => ti,
                            _ => Seq::empty(),
                        }));
                    }
                    PolyValue::Tuple { items: out }
                },
                _ => clone_value(v),
            }
        },
        FieldsPlan::Unit => clone_value(v),
    }
}

/// The first variant plan carrying the given name, if any.
fn find_variant<'a>(vs: &'a Vec<VariantPlan>, name: &String) -> (r: Option<&'a VariantPlan>)
    ensures
        match r {
            Option::Some(vp) => spec_find_variant(vs.deep_view(), name@) == Option::Some(vp@),
            Option::None => spec_find_variant(vs.deep_view(), name@) is None,
        },
{
    let mut i: usize = 0;
    proof {
        assert(vs.deep_view().subrange(0, vs@.len() as int) =~= vs.deep_view());
    }
    while i < vs.len()
        invariant
            0 <= i <= vs.len(),
            vs.deep_view().len() == vs@.len(),
            forall|j: int| 0 <= j < vs@.len() ==> vs.deep_view()[j] == vs@[j]@,
            spec_find_variant(vs.deep_view(), name@) == spec_find_variant(
                vs.deep_view().subrange(i as int, vs@.len() as int),
                name@,
            ),
        decreases vs.len() - i,
    {
        let ghost av = vs.deep_view();
        let ghost rest = av.subrange(i as int, av.len() as int);
        proof {
            assert(rest[0] == av[i as int]);
            assert(rest.subrange(1, rest.len() as int)
                =~= av.subrange(i + 1, av.len() as int));
        }
        if vs[i].name.eq(name) {
            return Option::Some(&vs[i]);
        }
        i = i + 1;
    }
    proof {
        assert(vs.deep_view().subrange(vs@.len() as int, vs@.len() as int)
            =~= Seq::<SpecVariantPlan>::empty());
    }
    Option::None
}

/// Run an ownership-conversion plan over a value, as the generated
/// conversion would.
pub fn apply_ownable(plan: &OwnablePlan, v: &PolyValue) -> (r: PolyValue)
    ensures
        r@ == spec_apply(plan@, v@),
{
    match plan {
        OwnablePlan::Identity => clone_value(v),
        OwnablePlan::Struct { fields } => apply_fields_plan(fields, v),
        OwnablePlan::Enum { variants } => {
            match v {
                PolyValue::Case { name, payload } => {
                    match find_variant(variants, name) {
                        Option::Some(vp) => {
                            let converted = apply_fields_plan(&vp.fields, payload);
                            PolyValue::Case {
                                name: name.clone(),
                                payload: Box::new(converted),
                            }
                        },
                        Option::None => clone_value(v),
                    }
                },
                _ => clone_value(v),
            }
        },
    }
}

impl crate::OwnablePoly for PolyValue {
    type Owned = PolyValue;

    /// The result is exactly the recursive owned form of the value.
    open spec fn owned_rel(self, r: PolyValue) -> bool {
        r@ == spec_own(self@)
    }

    /// The capability's conversion for modelled values.
    fn into_owned(self) -> (r: PolyValue)
        ensures
            r@ == spec_own(self@),
    {
        own_value(&self)
    }
}

} // verus!
