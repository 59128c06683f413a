//! Structural validation, run before either synthesizer: a schema with more
//! than one borrow-scope parameter is rejected naming the second offending
//! parameter, a union declaration is rejected, an attribute option with an
//! unsupported key is rejected, and a tag-name override on a schema without
//! a borrow-scope parameter is rejected. All errors are generation-time and
//! fatal for the offending schema only.

use vstd::prelude::*;
use vstd::string::StringExecFns;

use crate::schema::AttrOption;
use crate::schema::GenericParam;
use crate::schema::SpecAttrOption;
use crate::schema::SpecGenericParam;
use crate::schema::SpecTypeSchema;
use crate::schema::SpecTypeShape;
use crate::schema::TypeSchema;

verus! {

/// A structural error raised while generating code for one schema.
#[derive(Debug, PartialEq, Eq)]
pub enum GenError {
    /// The generic parameter list carries a second borrow-scope parameter,
    /// named here.
    MultipleBorrowScopes { second: String },
    /// The declaration is a union, which this model cannot transform.
    UnionNotSupported,
    /// An attribute option whose key is not understood, named here.
    UnsupportedAttrKey { key: String },
    /// A tag-name override on a schema without a borrow-scope parameter.
    NameOverrideOnScopeless,
}

/// The mathematical mirror of `GenError`.
pub ghost enum SpecGenError {
    MultipleBorrowScopes { second: Seq<char> },
    UnionNotSupported,
    UnsupportedAttrKey { key: Seq<char> },
    NameOverrideOnScopeless,
}

impl View for GenError {
    type V = SpecGenError;

    open spec fn view(&self) -> SpecGenError {
        match *self {
            GenError::MultipleBorrowScopes { second } => SpecGenError::MultipleBorrowScopes {
                second: second@,
            },
            GenError::UnionNotSupported => SpecGenError::UnionNotSupported,
            GenError::UnsupportedAttrKey { key } => SpecGenError::UnsupportedAttrKey {
                key: key@,
            },
            GenError::NameOverrideOnScopeless => SpecGenError::NameOverrideOnScopeless,
        }
    }
}

/// The names of the borrow-scope parameters in `gs`, in declaration order.
pub open spec fn spec_scope_params(gs: Seq<SpecGenericParam>) -> Seq<Seq<char>>
    decreases gs,
{
    if gs.len() == 0 {
        Seq::empty()
    } else {
        let front = spec_scope_params(gs.drop_last());
        match gs.last() {
            SpecGenericParam::BorrowScope { name } => front.push(name),
            SpecGenericParam::TypeParam { name } => front,
            SpecGenericParam::ConstParam { name } => front,
        }
    }
}

/// The non-scope parameters (type and const) in `gs`, in declaration order.
pub open spec fn spec_nonscope_params(gs: Seq<SpecGenericParam>) -> Seq<SpecGenericParam>
    decreases gs,
{
    if gs.len() == 0 {
        Seq::empty()
    } else {
        let front = spec_nonscope_params(gs.drop_last());
        match gs.last() {
            SpecGenericParam::BorrowScope { name } => front,
            SpecGenericParam::TypeParam { name } => front.push(gs.last()),
            SpecGenericParam::ConstParam { name } => front.push(gs.last()),
        }
    }
}

/// The names of the type parameters in `gs`, in declaration order. The tag
/// type carries one erasure marker per retained type parameter, and none for
/// const parameters.
pub open spec fn spec_type_param_names(gs: Seq<SpecGenericParam>) -> Seq<Seq<char>>
    decreases gs,
{
    if gs.len() == 0 {
        Seq::empty()
    } else {
        let front = spec_type_param_names(gs.drop_last());
        match gs.last() {
            SpecGenericParam::BorrowScope { name } => front,
            SpecGenericParam::TypeParam { name } => front.push(name),
            SpecGenericParam::ConstParam { name } => front,
        }
    }
}

/// The value of the first `name` option among the attributes, if any.
pub open spec fn spec_name_override(attrs: Seq<SpecAttrOption>) -> Option<Seq<char>>
    decreases attrs,
{
    if attrs.len() == 0 {
        Option::None
    } else if attrs[0].key == "name"@ {
        Option::Some(attrs[0].value)
    } else {
        spec_name_override(attrs.subrange(1, attrs.len() as int))
    }
}

/// The key of the first attribute option that is not understood, if any.
pub open spec fn spec_bad_attr_key(attrs: Seq<SpecAttrOption>) -> Option<Seq<char>>
    decreases attrs,
{
    if attrs.len() == 0 {
        Option::None
    } else if attrs[0].key != "name"@ {
        Option::Some(attrs[0].key)
    } else {
        spec_bad_attr_key(attrs.subrange(1, attrs.len() as int))
    }
}

/// What validation decides for a schema, checked in this order: a second
/// borrow-scope parameter, a union shape, an unsupported attribute key, and
/// a name override on a scope-less schema.
pub open spec fn spec_validate(s: SpecTypeSchema) -> Result<(), SpecGenError> {
    let scopes = spec_scope_params(s.generics);
    if scopes.len() >= 2 {
        Result::Err(SpecGenError::MultipleBorrowScopes { second: scopes[1] })
    } else if s.shape is Union {
        Result::Err(SpecGenError::UnionNotSupported)
    } else if spec_bad_attr_key(s.attrs) is Some {
        Result::Err(
            SpecGenError::UnsupportedAttrKey { key: spec_bad_attr_key(s.attrs)->Some_0 },
        )
    } else if spec_name_override(s.attrs) is Some && scopes.len() == 0 {
        Result::Err(SpecGenError::NameOverrideOnScopeless)
    } else {
        Result::Ok(())
    }
}

/// The view of a generation result, for stating contracts.
pub open spec fn view_unit_result(r: Result<(), GenError>) -> Result<(), SpecGenError> {
    match r {
        Result::Ok(u) => Result::Ok(u),
        Result::Err(e) => Result::Err(e@),
    }
}

/// The names of the borrow-scope parameters of `generics`, in order.
pub fn scope_params(generics: &Vec<GenericParam>) -> (r: Vec<String>)
    ensures
        r.deep_view() == spec_scope_params(generics.deep_view()),
{
    let mut r: Vec<String> = Vec::new();
    let mut i: usize = 0;
    proof {
        assert(generics.deep_view().subrange(0, 0) =~= Seq::<SpecGenericParam>::empty());
        assert(r.deep_view() =~= Seq::<Seq<char>>::empty());
    }
    while i < generics.len()
        invariant
            0 <= i <= generics.len(),
            generics.deep_view().len() == generics@.len(),
            forall|j: int| 0 <= j < generics@.len() ==> generics.deep_view()[j]
                == generics@[j]@,
            r.deep_view() == spec_scope_params(generics.deep_view().subrange(0, i as int)),
        decreases generics.len() - i,
    {
        let ghost prefix = generics.deep_view().subrange(0, i as int);
        match &generics[i] {
            GenericParam::BorrowScope { name } => {
                r.push(name.clone());
            },
            GenericParam::TypeParam { name } => {},
            GenericParam::ConstParam { name } => {},
        }
        proof {
            let longer = generics.deep_view().subrange(0, i + 1);
            assert(longer.drop_last() =~= prefix);
            assert(longer.last() == generics.deep_view()[i as int]);
        }
        i = i + 1;
    }
    proof {
        assert(generics.deep_view().subrange(0, generics@.len() as int)
            =~= generics.deep_view());
    }
    r
}

/// The first `name` attribute option's value, if any, and the first
/// unsupported key, if any.
pub(crate) fn scan_attrs(attrs: &Vec<AttrOption>) -> (r: (Option<String>, Option<String>))
    ensures
        match r.0 {
            Option::Some(v) => spec_name_override(attrs.deep_view()) == Option::Some(v@),
            Option::None => spec_name_override(attrs.deep_view()) is None,
        },
        match r.1 {
            Option::Some(k) => spec_bad_attr_key(attrs.deep_view()) == Option::Some(k@),
            Option::None => spec_bad_attr_key(attrs.deep_view()) is None,
        },
{
    let name_key: String = String::from_str("name");
    let mut over: Option<String> = Option::None;
    let mut bad: Option<String> = Option::None;
    let mut i: usize = 0;
    proof {
        assert(attrs.deep_view().subrange(0, attrs@.len() as int) =~= attrs.deep_view());
    }
    while i < attrs.len()
        invariant
            name_key@ == "name"@,
            0 <= i <= attrs.len(),
            attrs.deep_view().len() == attrs@.len(),
            forall|j: int| 0 <= j < attrs@.len() ==> attrs.deep_view()[j] == attrs@[j]@,
            match over {
                Option::Some(v) => spec_name_override(attrs.deep_view()) == Option::Some(
                    v@,
                ),
                Option::None => spec_name_override(attrs.deep_view())
                    == spec_name_override(
                    attrs.deep_view().subrange(i as int, attrs@.len() as int),
                ),
            },
            match bad {
                Option::Some(k) => spec_bad_attr_key(attrs.deep_view()) == Option::Some(
                    k@,
                ),
                Option::None => spec_bad_attr_key(attrs.deep_view()) == spec_bad_attr_key(
                    attrs.deep_view().subrange(i as int, attrs@.len() as int),
                ),
            },
        decreases attrs.len() - i,
    {
        let ghost av = attrs.deep_view();
        let ghost rest = av.subrange(i as int, av.len() as int);
        proof {
            assert(rest[0] == av[i as int]);
            assert(rest.subrange(1, rest.len() as int)
                =~= av.subrange(i + 1, av.len() as int));
        }
        if attrs[i].key.eq(&name_key) {
            if over.is_none() {
                over = Option::Some(attrs[i].value.clone());
            }
        } else {
            if bad.is_none() {
                bad = Option::Some(attrs[i].key.clone());
            }
        }
        i = i + 1;
    }
    proof {
        assert(attrs.deep_view().subrange(attrs@.len() as int, attrs@.len() as int)
            =~= Seq::<SpecAttrOption>::empty());
    }
    (over, bad)
}

/// Run the structural checks for one schema, in the documented order.
pub fn validate_schema(schema: &TypeSchema) -> (r: Result<(), GenError>)
    ensures
        view_unit_result(r) == spec_validate(schema@),
{
    let scopes = scope_params(&schema.generics);
    if scopes.len() >= 2 {
        let second = scopes[1].clone();
        return Result::Err(GenError::MultipleBorrowScopes { second });
    }
    match &schema.shape {
        crate::schema::TypeShape::Union => {
            return Result::Err(GenError::UnionNotSupported);
        },
        _ => {},
    }
    let (over, bad) = scan_attrs(&schema.attrs);
    if let Option::Some(key) = bad {
        return Result::Err(GenError::UnsupportedAttrKey { key });
    }
    if over.is_some() && scopes.len() == 0 {
        return Result::Err(GenError::NameOverrideOnScopeless);
    }
    Result::Ok(())
}

} // verus!
