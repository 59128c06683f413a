//! A verified model of a code-generation engine for borrow-scoped data
//! types. A schema — the structural description of a struct or enum with at
//! most one borrow-scope parameter — is analyzed and turned into two kinds
//! of artifacts: a borrow-scope-free tag type with erase and restore
//! mappings that thread the schema's identity through containers that cannot
//! carry a scope, and a recursive ownership-conversion plan that turns a
//! value of the schema into a borrow-independent equivalent, field by field.
//! The byte-level codec that encodes and decodes values is an external
//! collaborator reached through the capability traits below; this crate
//! never touches the encoded representation itself.

use vstd::prelude::*;

pub mod schema;
pub mod analysis;
pub mod diagnostics;
pub mod expand_ownable_poly;
pub mod expand_poly;
pub mod value;
pub mod laws;
pub mod impl_ownable_poly;
pub mod impls;

verus! {

/// A marker capability that hides a deserializable type's borrow scope:
/// `Out` names the type a codec decodes into. The codec's own decoding bound
/// on `Out` belongs to the external codec and is out of scope here.
pub trait DeserializePoly {
    type Out;
}

/// A marker capability for types whose decoded form is themselves: the tag
/// of a borrow-independent schema.
pub trait DeserializePolyOwned: DeserializePoly<Out = Self> {
}

impl<T: DeserializePoly<Out = T>> DeserializePolyOwned for T {
}

/// A marker capability that hides a serializable type's borrow scope: `Out`
/// names the borrow-scope-free tag type that stands for the schema wherever
/// a scope cannot appear.
pub trait SerializePoly {
    type Out;
}

/// A marker capability for types that carry both directions.
pub trait SerdePoly: DeserializePoly + SerializePoly {
}

impl<T: DeserializePoly + SerializePoly> SerdePoly for T {
}

/// A value that can be converted, field by field, into a form that holds no
/// outstanding borrowed data. The conversion is total and consumes the
/// value. The owned form is expected to carry the capability again, so the
/// conversion closes over every reachable field.
///
/// `owned_rel` is each implementor's statement of what its conversion hands
/// back — the identity for borrow-free data, and the member-by-member
/// relation for containers — and `into_owned` is bound to it.
pub trait OwnablePoly {
    type Owned;

    /// Does `r` stand in the owned-form relation to this value?
    spec fn owned_rel(self, r: Self::Owned) -> bool;

    fn into_owned(self) -> (r: Self::Owned)
        ensures
            self.owned_rel(r),
    ;
}

} // verus!
