//! The stock `OwnablePoly` implementations: primitives and owned text are
//! already borrow-independent, so their conversion is the identity; the
//! standard containers convert element by element; and an externally
//! supplied identifier type passes through unchanged.

use vstd::prelude::*;

use crate::OwnablePoly;

verus! {

impl OwnablePoly for u8 {
    type Owned = u8;

    open spec fn owned_rel(self, r: u8) -> bool {
        r == self
    }

    fn into_owned(self) -> (r: u8)
        ensures
            r == self,
    {
        self
    }
}

impl OwnablePoly for u16 {
    type Owned = u16;

    open spec fn owned_rel(self, r: u16) -> bool {
        r == self
    }

    fn into_owned(self) -> (r: u16)
        ensures
            r == self,
    {
        self
    }
}

impl OwnablePoly for u32 {
    type Owned = u32;

    open spec fn owned_rel(self, r: u32) -> bool {
        r == self
    }

    fn into_owned(self) -> (r: u32)
        ensures
            r == self,
    {
        self
    }
}

impl OwnablePoly for u64 {
    type Owned = u64;

    open spec fn owned_rel(self, r: u64) -> bool {
        r == self
    }

    fn into_owned(self) -> (r: u64)
        ensures
            r == self,
    {
        self
    }
}

impl OwnablePoly for u128 {
    type Owned = u128;

    open spec fn owned_rel(self, r: u128) -> bool {
        r == self
    }

    fn into_owned(self) -> (r: u128)
        ensures
            r == self,
    {
        self
    }
}

impl OwnablePoly for usize {
    type Owned = usize;

    open spec fn owned_rel(self, r: usize) -> bool {
        r == self
    }

    fn into_owned(self) -> (r: usize)
        ensures
            r == self,
    {
        self
    }
}

impl OwnablePoly for i8 {
    type Owned = i8;

    open spec fn owned_rel(self, r: i8) -> bool {
        r == self
    }

    fn into_owned(self) -> (r: i8)
        ensures
            r == self,
    {
        self
    }
}

impl OwnablePoly for i16 {
    type Owned = i16;

    open spec fn owned_rel(self, r: i16) -> bool {
        r == self
    }

    fn into_owned(self) -> (r: i16)
        ensures
            r == self,
    {
        self
    }
}

impl OwnablePoly for i32 {
    type Owned = i32;

    open spec fn owned_rel(self, r: i32) -> bool {
        r == self
    }

    fn into_owned(self) -> (r: i32)
        ensures
            r == self,
    {
        self
    }
}

impl OwnablePoly for i64 {
    type Owned = i64;

    open spec fn owned_rel(self, r: i64) -> bool {
        r == self
    }

    fn into_owned(self) -> (r: i64)
        ensures
            r == self,
    {
        self
    }
}

impl OwnablePoly for i128 {
    type Owned = i128;

    open spec fn owned_rel(self, r: i128) -> bool {
        r == self
    }

    fn into_owned(self) -> (r: i128)
        ensures
            r == self,
    {
        self
    }
}

impl OwnablePoly for isize {
    type Owned = isize;

    open spec fn owned_rel(self, r: isize) -> bool {
        r == self
    }

    fn into_owned(self) -> (r: isize)
        ensures
            r == self,
    {
        self
    }
}

impl OwnablePoly for bool {
    type Owned = bool;

    open spec fn owned_rel(self, r: bool) -> bool {
        r == self
    }

    fn into_owned(self) -> (r: bool)
        ensures
            r == self,
    {
        self
    }
}

impl OwnablePoly for char {
    type Owned = char;

    open spec fn owned_rel(self, r: char) -> bool {
        r == self
    }

    fn into_owned(self) -> (r: char)
        ensures
            r == self,
    {
        self
    }
}

impl OwnablePoly for String {
    type Owned = String;

    open spec fn owned_rel(self, r: String) -> bool {
        r == self
    }

    fn into_owned(self) -> (r: String)
        ensures
            r == self,
    {
        self
    }
}

impl<T: OwnablePoly> OwnablePoly for Vec<T> {
    type Owned = Vec<T::Owned>;

    /// The length is kept and each element stands in its own owned-form
    /// relation to the element at the same position: elementwise conversion,
    /// order preserved.
    open spec fn owned_rel(self, r: Vec<T::Owned>) -> bool {
        &&& r@.len() == self@.len()
        &&& forall|i: int| 0 <= i < self@.len() ==> self@[i].owned_rel(#[trigger] r@[i])
    }

    /// Convert each element in order.
    fn into_owned(self) -> (r: Vec<T::Owned>)
        ensures
            r@.len() == self@.len(),
    {
        let ghost orig = self@;
        let mut rest = self;
        let mut out: Vec<T::Owned> = Vec::new();
        while rest.len() > 0
            invariant
                out@.len() + rest@.len() == orig.len(),
                rest@ == orig.subrange(out@.len() as int, orig.len() as int),
                forall|j: int| 0 <= j < out@.len() ==> orig[j].owned_rel(#[trigger] out@[j]),
            decreases rest@.len(),
        {
            let ghost k = out@.len() as int;
            let x = rest.remove(0);
            proof {
                assert(x == orig[k]);
                assert(rest@ =~= orig.subrange(k + 1, orig.len() as int));
            }
            out.push(x.into_owned());
        }
        proof {
            assert(orig.subrange(orig.len() as int, orig.len() as int)
                =~= Seq::<T>::empty());
        }
        out
    }
}

impl<T: OwnablePoly> OwnablePoly for Option<T> {
    type Owned = Option<T::Owned>;

    /// The variant is kept and a payload stands in its own owned-form
    /// relation to the result's payload.
    open spec fn owned_rel(self, r: Option<T::Owned>) -> bool {
        match (self, r) {
            (Option::None, Option::None) => true,
            (Option::Some(x), Option::Some(y)) => x.owned_rel(y),
            _ => false,
        }
    }

    /// Convert the payload if one is present; the variant is preserved.
    fn into_owned(self) -> (r: Option<T::Owned>)
        ensures
            r is Some <==> self is Some,
    {
        match self {
            Option::Some(x) => Option::Some(x.into_owned()),
            Option::None => Option::None,
        }
    }
}

impl<T: OwnablePoly, E: OwnablePoly> OwnablePoly for Result<T, E> {
    type Owned = Result<T::Owned, E::Owned>;

    /// The variant is kept and whichever payload is present stands in its
    /// own owned-form relation to the result's payload.
    open spec fn owned_rel(self, r: Result<T::Owned, E::Owned>) -> bool {
        match (self, r) {
            (Result::Ok(x), Result::Ok(y)) => x.owned_rel(y),
            (Result::Err(e), Result::Err(f)) => e.owned_rel(f),
            _ => false,
        }
    }

    /// Convert whichever payload is present; the variant is preserved.
    fn into_owned(self) -> (r: Result<T::Owned, E::Owned>)
        ensures
            r is Ok <==> self is Ok,
    {
        match self {
            Result::Ok(x) => Result::Ok(x.into_owned()),
            Result::Err(e) => Result::Err(e.into_owned()),
        }
    }
}

/// An externally defined 128-bit identifier, opaque here; it holds no
/// borrowed data, so its conversion is the identity.
#[verifier::external_type_specification]
#[verifier::external_body]
pub struct ExUuid(uuid::Uuid);

impl OwnablePoly for uuid::Uuid {
    type Owned = uuid::Uuid;

    open spec fn owned_rel(self, r: uuid::Uuid) -> bool {
        r == self
    }

    fn into_owned(self) -> (r: uuid::Uuid)
        ensures
            r == self,
    {
        self
    }
}

} // verus!
