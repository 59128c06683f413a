//! The stock codec-capability markers: a borrow-independent type is its own
//! serialized tag and its own decoded form, so both associated types are
//! `Self` for the primitives, owned text, containers of such types, and the
//! externally defined identifier type.

use vstd::prelude::*;

use crate::DeserializePoly;
use crate::SerializePoly;

verus! {

impl DeserializePoly for String {
    type Out = String;
}

impl SerializePoly for String {
    type Out = String;
}

impl DeserializePoly for bool {
    type Out = bool;
}

impl SerializePoly for bool {
    type Out = bool;
}

impl DeserializePoly for char {
    type Out = char;
}

impl SerializePoly for char {
    type Out = char;
}

impl DeserializePoly for u8 {
    type Out = u8;
}

impl SerializePoly for u8 {
    type Out = u8;
}

impl DeserializePoly for u16 {
    type Out = u16;
}

impl SerializePoly for u16 {
    type Out = u16;
}

impl DeserializePoly for u32 {
    type Out = u32;
}

impl SerializePoly for u32 {
    type Out = u32;
}

impl DeserializePoly for u64 {
    type Out = u64;
}

impl SerializePoly for u64 {
    type Out = u64;
}

impl DeserializePoly for u128 {
    type Out = u128;
}

impl SerializePoly for u128 {
    type Out = u128;
}

impl DeserializePoly for usize {
    type Out = usize;
}

impl SerializePoly for usize {
    type Out = usize;
}

impl DeserializePoly for i8 {
    type Out = i8;
}

impl SerializePoly for i8 {
    type Out = i8;
}

impl DeserializePoly for i16 {
    type Out = i16;
}

impl SerializePoly for i16 {
    type Out = i16;
}

impl DeserializePoly for i32 {
    type Out = i32;
}

impl SerializePoly for i32 {
    type Out = i32;
}

impl DeserializePoly for i64 {
    type Out = i64;
}

impl SerializePoly for i64 {
    type Out = i64;
}

impl DeserializePoly for i128 {
    type Out = i128;
}

impl SerializePoly for i128 {
    type Out = i128;
}

impl DeserializePoly for isize {
    type Out = isize;
}

impl SerializePoly for isize {
    type Out = isize;
}

impl<T> DeserializePoly for Vec<T> {
    type Out = Vec<T>;
}

impl<T> SerializePoly for Vec<T> {
    type Out = Vec<T>;
}

impl DeserializePoly for uuid::Uuid {
    type Out = uuid::Uuid;
}

impl SerializePoly for uuid::Uuid {
    type Out = uuid::Uuid;
}

} // verus!
