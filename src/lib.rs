//! A decoder for the type signatures of component metadata: compressed integers, coded
//! indices, sorted attribute lookup, element types with generic instantiation, method
//! signatures and the type definitions a resolved type depends on.
use vstd::prelude::*;

pub mod blob;
pub mod tables;
pub mod element_type;
pub mod param;
pub mod method_signature;
pub mod decode_lemmas;

verus! {

} // verus!
