use vstd::prelude::*;

pub mod typedvalue;

verus! {

/// A key type together with the type of the values stored under it.
///
/// A table holds one key type and its value type, fixed at compile time.
pub trait TypedMap: Eq + std::hash::Hash {
    type Value;
}

} // verus!
