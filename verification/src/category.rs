use vstd::prelude::*;

verus! {

/// A product category.
#[derive(Clone, Debug, PartialEq, Eq)]
pub struct Category {
    pub id: i32,
    pub description: String,
}

} // verus!
