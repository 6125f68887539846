use vstd::prelude::*;

verus! {

/// A stored preference of the service.
#[derive(Clone, Debug, PartialEq, Eq)]
pub struct Preference {
    pub key: i32,
    pub value: String,
}

} // verus!
