use vstd::prelude::*;

verus! {

/// A sport as the odds service lists it.
pub struct Sport {
    pub key: String,
    pub active: bool,
    pub group: String,
    pub description: String,
    pub title: String,
    pub has_outrights: bool,
}

} // verus!
