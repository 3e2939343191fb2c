use vstd::prelude::*;

pub mod api;
pub mod app;
pub mod cache;
pub mod models;
pub mod ui;

verus! {

} // verus!
