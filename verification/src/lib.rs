use vstd::prelude::*;

pub mod config;
pub mod error;
pub mod fresh;
pub mod geocoding;
pub mod geometry;
pub mod google_maps;
pub mod laws;
pub mod models;
pub mod ranking;
pub mod recommendations;
pub mod session;
pub mod store;
pub mod text;
pub mod validation;
pub mod world;

verus! {

} // verus!
