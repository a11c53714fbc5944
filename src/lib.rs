use vstd::prelude::*;

pub mod app;
pub mod config_manager;
pub mod display;
pub mod handle;
pub mod laws;
pub mod menu;
pub mod timer;

verus! {

} // verus!
