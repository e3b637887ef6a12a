use vstd::prelude::*;

pub mod fw;
pub mod text;
pub mod models;
pub mod ec_sys;
pub mod ec;
pub mod dump;
pub mod ipc;
pub mod client;
pub mod frame;
pub mod names;

verus! {
} // verus!
