use vstd::prelude::*;

pub mod app;
pub mod cli;
pub mod gnss;
pub mod input;
pub mod layout;
pub mod nmea;
pub mod setup;
pub mod signals;
pub mod source_setup;
pub mod text;

verus! {

} // verus!
