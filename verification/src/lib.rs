#![verifier::loop_isolation(false)]

pub mod archive;
pub mod bytes;
pub mod command;
pub mod config;
pub mod error;
pub mod lit;
pub mod lookup;
pub mod transfer;
pub mod tokenize;

use vstd::prelude::*;

verus! {

} // verus!
