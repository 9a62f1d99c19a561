//! Verified core of the NRI sensing rig software.
use vstd::prelude::*;

pub mod text;
pub mod park;
pub mod optoforce;
pub mod flow;
pub mod flow_parse;
pub mod flow_run;
pub mod flow_laws;
pub mod scribe;
pub mod mpmc;
pub mod channel;
pub mod structure;
pub mod bluefox;
pub mod utils;
pub mod comms;
pub mod supervisor;
pub mod web;
pub mod cli;
pub mod packet;
pub mod transfer;
pub mod render;

verus! {
} // verus!
