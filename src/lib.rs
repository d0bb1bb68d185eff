//! Single-shot acquisition of one workshop item: the input parser, the
//! resolver's selection rule, the progress computation, the exactly-once
//! completion dispatcher and the acquisition state machine that ties them
//! together. The service session and the event pump live with the caller.
use vstd::prelude::*;

pub mod error;
pub mod input;
pub mod progress;
pub mod resolver;
pub mod dispatcher;
pub mod controller;

verus! {

} // verus!
