//! What a client connection is set up with.
use std::time::Duration;

use vstd::prelude::*;

verus! {

#[derive(Debug, Clone, Copy)]
pub struct Config {
    pub timeout: Duration,
    /// if the limit is 0 there is no limit
    pub body_limit: usize,
}

} // verus!
