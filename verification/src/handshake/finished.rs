//! The `Finished` message.

use vstd::prelude::*;

verus! {

/// A `Finished` message.
#[derive(Debug)]
pub struct Finished {
    /// The code over the transcript; as long as a digest of the suite.
    pub verify: Vec<u8>,
    /// For a received message: the digest of the transcript before it.
    pub hash: Option<Vec<u8>>,
}

} // verus!
