//! Where decrypted application data lies.

use vstd::prelude::*;

verus! {

/// The part of the read buffer that holds decrypted application data.
#[derive(Debug, Clone, Copy, PartialEq, Eq, Structural)]
pub struct DecryptedBufferInfo {
    /// Where in the buffer the data starts.
    pub offset: usize,
    /// How much data there is.
    pub len: usize,
    /// How much of it was handed out.
    pub consumed: usize,
}

} // verus!
