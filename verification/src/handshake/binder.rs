//! Binders of pre-shared keys.

use vstd::prelude::*;

verus! {

/// The binder of a pre-shared key: a code over the truncated `ClientHello`.
#[derive(Debug)]
pub struct PskBinder {
    pub verify: Vec<u8>,
}

} // verus!
