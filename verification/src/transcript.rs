//! The transcript of a handshake.

use crate::config::TlsCipherSuite;
use std::marker::PhantomData;
use vstd::prelude::*;

verus! {

/// The handshake messages so far, to be hashed with the hash of a suite.
pub struct TranscriptHash<CipherSuite: TlsCipherSuite> {
    messages: Vec<u8>,
    suite: PhantomData<CipherSuite>,
}

impl<CipherSuite: TlsCipherSuite> View for TranscriptHash<CipherSuite> {
    type V = Seq<u8>;

    closed spec fn view(&self) -> Seq<u8> {
        self.messages@
    }
}

impl<CipherSuite: TlsCipherSuite> TranscriptHash<CipherSuite> {
    /// An empty transcript.
    pub fn new() -> (r: Self)
        ensures
            r@ == Seq::<u8>::empty(),
    {
        TranscriptHash { messages: Vec::new(), suite: PhantomData }
    }

    /// Appends `data`.
    pub fn update(&mut self, data: &[u8])
        ensures
            final(self)@ == old(self)@ + data@,
    {
        self.messages.extend_from_slice(data);
        assert(self.messages@ =~= old(self).messages@ + data@);
    }

    /// The digest of the transcript as it stands; more can be appended after.
    pub fn finalize(&self) -> (r: Vec<u8>)
        ensures
            r@ == CipherSuite::spec_hash().digest_of(self@),
            r@.len() == CipherSuite::spec_hash().output_len(),
    {
        CipherSuite::hash().digest(self.messages.as_slice())
    }
}

impl<CipherSuite: TlsCipherSuite> Clone for TranscriptHash<CipherSuite> {
    fn clone(&self) -> (r: Self)
        ensures
            r@ == self@,
    {
        let mut copy = TranscriptHash::new();
        copy.update(self.messages.as_slice());
        assert(copy@ =~= self@);
        copy
    }
}

} // verus!
