use vstd::prelude::*;

verus! {

/// The logical kind of a stored secret. Used only as a discriminator when
/// building the backend key for a credential identity; never mutated.
#[derive(Clone, Copy, PartialEq, Eq, Structural, Debug)]
pub enum CredentialType {
    Password,
    Token,
    CertificateKey,
}

/// The opaque secret payload of a credential. This layer treats it as an
/// atomic blob of bytes; it round-trips byte-for-byte through store and
/// retrieve.
#[derive(Debug)]
pub struct CredentialValue {
    bytes: Vec<u8>,
}

impl View for CredentialValue {
    type V = Seq<u8>;

    closed spec fn view(&self) -> Seq<u8> {
        self.bytes@
    }
}

impl CredentialValue {
    pub fn new(bytes: Vec<u8>) -> (r: Self)
        ensures
            r@ == bytes@,
    {
        CredentialValue { bytes }
    }

    pub fn as_bytes(&self) -> (r: &Vec<u8>)
        ensures
            r@ == self@,
    {
        &self.bytes
    }

    pub fn into_bytes(self) -> (r: Vec<u8>)
        ensures
            r@ == self@,
    {
        self.bytes
    }
}

} // verus!
