use vstd::prelude::*;

use crate::certificate::HostCertificate;
use crate::error::IdentityError;

verus! {

/// A DER-encoded private key, in one of the encodings TLS libraries read.
pub enum PrivateKey {
    Pkcs1(Vec<u8>),
    Sec1(Vec<u8>),
    Pkcs8(Vec<u8>),
}

/// A private identity: a certificate chain, leaf first, and the private key
/// that belongs to the leaf.
pub struct HostPrivateIdentity {
    pub cert_chain: Vec<Vec<u8>>,
    pub private_key: PrivateKey,
}

impl HostPrivateIdentity {
    /// The identity's own (leaf) certificate, as a new certificate that has
    /// not been parsed yet; refused when the chain is empty.
    pub fn certificate(&self) -> (res: Result<HostCertificate, IdentityError>)
        ensures
            match res {
                Ok(cert) => self.cert_chain@.len() > 0 && cert.der() == self.cert_chain@[0]@
                    && !cert.is_parsed(),
                Err(e) => self.cert_chain@.len() == 0 && e == IdentityError::NoCertificateInChain,
            },
    {
        if self.cert_chain.len() == 0 {
            return Err(IdentityError::NoCertificateInChain);
        }
        let leaf: Vec<u8> = vstd::slice::slice_to_vec(self.cert_chain[0].as_slice());
        Ok(HostCertificate::new(leaf))
    }
}

} // verus!
