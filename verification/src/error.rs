use vstd::prelude::*;

verus! {

/// Error codes reported to the guest by TLS operations.
#[derive(Clone, Copy, Debug, PartialEq, Eq, Structural)]
pub enum ErrorCode {
    /// The operation cannot complete yet; poll and call it again.
    WouldBlock,
    /// The TLS handshake failed.
    HandshakeFailure,
    /// The peer's certificate, or our own identity, is unusable.
    CertificateInvalid,
    /// The server name does not fit the connection.
    HostnameMismatch,
    /// The resource is not in a state that allows the operation.
    InternalError,
}

/// A certificate's DER bytes could not be parsed as an X.509 certificate;
/// the text is the parser's error.
#[derive(Clone, Debug, PartialEq, Eq)]
pub enum CertificateError {
    Malformed(String),
}

/// A private identity holds no certificate.
#[derive(Clone, Copy, Debug, PartialEq, Eq, Structural)]
pub enum IdentityError {
    NoCertificateInChain,
}

} // verus!
