use vstd::prelude::*;

use crate::handshake::TlsConnectionInfo;

verus! {

/// An established TLS connection as the host keeps it. The peer's
/// certificate and the encrypted streams are given by their resource
/// handles.
pub struct HostConnection {
    pub cipher_suite: u16,
    pub peer_certificate: Option<u32>,
    pub negotiated_alpn: Option<Vec<u8>>,
    pub input: u32,
    pub output: u32,
    pub closed: bool,
}

/// `after` is `before` once its peer certificate handle `cert` has been
/// handed out: nothing else about the connection changed.
pub open spec fn peer_certificate_handed_out(
    before: HostConnection,
    after: HostConnection,
    cert: Option<u32>,
) -> bool {
    &&& cert == before.peer_certificate
    &&& after.peer_certificate is None
    &&& after.cipher_suite == before.cipher_suite
    &&& after.negotiated_alpn == before.negotiated_alpn
    &&& after.input == before.input
    &&& after.output == before.output
    &&& after.closed == before.closed
}

/// The peer's certificate is handed out at most once: asking a second time
/// gives nothing.
pub proof fn lemma_peer_certificate_handed_out_once(
    first: HostConnection,
    second: HostConnection,
    third: HostConnection,
    cert1: Option<u32>,
    cert2: Option<u32>,
)
    requires
        peer_certificate_handed_out(first, second, cert1),
        peer_certificate_handed_out(second, third, cert2),
    ensures
        cert1 == first.peer_certificate,
        cert2 is None,
        third.cipher_suite == first.cipher_suite,
        third.negotiated_alpn == first.negotiated_alpn,
{
}

impl HostConnection {
    /// The connection that a completed handshake yields: what the
    /// handshake negotiated, the handle under which the host stored the
    /// peer's certificate (if it sent one), and the handles of the
    /// decrypted input and output streams. It starts open.
    pub fn from_handshake(
        info: TlsConnectionInfo,
        peer_certificate: Option<u32>,
        input: u32,
        output: u32,
    ) -> (conn: HostConnection)
        ensures
            conn.cipher_suite == info.cipher_suite,
            conn.peer_certificate == peer_certificate,
            conn.negotiated_alpn == info.negotiated_alpn,
            conn.input == input,
            conn.output == output,
            !conn.closed,
    {
        HostConnection {
            cipher_suite: info.cipher_suite,
            peer_certificate,
            negotiated_alpn: info.negotiated_alpn,
            input,
            output,
            closed: false,
        }
    }

    /// The negotiated cipher suite.
    pub fn cipher_suite(&self) -> (suite: u16)
        ensures
            suite == self.cipher_suite,
    {
        self.cipher_suite
    }

    /// Hands out the peer's certificate handle. The handle is given out
    /// once: the connection no longer holds it afterwards.
    pub fn peer_certificate(&mut self) -> (cert: Option<u32>)
        ensures
            peer_certificate_handed_out(*old(self), *final(self), cert),
    {
        self.peer_certificate.take()
    }
}

} // verus!
