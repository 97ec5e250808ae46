use vstd::prelude::*;

use crate::error::ErrorCode;

verus! {

/// Whether the TLS handshake of a client or server has been handed its
/// transport streams.
#[derive(Clone, Copy, Debug, PartialEq, Eq, Structural)]
pub enum HandshakeStatus {
    /// `finish` has not been called yet: the transport streams are still held.
    NotStarted,
    /// The handshake runs on the transport streams; its outcome has not
    /// been taken yet.
    InProgress,
    /// The handshake's outcome has been taken: it was established, it
    /// failed, or it was found already taken.
    Concluded,
}

/// How far the handshake is once a poll gave `outcome`: only a pending
/// handshake keeps running.
pub open spec fn status_after_poll(outcome: HandshakeOutcome) -> HandshakeStatus {
    if outcome == HandshakeOutcome::Pending {
        HandshakeStatus::InProgress
    } else {
        HandshakeStatus::Concluded
    }
}

/// What polling a started handshake gave.
#[derive(Clone, Copy, Debug, PartialEq, Eq, Structural)]
pub enum HandshakeOutcome {
    /// The handshake completed; the host has created the connection resources.
    Established,
    /// The handshake ended with this error.
    Failed(ErrorCode),
    /// The handshake has not finished yet.
    Pending,
    /// The handshake's result was already taken by an earlier poll.
    Consumed,
}

/// The answer that a poll of a started handshake gives to the guest, when
/// the resource is still being configured.
pub open spec fn poll_answer(outcome: HandshakeOutcome) -> Result<(), ErrorCode> {
    match outcome {
        HandshakeOutcome::Established => Ok(()),
        HandshakeOutcome::Failed(code) => Err(code),
        HandshakeOutcome::Pending => Err(ErrorCode::WouldBlock),
        HandshakeOutcome::Consumed => Err(ErrorCode::InternalError),
    }
}

/// Maps a handshake poll to the guest's answer.
pub fn answer_poll(outcome: HandshakeOutcome) -> (res: Result<(), ErrorCode>)
    ensures
        res == poll_answer(outcome),
{
    match outcome {
        HandshakeOutcome::Established => Ok(()),
        HandshakeOutcome::Failed(code) => Err(code),
        HandshakeOutcome::Pending => Err(ErrorCode::WouldBlock),
        HandshakeOutcome::Consumed => Err(ErrorCode::InternalError),
    }
}

/// Information about an established TLS connection.
pub struct TlsConnectionInfo {
    /// The negotiated cipher suite (as a u16 value).
    pub cipher_suite: u16,
    /// The DER bytes of the peer's certificate (if any).
    pub peer_certificate: Option<Vec<u8>>,
    /// The negotiated ALPN protocol (if any).
    pub negotiated_alpn: Option<Vec<u8>>,
}

} // verus!
