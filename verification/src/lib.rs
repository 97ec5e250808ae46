//! Host-side state machines and resource logic for the `wasi:tls` interface.
//!
//! The types here hold what a host keeps for each TLS resource handed to a
//! guest: clients and servers being configured, established connections,
//! certificates and private identities. Every operation is a verified
//! function whose contract states how it answers and how it changes the
//! resource; what the outside parsers compute is stated through named
//! functions of their input.

pub mod alpn;
pub mod certificate;
pub mod client;
pub mod connection;
pub mod error;
pub mod handshake;
pub mod identity;
pub mod server;
pub mod server_name;

pub use alpn::alpn_protocol_ids;
pub use certificate::{AltName, HostCertificate, ParsedCertificate};
pub use client::{ClientFinish, ClientState, HostClient};
pub use connection::HostConnection;
pub use error::{CertificateError, ErrorCode, IdentityError};
pub use identity::{HostPrivateIdentity, PrivateKey};
pub use server::{HostServer, ServerFinish, ServerState};
pub use server_name::{tls_server_name, ServerNameError};
pub use handshake::{answer_poll, HandshakeOutcome, HandshakeStatus, TlsConnectionInfo};
