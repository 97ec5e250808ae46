use vstd::prelude::*;

use rustls::pki_types::{InvalidDnsNameError, ServerName};

verus! {

#[verifier::external_type_specification]
#[verifier::external_body]
pub struct ExServerName<'a>(ServerName<'a>);

#[verifier::external_type_specification]
#[verifier::external_body]
pub struct ExInvalidDnsNameError(InvalidDnsNameError);

/// A server name was neither a DNS name nor an IP address.
#[derive(Clone, Copy, Debug, PartialEq, Eq, Structural)]
pub enum ServerNameError {
    InvalidServerName,
}

/// Whether `rustls` takes the text as a server name: a syntactically valid
/// DNS name, or an IP address.
pub uninterp spec fn is_tls_server_name(name: Seq<char>) -> bool;

/// The server name that `rustls` builds from the text, when it takes it.
pub uninterp spec fn server_name_built(name: Seq<char>) -> ServerName<'static>;

/// `ServerName::try_from(String)` of `rustls-pki-types`: the contract claims
/// that it succeeds exactly on the names of `is_tls_server_name`, and that
/// the name it builds is the named function of the text.
#[verifier::external_body]
fn server_name_try_from(name: String) -> (res: Result<ServerName<'static>, InvalidDnsNameError>)
    ensures
        res is Ok <==> is_tls_server_name(name@),
        res matches Ok(n) ==> n == server_name_built(name@),
{
    ServerName::try_from(name)
}

/// The server name that a client connection is made to, as `rustls` takes
/// it; refused when the text is neither a DNS name nor an IP address.
pub fn tls_server_name(server_name: String) -> (res: Result<ServerName<'static>, ServerNameError>)
    ensures
        res is Ok <==> is_tls_server_name(server_name@),
        res matches Ok(n) ==> n == server_name_built(server_name@),
        res is Err ==> res == Err::<ServerName<'static>, ServerNameError>(ServerNameError::InvalidServerName),
{
    match server_name_try_from(server_name) {
        Ok(name) => Ok(name),
        Err(_) => Err(ServerNameError::InvalidServerName),
    }
}

} // verus!
