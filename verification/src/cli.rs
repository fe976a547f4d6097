//! The choice between plain HTTP and HTTPS.

use vstd::prelude::*;

verus! {

/// How the API is served.
pub enum ServeMode {
    /// HTTPS with the certificate and key in these PEM files.
    Tls { cert: String, key: String },
    /// Plain HTTP.
    Plain,
}

/// Why the service cannot decide how to serve.
#[derive(Clone, Copy, Debug, PartialEq, Eq, Structural)]
pub enum ServeModeError {
    /// Only one of the certificate and the key was given.
    IncompleteTlsPair,
}

/// What the service says when only one of the certificate and the key is given.
pub const INCOMPLETE_TLS_PAIR_MESSAGE: &'static str = "Both --tls-cert and --tls-key must be provided together";

impl ServeModeError {
    /// The error text.
    pub fn message(&self) -> (m: String)
        ensures
            m@ == INCOMPLETE_TLS_PAIR_MESSAGE@,
    {
        INCOMPLETE_TLS_PAIR_MESSAGE.to_owned()
    }
}

/// HTTPS when both a certificate and a key are given, plain HTTP when neither is, and an
/// error when only one is.
pub fn serve_mode(tls_cert: Option<String>, tls_key: Option<String>) -> (r: Result<
    ServeMode,
    ServeModeError,
>)
    ensures
        r is Ok == (tls_cert is Some == tls_key is Some),
        r matches Ok(ServeMode::Tls { cert, key }) ==> tls_cert == Some(cert) && tls_key == Some(key),
        r matches Ok(ServeMode::Plain) ==> tls_cert is None && tls_key is None,
{
    match (tls_cert, tls_key) {
        (Some(cert), Some(key)) => Ok(ServeMode::Tls { cert, key }),
        (None, None) => Ok(ServeMode::Plain),
        _ => Err(ServeModeError::IncompleteTlsPair),
    }
}

/// The address the API listens on unless told otherwise.
pub const DEFAULT_LISTEN: &'static str = "127.0.0.1:8080";

/// The largest request body accepted: large enough for a base64 video attachment.
pub const BODY_LIMIT_BYTES: usize = 300 * 1024 * 1024;

} // verus!
