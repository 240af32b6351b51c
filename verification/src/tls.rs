use vstd::prelude::*;

verus! {

/// The certificate material a session is built with, as already-loaded
/// bytes. Reading the files is the caller's business.
pub struct TlsMaterial {
    /// The certificate-authority certificate.
    pub ca: Vec<u8>,
    /// Client certificate and client private key, in that order, when
    /// mutual TLS is wanted.
    pub client_auth: Option<(Vec<u8>, Vec<u8>)>,
}

/// Decide the transport security from the configured certificate material.
///
/// No CA certificate means an unencrypted connection. With a CA certificate
/// the session uses TLS, and mutual TLS exactly when both a client key and
/// a client certificate are configured; a lone key or certificate is
/// ignored.
pub fn plan_tls(
    ca_cert: Option<Vec<u8>>,
    client_key: Option<Vec<u8>>,
    client_cert: Option<Vec<u8>>,
) -> (r: Option<TlsMaterial>)
    ensures
        ca_cert is None ==> r is None,
        ca_cert matches Some(ca) ==> (r matches Some(m) && m.ca@ == ca@ && (match (
            client_cert,
            client_key,
        ) {
            (Some(cert), Some(key)) => m.client_auth matches Some(auth) && auth.0@ == cert@
                && auth.1@ == key@,
            _ => m.client_auth is None,
        })),
{
    match ca_cert {
        None => None,
        Some(ca) => {
            let client_auth = match (client_cert, client_key) {
                (Some(cert), Some(key)) => Some((cert, key)),
                _ => None,
            };
            Some(TlsMaterial { ca, client_auth })
        },
    }
}

} // verus!
