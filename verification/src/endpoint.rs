//! Parsing of the `ssh://host[:port]` endpoint into a connect target.
//!
//! The URL grammar itself is handled by the `url` crate behind one trusted
//! wrapper; everything that this library decides about the parts — the
//! scheme must be `ssh`, a host must be present, the SSH port defaults
//! to 22 — is verified here.

use vstd::prelude::*;

use crate::TunnelError;

verus! {

/// The port used when the endpoint names none.
pub const DEFAULT_SSH_PORT: u16 = 22;

/// The scheme, host and port of a URL string, as the `url` crate parses it;
/// `None` when the string is not a URL at all.
pub uninterp spec fn endpoint_parts(s: Seq<char>) -> Option<(Seq<char>, Option<Seq<char>>, Option<u16>)>;

/// The view of an optional string.
pub open spec fn opt_str_view(o: Option<String>) -> Option<Seq<char>> {
    match o {
        Some(s) => Some(s@),
        None => None,
    }
}

/// Relies on `url::Url::parse` and the accessors `Url::scheme`,
/// `Url::host_str` and `Url::port`: a URL's parse and its components are
/// functions of the input string alone.
#[verifier::external_body]
fn split_endpoint(s: &str) -> (r: Option<(String, Option<String>, Option<u16>)>)
    ensures
        (match (r, endpoint_parts(s@)) {
            (Some(t), Some(m)) => t.0@ == m.0 && opt_str_view(t.1) == m.1 && t.2 == m.2,
            (None, None) => true,
            _ => false,
        }),
{
    match url::Url::parse(s) {
        Ok(u) => Some((
            u.scheme().to_string(),
            u.host_str().map(|h| h.to_string()),
            u.port(),
        )),
        Err(_) => None,
    }
}

/// Where the SSH session is to be opened: a host name and a port.
#[derive(Clone, Debug, PartialEq)]
pub struct EndpointTarget {
    pub host: String,
    pub port: u16,
}

impl View for EndpointTarget {
    type V = (Seq<char>, u16);

    open spec fn view(&self) -> (Seq<char>, u16) {
        (self.host@, self.port)
    }
}

/// What `endpoint_target` returns for a given endpoint string: the host and
/// port of a well-formed `ssh://host[:port]` endpoint, and `InvalidEndpoint`
/// for every string that is not one.
pub open spec fn spec_endpoint_target(s: Seq<char>) -> Result<(Seq<char>, u16), TunnelError> {
    match endpoint_parts(s) {
        None => Err(TunnelError::InvalidEndpoint),
        Some(parts) => {
            if parts.0 != ("ssh")@ {
                Err(TunnelError::InvalidEndpoint)
            } else {
                match parts.1 {
                    None => Err(TunnelError::InvalidEndpoint),
                    Some(host) => Ok((
                        host,
                        match parts.2 {
                            Some(p) => p,
                            None => DEFAULT_SSH_PORT,
                        },
                    )),
                }
            }
        },
    }
}

/// Turn the configured endpoint string into the host and port to open the
/// SSH session to. Fails with `InvalidEndpoint` on anything that is not an
/// `ssh://host[:port]` URL.
pub fn endpoint_target(endpoint: &str) -> (r: Result<EndpointTarget, TunnelError>)
    ensures
        (match (r, spec_endpoint_target(endpoint@)) {
            (Ok(t), Ok(m)) => t@ == m,
            (Err(e), Err(m)) => e == m,
            _ => false,
        }),
{
    let ssh_scheme: String = "ssh".to_owned();
    match split_endpoint(endpoint) {
        None => Err(TunnelError::InvalidEndpoint),
        Some((scheme, host_opt, port_opt)) => {
            if !(scheme == ssh_scheme) {
                Err(TunnelError::InvalidEndpoint)
            } else {
                match host_opt {
                    None => Err(TunnelError::InvalidEndpoint),
                    Some(host) => {
                        let port: u16 = match port_opt {
                            Some(p) => p,
                            None => DEFAULT_SSH_PORT,
                        };
                        Ok(EndpointTarget { host, port })
                    },
                }
            }
        },
    }
}

} // verus!
