//! Where a request that arrives over plain HTTP is sent.

use vstd::prelude::*;
use vstd::string::StringExecFns;
use crate::helpers::text::{decimal, decimal_text, replace_text, replaced};

verus! {

/// The ports on which the service listens.
#[derive(Debug, Clone, Copy, PartialEq, Eq, Structural)]
pub struct Ports {
    pub http: u16,
    pub https: u16,
}

/// What an address over HTTPS begins with.
pub const HTTPS_PREFIX: &'static str = "https://";

/// The path of a request that names none.
pub const ROOT_PATH: &'static str = "/";

/// The host under which the service is reached over HTTPS: the host of the
/// request, with the HTTP port replaced by the HTTPS port wherever its
/// digits stand.
pub open spec fn https_host(host: Seq<char>, ports: Ports) -> Seq<char> {
    replaced(host, decimal(ports.http as nat), decimal(ports.https as nat))
}

/// The address over HTTPS that answers a request for `path_and_query` at
/// `host`; a request without a path is sent to the root.
pub open spec fn https_location(
    host: Seq<char>,
    path_and_query: Option<Seq<char>>,
    ports: Ports,
) -> Seq<char> {
    HTTPS_PREFIX@ + https_host(host, ports) + match path_and_query {
        Some(p) => p,
        None => ROOT_PATH@,
    }
}

/// The address over HTTPS to which a request over HTTP is redirected.
pub fn make_https(host: &str, path_and_query: Option<&str>, ports: Ports) -> (r: String)
    ensures
        r@ == https_location(host@, crate::upload::opt_str(path_and_query), ports),
{
    let from = decimal_text(ports.http as usize);
    let to = decimal_text(ports.https as usize);
    let https_host = replace_text(host, from.as_str(), to.as_str());
    let mut location = String::from_str(HTTPS_PREFIX);
    location.append(https_host.as_str());
    match path_and_query {
        Some(p) => {
            location.append(p);
        },
        None => {
            location.append(ROOT_PATH);
        },
    }
    location
}

} // verus!
