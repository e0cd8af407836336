//! Finding the URL of the Freebox API.
use crate::mappers::lan::LanConfig;
use crate::mappers::opt_text;
use crate::text::{concat, int_to_decimal, nat_to_decimal, i64_to_decimal, to_lowercase, u64_to_decimal, unicode_lowercase, str_eq};
use crate::transport::{succeeded, FreeboxResponse, FreeboxResponseError};
use vstd::prelude::*;

verus! {

/// What `/api_version` tells of the box and of its API.
#[derive(Clone, Debug)]
pub struct ApiVersion {
    pub box_model_name: String,
    pub api_base_url: String,
    pub https_port: i32,
    pub device_name: String,
    pub https_available: bool,
    pub box_model: String,
    pub api_domain: String,
    pub uid: String,
    pub api_version: String,
    pub device_type: String,
}

/// The host name the Freebox answers to on its own network.
pub const DEFAULT_FBX_HOST: &'static str = "mafreebox.freebox.fr";

/// The scheme for a connection with or without TLS.
pub open spec fn scheme(tls: bool) -> Seq<char> {
    if tls { "https"@ } else { "http"@ }
}

/// The address of `/api_version` on `host`:`port`.
pub fn api_version_url(host: &str, port: u16, use_ssl: bool) -> (u: String)
    ensures
        u@ == scheme(use_ssl) + "://"@ + host@ + ":"@ + nat_to_decimal(port as nat) + "/api_version"@,
{
    let mut u = String::from_str(if use_ssl { "https" } else { "http" });
    u.append("://");
    u.append(host);
    u.append(":");
    u.append(u64_to_decimal(port as u64).as_str());
    u.append("/api_version");
    u
}

/// The API URL `/api_version` describes: over HTTPS on the box's HTTPS port when it
/// offers HTTPS, else over HTTP on the port that was asked.
pub fn api_url_from_version(v: &ApiVersion, port: u16) -> (u: String)
    ensures
        u@ == scheme(v.https_available) + "://"@ + v.api_domain@ + ":"@
            + (if v.https_available { int_to_decimal(v.https_port as int) } else { int_to_decimal(port as int) })
            + v.api_base_url@,
{
    let api_port: i64 = if v.https_available { v.https_port as i64 } else { port as i64 };
    let mut u = String::from_str(if v.https_available { "https" } else { "http" });
    u.append("://");
    u.append(v.api_domain.as_str());
    u.append(":");
    u.append(i64_to_decimal(api_port).as_str());
    u.append(v.api_base_url.as_str());
    u
}

/// The API URL on the box's own host name.
pub fn get_static_api_url() -> (r: Result<String, FreeboxResponseError>)
    ensures
        r matches Ok(u) && u@ == "https://"@ + DEFAULT_FBX_HOST@ + "/api/"@,
{
    let head = concat("https://", DEFAULT_FBX_HOST);
    Ok(concat(head.as_str(), "/api/"))
}

/// Where the API URL comes from, for a network mode.
#[derive(Clone, Copy, Debug, PartialEq, Eq, Structural)]
pub enum ApiUrlSource {
    /// Bridge mode: the box's own host name.
    Static,
    /// Router mode: what `/api_version` on the box's host name says.
    Discovered,
    /// Any other mode: no URL (empty).
    Unknown,
}

/// The source of the API URL for a network mode, compared in lower case.
pub fn api_url_source(mode: &str) -> (s: ApiUrlSource)
    ensures
        unicode_lowercase(mode@) == "bridge"@ ==> s == ApiUrlSource::Static,
        unicode_lowercase(mode@) == "router"@ ==> s == ApiUrlSource::Discovered,
        unicode_lowercase(mode@) != "bridge"@ && unicode_lowercase(mode@) != "router"@ ==> s == ApiUrlSource::Unknown,
{
    let m = to_lowercase(mode);
    proof {
        reveal_strlit("bridge");
        reveal_strlit("router");
        assert("bridge"@[0] != "router"@[0]);
    }
    if str_eq(m.as_str(), "bridge") {
        ApiUrlSource::Static
    } else if str_eq(m.as_str(), "router") {
        ApiUrlSource::Discovered
    } else {
        ApiUrlSource::Unknown
    }
}

/// The network mode in a LAN configuration answer (empty when not given); a failed
/// answer gives its message.
pub fn network_mode_of(resp: FreeboxResponse<LanConfig>) -> (r: Result<String, FreeboxResponseError>)
    requires
        succeeded(resp) ==> resp.result is Some,
    ensures
        !succeeded(resp) ==> (r matches Err(e) && e.reason@ == opt_text(resp.msg)),
        succeeded(resp) ==> (r matches Ok(m) && m@ == opt_text(resp.result.unwrap().mode)),
{
    let ok = match resp.success {
        Some(b) => b,
        None => false,
    };
    if !ok {
        return Err(FreeboxResponseError::new(match resp.msg {
            Some(m) => m,
            None => String::new(),
        }));
    }
    let cfg = resp.result.unwrap();
    Ok(match cfg.mode {
        Some(m) => m,
        None => String::new(),
    })
}

}
