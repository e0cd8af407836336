//! What the Freebox can report, learnt from its LAN and Wi-Fi configurations.
use crate::mappers::opt_text;
use crate::mappers::wifi::WifiConfig;
use crate::text::{eq_ignore_ascii_case, eq_ignore_ascii_case_spec};
use crate::transport::{succeeded, FreeboxResponse, FreeboxResponseError};
use vstd::prelude::*;

verus! {

/// The part of the LAN configuration that tells the network mode.
#[derive(Clone, Debug)]
pub struct LanModeConfig {
    pub mode: Option<String>,
}

/// Which metric maps the box can feed, and its network mode.
#[derive(Clone, Debug)]
pub struct Capabilities {
    pub connection: Option<bool>,
    pub system: Option<bool>,
    pub lan: Option<bool>,
    pub lan_browser: Option<bool>,
    pub switch: Option<bool>,
    pub wifi: Option<bool>,
    pub dhcp: Option<bool>,
    pub network_mode: Option<String>,
}

/// The box runs as a router: its mode, empty when unknown, is "router" in any ASCII case.
pub open spec fn is_router(mode: Option<String>) -> bool {
    eq_ignore_ascii_case_spec(opt_text(mode), "router"@)
}

/// The capabilities of a box in network mode `mode`, with Wi-Fi enabled or not:
/// connection, system and LAN always; LAN browser, switch and DHCP in router mode;
/// Wi-Fi when enabled.
pub fn capabilities_from(mode: Option<String>, wifi_enabled: bool) -> (c: Capabilities)
    ensures
        c.connection == Some(true),
        c.system == Some(true),
        c.lan == Some(true),
        c.lan_browser == Some(is_router(mode)),
        c.switch == Some(is_router(mode)),
        c.dhcp == Some(is_router(mode)),
        c.wifi == Some(wifi_enabled),
        c.network_mode == mode,
{
    let router = match &mode {
        Some(m) => eq_ignore_ascii_case(m.as_str(), "router"),
        None => false,
    };
    proof {
        reveal_strlit("router");
    }
    Capabilities {
        connection: Some(true),
        system: Some(true),
        lan: Some(true),
        lan_browser: Some(router),
        switch: Some(router),
        wifi: Some(wifi_enabled),
        dhcp: Some(router),
        network_mode: mode,
    }
}

/// The network mode in a LAN configuration answer; a failed answer gives its message,
/// one without payload says the LAN configuration is missing.
pub fn lan_mode_result(resp: FreeboxResponse<LanModeConfig>) -> (r: Result<Option<String>, FreeboxResponseError>)
    ensures
        !succeeded(resp) ==> (r matches Err(e) && e.reason@ == opt_text(resp.msg)),
        succeeded(resp) && resp.result is None ==> (r matches Err(e) && e.reason@ == "Missing LAN config"@),
        succeeded(resp) && resp.result is Some ==> r == Ok::<Option<String>, FreeboxResponseError>(resp.result.unwrap().mode),
{
    match crate::transport::expect_result(resp, String::from_str("Missing LAN config")) {
        Ok(c) => Ok(c.mode),
        Err(e) => Err(e),
    }
}

/// Whether a Wi-Fi configuration answer says Wi-Fi is enabled (absent counts as not);
/// a failed answer gives its message, one without payload says the Wi-Fi configuration
/// is missing.
pub fn wifi_enabled_result(resp: FreeboxResponse<WifiConfig>) -> (r: Result<bool, FreeboxResponseError>)
    ensures
        !succeeded(resp) ==> (r matches Err(e) && e.reason@ == opt_text(resp.msg)),
        succeeded(resp) && resp.result is None ==> (r matches Err(e) && e.reason@ == "Missing WiFi config"@),
        succeeded(resp) && resp.result is Some ==> r == Ok::<bool, FreeboxResponseError>(resp.result.unwrap().enabled == Some(true)),
{
    match crate::transport::expect_result(resp, String::from_str("Missing WiFi config")) {
        Ok(c) => Ok(match c.enabled {
            Some(b) => b,
            None => false,
        }),
        Err(e) => Err(e),
    }
}

}
