use freebox_exporter::capabilities::{capabilities_from, lan_mode_result, wifi_enabled_result, LanModeConfig};
use freebox_exporter::discovery::{
    api_url_from_version, api_url_source, api_version_url, get_static_api_url, network_mode_of, ApiUrlSource, ApiVersion,
};
use freebox_exporter::mappers::lan::LanConfig;
use freebox_exporter::mappers::wifi::WifiConfig;
use freebox_exporter::transport::FreeboxResponse;

fn version(https: bool) -> ApiVersion {
    ApiVersion {
        box_model_name: "Freebox v8 (r1)".to_string(),
        api_base_url: "/api/".to_string(),
        https_port: 61406,
        device_name: "Freebox Server".to_string(),
        https_available: https,
        box_model: "fbxgw8-r1".to_string(),
        api_domain: "127.0.0.1".to_string(),
        uid: "00000000000000000000000000000000".to_string(),
        api_version: "12.2".to_string(),
        device_type: "FreeboxServer8,1".to_string(),
    }
}

#[test]
fn get_api_url_test() {
    assert_eq!(api_url_from_version(&version(true), 8080), "https://127.0.0.1:61406/api/");
}

#[test]
fn api_url_without_https_keeps_the_port_asked() {
    assert_eq!(api_url_from_version(&version(false), 8080), "http://127.0.0.1:8080/api/");
    assert_eq!(api_version_url("127.0.0.1", 443, true), "https://127.0.0.1:443/api_version");
    assert_eq!(api_version_url("box", 80, false), "http://box:80/api_version");
}

#[test]
fn static_url_and_mode() {
    assert_eq!(get_static_api_url().unwrap(), "https://mafreebox.freebox.fr/api/");
    assert_eq!(api_url_source("bridge"), ApiUrlSource::Static);
    assert_eq!(api_url_source("Router"), ApiUrlSource::Discovered);
    assert_eq!(api_url_source("ROUTER"), ApiUrlSource::Discovered);
    assert_eq!(api_url_source(""), ApiUrlSource::Unknown);
    let lan = LanConfig { name_dns: None, name_mdns: None, name: None, mode: Some("router".to_string()), name_netbios: None, ip: None };
    let r: FreeboxResponse<LanConfig> = FreeboxResponse { msg: None, success: Some(true), uid: None, error_code: None, result: Some(lan) };
    assert_eq!(network_mode_of(r).unwrap(), "router");
    let r: FreeboxResponse<LanConfig> = FreeboxResponse { msg: Some("nope".to_string()), success: None, uid: None, error_code: None, result: None };
    assert_eq!(network_mode_of(r).err().unwrap().reason, "nope");
}

#[test]
fn capabilities_follow_the_network_mode() {
    let c = capabilities_from(Some("RouTer".to_string()), false);
    assert_eq!((c.connection, c.system, c.lan), (Some(true), Some(true), Some(true)));
    assert_eq!((c.lan_browser, c.switch, c.dhcp, c.wifi), (Some(true), Some(true), Some(true), Some(false)));
    let c = capabilities_from(Some("bridge".to_string()), true);
    assert_eq!((c.lan_browser, c.switch, c.dhcp, c.wifi), (Some(false), Some(false), Some(false), Some(true)));
    assert_eq!(c.network_mode.as_deref(), Some("bridge"));
    let c = capabilities_from(None, true);
    assert_eq!(c.lan_browser, Some(false));

    let r: FreeboxResponse<LanModeConfig> = FreeboxResponse { msg: None, success: Some(true), uid: None, error_code: None, result: None };
    assert_eq!(lan_mode_result(r).err().unwrap().reason, "Missing LAN config");
    let r: FreeboxResponse<WifiConfig> = FreeboxResponse { msg: None, success: Some(true), uid: None, error_code: None, result: None };
    assert_eq!(wifi_enabled_result(r).err().unwrap().reason, "Missing WiFi config");
    let cfg = WifiConfig { enabled: None, power_saving: None, expected_phys: None, mac_filter_state: None };
    let r: FreeboxResponse<WifiConfig> = FreeboxResponse { msg: None, success: Some(true), uid: None, error_code: None, result: Some(cfg) };
    assert_eq!(wifi_enabled_result(r).unwrap(), false);
}
