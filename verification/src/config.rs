//! Network configuration: Wi-Fi station credentials, optional static addressing, the mDNS
//! host name and the fallback access point.
use crate::storage::WifiCredentials;
use vstd::prelude::*;
use vstd::string::StringExecFns;

verus! {

pub fn default_mdns_hostname() -> (s: String)
    ensures
        s@ == "ac-scheduler"@,
{
    String::from_str("ac-scheduler")
}

pub fn default_ap_ssid() -> (s: String)
    ensures
        s@ == "AC-Scheduler-Setup"@,
{
    String::from_str("AC-Scheduler-Setup")
}

pub fn default_ap_password() -> (s: String)
    ensures
        s@ == "acsetup01"@,
{
    String::from_str("acsetup01")
}

/// Wi-Fi settings.
#[derive(Debug)]
pub struct WifiSettings {
    pub ssid: String,
    pub password: String,
    pub static_ip: Option<String>,
    pub gateway: Option<String>,
    pub subnet: Option<String>,
    pub dns: Option<String>,
    pub mdns_hostname: String,
    pub ap_ssid: String,
    pub ap_password: String,
}

fn clone_opt(s: &Option<String>) -> (c: Option<String>)
    ensures
        c == *s,
{
    match s {
        Some(v) => Some(v.clone()),
        None => None,
    }
}

impl Clone for WifiSettings {
    fn clone(&self) -> (c: Self)
        ensures
            c == *self,
    {
        WifiSettings {
            ssid: self.ssid.clone(),
            password: self.password.clone(),
            static_ip: clone_opt(&self.static_ip),
            gateway: clone_opt(&self.gateway),
            subnet: clone_opt(&self.subnet),
            dns: clone_opt(&self.dns),
            mdns_hostname: self.mdns_hostname.clone(),
            ap_ssid: self.ap_ssid.clone(),
            ap_password: self.ap_password.clone(),
        }
    }
}

pub open spec fn opt_view(s: Option<String>) -> Option<Seq<char>> {
    match s {
        Some(v) => Some(v@),
        None => None,
    }
}

/// The built-in settings: placeholder credentials, static address 192.168.0.93 behind the
/// gateway 192.168.0.1 on a /24, and the default host name and access point.
pub open spec fn is_default_wifi(w: WifiSettings) -> bool {
    &&& w.ssid@ == "Your_WiFi_SSID"@
    &&& w.password@ == "Your_WiFi_Password"@
    &&& opt_view(w.static_ip) == Some("192.168.0.93"@)
    &&& opt_view(w.gateway) == Some("192.168.0.1"@)
    &&& opt_view(w.subnet) == Some("255.255.255.0"@)
    &&& opt_view(w.dns) == Some("192.168.0.1"@)
    &&& w.mdns_hostname@ == "ac-scheduler"@
    &&& w.ap_ssid@ == "AC-Scheduler-Setup"@
    &&& w.ap_password@ == "acsetup01"@
}

impl Default for WifiSettings {
    fn default() -> (w: Self)
        ensures
            is_default_wifi(w),
    {
        WifiSettings {
            ssid: String::from_str("Your_WiFi_SSID"),
            password: String::from_str("Your_WiFi_Password"),
            static_ip: Some(String::from_str("192.168.0.93")),
            gateway: Some(String::from_str("192.168.0.1")),
            subnet: Some(String::from_str("255.255.255.0")),
            dns: Some(String::from_str("192.168.0.1")),
            mdns_hostname: default_mdns_hostname(),
            ap_ssid: default_ap_ssid(),
            ap_password: default_ap_password(),
        }
    }
}

/// The controller configuration.
#[derive(Debug)]
pub struct AppConfig {
    pub wifi: WifiSettings,
}

impl Clone for AppConfig {
    fn clone(&self) -> (c: Self)
        ensures
            c == *self,
    {
        AppConfig { wifi: self.wifi.clone() }
    }
}

impl Default for AppConfig {
    fn default() -> (c: Self)
        ensures
            is_default_wifi(c.wifi),
    {
        AppConfig { wifi: WifiSettings::default() }
    }
}

/// Whether the settings ask for a static address: address, gateway and subnet mask all set.
pub fn wants_static_ip(w: &WifiSettings) -> (b: bool)
    ensures
        b == (w.static_ip is Some && w.gateway is Some && w.subnet is Some),
{
    w.static_ip.is_some() && w.gateway.is_some() && w.subnet.is_some()
}

/// The station credentials to connect with, as (SSID, password): those stored at run time
/// when a read of them found some, and otherwise those of the configuration.
pub open spec fn spec_wifi_credentials(
    loaded: Result<Option<WifiCredentials>, String>,
    config: WifiSettings,
) -> (Seq<char>, Seq<char>) {
    match loaded {
        Ok(Some(c)) => (c.ssid@, c.password@),
        _ => (config.ssid@, config.password@),
    }
}

/// Picks the station credentials: the stored ones when the read of them (`loaded`) found
/// some, the configured ones when there are none or the read failed.
pub fn wifi_credentials(loaded: &Result<Option<WifiCredentials>, String>, config: &WifiSettings) -> (r: (
    String,
    String,
))
    ensures
        (r.0@, r.1@) == spec_wifi_credentials(*loaded, *config),
{
    match loaded {
        Ok(Some(c)) => (c.ssid.clone(), c.password.clone()),
        _ => (config.ssid.clone(), config.password.clone()),
    }
}

/// Stored credentials win whenever a read of them found some; without them, or when the
/// read failed, the configured SSID and password are used.
pub proof fn law_stored_credentials_win(
    c: WifiCredentials,
    e: String,
    config: WifiSettings,
)
    ensures
        spec_wifi_credentials(Ok(Some(c)), config) == (c.ssid@, c.password@),
        spec_wifi_credentials(Ok(None), config) == (config.ssid@, config.password@),
        spec_wifi_credentials(Err(e), config) == (config.ssid@, config.password@),
{
}

} // verus!
