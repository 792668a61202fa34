//! Server settings, and the defaults that fill in what is not set.
use vstd::prelude::*;
use vstd::string::*;

use crate::text::{decimal, decimal_string, parse_u16, parse_u16_spec, parse_u64, parse_u64_spec};

verus! {

/// The server's settings.
#[derive(Debug, Clone)]
pub struct AppConfig {
    pub host: String,
    pub port: u16,
    pub db_path: String,
    pub admin_password: String,
    /// Pinata token, for IPFS deploys.
    pub pinata_jwt: Option<String>,
    pub ipfs_api_url: Option<String>,
    /// ArDrive Turbo key, for Arweave deploys.
    pub arweave_api_key: Option<String>,
    /// Lighthouse key, for Filecoin deploys.
    pub lighthouse_api_key: Option<String>,
    /// The gateway that serves IPFS content, followed by the CID.
    pub ipfs_gateway: String,
    /// The gateway that serves Arweave transactions.
    pub arweave_gateway_url: Option<String>,
    /// The gateway that serves Filecoin content, followed by the CID.
    pub filecoin_gateway: String,
    /// The largest upload accepted, in megabytes.
    pub max_upload_mb: u64,
}

/// The settings as read from the environment, each absent one `None`.
pub struct ConfigVars {
    pub host: Option<String>,
    pub port: Option<String>,
    pub db_path: Option<String>,
    pub admin_password: String,
    pub pinata_jwt: Option<String>,
    pub ipfs_api_url: Option<String>,
    pub arweave_api_key: Option<String>,
    pub lighthouse_api_key: Option<String>,
    pub ipfs_gateway: Option<String>,
    pub arweave_gateway_url: Option<String>,
    pub filecoin_gateway: Option<String>,
    pub max_upload_mb: Option<String>,
}

/// The address bound when no host is set: every interface.
pub fn default_host() -> (r: String)
    ensures
        r@ == "0.0.0.0"@,
{
    "0.0.0.0".to_owned()
}

/// The port used when none is set, or when the one set is not a port number.
pub fn default_port() -> (r: u16)
    ensures
        r == 3100,
{
    3100
}

/// The database file used when none is set.
pub fn default_db_path() -> (r: String)
    ensures
        r@ == "weavefront.db"@,
{
    "weavefront.db".to_owned()
}

/// The IPFS gateway used when none is set.
pub fn default_ipfs_gateway() -> (r: String)
    ensures
        r@ == "https://cloudflare-ipfs.com/ipfs/"@,
{
    "https://cloudflare-ipfs.com/ipfs/".to_owned()
}

/// The Arweave gateway used when none is set.
pub fn default_arweave_gateway() -> (r: String)
    ensures
        r@ == "https://arweave.net"@,
{
    "https://arweave.net".to_owned()
}

/// The Filecoin gateway used when none is set.
pub fn default_filecoin_gateway() -> (r: String)
    ensures
        r@ == "https://gateway.lighthouse.storage/ipfs/"@,
{
    "https://gateway.lighthouse.storage/ipfs/".to_owned()
}

/// The upload limit in megabytes when none is set, or when the one set is not
/// a number.
pub fn default_max_upload_mb() -> (r: u64)
    ensures
        r == 50,
{
    50
}

/// The port that the text of a port setting selects: its value when it reads
/// as a port number, the default port otherwise.
pub open spec fn port_from_setting(port: Option<String>) -> u16 {
    match port {
        Some(p) => match parse_u16_spec(p@) {
            Some(n) => n,
            None => 3100,
        },
        None => 3100,
    }
}

/// The upload limit that the text of its setting selects: its value when it
/// reads as a number, 50 otherwise.
pub open spec fn upload_limit_from_setting(mb: Option<String>) -> u64 {
    match mb {
        Some(t) => match parse_u64_spec(t@) {
            Some(n) => n,
            None => 50,
        },
        None => 50,
    }
}

/// A text setting's value, or `default` when it is unset.
pub open spec fn text_setting(v: Option<String>, default: Seq<char>) -> Seq<char> {
    match v {
        Some(s) => s@,
        None => default,
    }
}

fn or_default(v: Option<String>, default: String) -> (r: String)
    ensures
        v matches Some(s) ==> r == s,
        v is None ==> r == default,
{
    match v {
        Some(s) => s,
        None => default,
    }
}

impl AppConfig {
    /// The settings made of the values read from the environment: host
    /// `0.0.0.0`, database `weavefront.db`, port 3100 (also for a port that is
    /// not a number from 0 to 65535), IPFS gateway
    /// `https://cloudflare-ipfs.com/ipfs/`, Arweave gateway
    /// `https://arweave.net`, Filecoin gateway
    /// `https://gateway.lighthouse.storage/ipfs/` and an upload limit of 50 MB
    /// (also for a limit that is not a number) when unset; the keys and the
    /// node address stay absent when unset.
    pub fn from_vars(vars: ConfigVars) -> (r: AppConfig)
        ensures
            r.host@ == text_setting(vars.host, "0.0.0.0"@),
            vars.host matches Some(h) ==> r.host == h,
            r.db_path@ == text_setting(vars.db_path, "weavefront.db"@),
            vars.db_path matches Some(d) ==> r.db_path == d,
            r.port == port_from_setting(vars.port),
            r.admin_password == vars.admin_password,
            r.pinata_jwt == vars.pinata_jwt,
            r.ipfs_api_url == vars.ipfs_api_url,
            r.arweave_api_key == vars.arweave_api_key,
            r.lighthouse_api_key == vars.lighthouse_api_key,
            r.ipfs_gateway@ == text_setting(vars.ipfs_gateway, "https://cloudflare-ipfs.com/ipfs/"@),
            r.arweave_gateway_url is Some,
            r.arweave_gateway_url->0@ == text_setting(vars.arweave_gateway_url, "https://arweave.net"@),
            r.filecoin_gateway@ == text_setting(
                vars.filecoin_gateway,
                "https://gateway.lighthouse.storage/ipfs/"@,
            ),
            r.max_upload_mb == upload_limit_from_setting(vars.max_upload_mb),
    {
        let port = match vars.port {
            Some(p) => match parse_u16(p.as_str()) {
                Some(n) => n,
                None => default_port(),
            },
            None => default_port(),
        };
        let max_upload_mb = match vars.max_upload_mb {
            Some(t) => match parse_u64(t.as_str()) {
                Some(n) => n,
                None => default_max_upload_mb(),
            },
            None => default_max_upload_mb(),
        };
        AppConfig {
            host: or_default(vars.host, default_host()),
            port,
            db_path: or_default(vars.db_path, default_db_path()),
            admin_password: vars.admin_password,
            pinata_jwt: vars.pinata_jwt,
            ipfs_api_url: vars.ipfs_api_url,
            arweave_api_key: vars.arweave_api_key,
            lighthouse_api_key: vars.lighthouse_api_key,
            ipfs_gateway: or_default(vars.ipfs_gateway, default_ipfs_gateway()),
            arweave_gateway_url: Some(or_default(vars.arweave_gateway_url, default_arweave_gateway())),
            filecoin_gateway: or_default(vars.filecoin_gateway, default_filecoin_gateway()),
            max_upload_mb,
        }
    }

    /// The address to listen on: `host:port`, the port in decimal.
    pub fn listen_addr(&self) -> (r: String)
        ensures
            r@ == self.host@ + ":"@ + decimal(self.port as nat),
    {
        let mut r = self.host.clone();
        r.append(":");
        let p = decimal_string(self.port as u128);
        r.append(p.as_str());
        r
    }
}

/// The port that `listen_addr` writes is the port that a setting holding
/// that same text selects.
pub proof fn lemma_port_setting_round_trip(setting: String, port: u16)
    requires
        setting@ == decimal(port as nat),
    ensures
        port_from_setting(Some(setting)) == port,
{
    crate::text::lemma_port_text_round_trip(port);
}

/// The settings that are numbers: a port setting that reads as a 16-bit
/// number is the port, one that does not (or none) gives 3100; an upload
/// limit that reads as a 64-bit number is the limit, whatever its size, one
/// that does not (or none) gives 50. A text setting that is set is used as
/// it is, an unset one gives its default.
pub proof fn lemma_settings_read(t: String, n: u64, d: Seq<char>)
    ensures
        parse_u64_spec(t@) == Some(n) ==> upload_limit_from_setting(Some(t)) == n,
        parse_u64_spec(t@) is None ==> upload_limit_from_setting(Some(t)) == 50,
        upload_limit_from_setting(None) == 50,
        t@ == decimal(n as nat) ==> upload_limit_from_setting(Some(t)) == n,
        parse_u16_spec(t@) matches Some(p) ==> port_from_setting(Some(t)) == p,
        parse_u16_spec(t@) is None ==> port_from_setting(Some(t)) == 3100,
        port_from_setting(None) == 3100,
        text_setting(Some(t), d) == t@,
        text_setting(None, d) == d,
{
    crate::text::lemma_u64_text_round_trip(n);
}

} // verus!
