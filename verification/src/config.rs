//! The server's settings.

use vstd::prelude::*;
use vstd::string::StringExecFns;

verus! {

/// The port the server listens on where none is configured.
pub const DEFAULT_PORT: u16 = 3000;

/// The number that a text stands for as a `u16`, or `None` where it stands
/// for none.
pub uninterp spec fn parsed_u16(text: Seq<char>) -> Option<u16>;

/// The storage region where none is configured.
pub open spec fn default_region() -> Seq<char> {
    "auto"@
}

/// Calls `str::parse::<u16>` of std, whose result depends on the text alone.
#[verifier::external_body]
fn parse_u16(text: &str) -> (number: Option<u16>)
    ensures
        number == parsed_u16(text@),
{
    text.parse::<u16>().ok()
}

/// What the server is configured with.
#[derive(Debug, Clone)]
pub struct AppConfig {
    pub database_url: String,
    pub jwt_secret: String,
    pub storage_region: String,
    pub storage_access_key: String,
    pub storage_secret_key: String,
    pub storage_bucket: String,
    pub port: u16,
}

/// The port that a configured text gives: the default where nothing is
/// configured, else the number the text stands for.
pub open spec fn port_of(port: Option<Seq<char>>) -> Option<u16> {
    match port {
        None => Some(DEFAULT_PORT),
        Some(text) => parsed_u16(text),
    }
}

/// The text of an optional string.
pub open spec fn setting_text(s: Option<String>) -> Option<Seq<char>> {
    match s {
        Some(s) => Some(s@),
        None => None,
    }
}

impl AppConfig {
    /// Settings from the values found in the environment. The storage region
    /// and the port may be missing: the region is then `auto`, the port
    /// `DEFAULT_PORT`. A port that is not a number from 0 to 65535 gives
    /// `None`.
    pub fn from_values(
        database_url: String,
        jwt_secret: String,
        storage_region: Option<String>,
        storage_access_key: String,
        storage_secret_key: String,
        storage_bucket: String,
        port: Option<String>,
    ) -> (config: Option<AppConfig>)
        ensures
            config is Some <==> port_of(setting_text(port)) is Some,
            config is Some ==> {
                let config = config->Some_0;
                &&& config.database_url == database_url
                &&& config.jwt_secret == jwt_secret
                &&& config.storage_region@ == (match storage_region {
                    Some(region) => region@,
                    None => default_region(),
                })
                &&& config.storage_access_key == storage_access_key
                &&& config.storage_secret_key == storage_secret_key
                &&& config.storage_bucket == storage_bucket
                &&& Some(config.port) == port_of(setting_text(port))
            },
    {
        let port = match port {
            None => DEFAULT_PORT,
            Some(text) => match parse_u16(text.as_str()) {
                Some(port) => port,
                None => {
                    return None;
                },
            },
        };
        let storage_region = match storage_region {
            Some(region) => region,
            None => String::from_str("auto"),
        };
        Some(
            AppConfig {
                database_url,
                jwt_secret,
                storage_region,
                storage_access_key,
                storage_secret_key,
                storage_bucket,
                port,
            },
        )
    }
}

} // verus!
