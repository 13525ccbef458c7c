//! The Node.js interface: its configuration record and the answers of its
//! calls that read the process's server.
use vstd::prelude::*;
use crate::server::{ConfigView, ServerConfig, ServerSlot};
use vstd::std_specs::convert::FromSpec;

verus! {

/// The hub configuration as the Node.js side sees it.
pub struct NapiServerConfig {
    pub mqtt_address: String,
    pub http_address: String,
    pub basic_path: String,
    pub http_auth_token: String,
}

impl View for NapiServerConfig {
    type V = ConfigView;

    open spec fn view(&self) -> ConfigView {
        ConfigView {
            mqtt_address: self.mqtt_address@,
            http_address: self.http_address@,
            basic_path: self.basic_path@,
            http_auth_token: self.http_auth_token@,
        }
    }
}

impl From<ServerConfig> for NapiServerConfig {
    fn from(c: ServerConfig) -> (n: NapiServerConfig) {
        NapiServerConfig {
            mqtt_address: c.mqtt_address,
            http_address: c.http_address,
            basic_path: c.basic_path,
            http_auth_token: c.http_auth_token,
        }
    }
}

impl vstd::std_specs::convert::FromSpecImpl<ServerConfig> for NapiServerConfig {
    open spec fn obeys_from_spec() -> bool {
        true
    }

    open spec fn from_spec(c: ServerConfig) -> NapiServerConfig {
        NapiServerConfig {
            mqtt_address: c.mqtt_address,
            http_address: c.http_address,
            basic_path: c.basic_path,
            http_auth_token: c.http_auth_token,
        }
    }
}

impl From<NapiServerConfig> for ServerConfig {
    fn from(n: NapiServerConfig) -> (c: ServerConfig) {
        ServerConfig {
            mqtt_address: n.mqtt_address,
            http_address: n.http_address,
            basic_path: n.basic_path,
            http_auth_token: n.http_auth_token,
        }
    }
}

impl vstd::std_specs::convert::FromSpecImpl<NapiServerConfig> for ServerConfig {
    open spec fn obeys_from_spec() -> bool {
        true
    }

    open spec fn from_spec(n: NapiServerConfig) -> ServerConfig {
        ServerConfig {
            mqtt_address: n.mqtt_address,
            http_address: n.http_address,
            basic_path: n.basic_path,
            http_auth_token: n.http_auth_token,
        }
    }
}

/// The message a call gets when no server has been started.
pub open spec fn not_initialized_message() -> Seq<char> {
    "Server not initialized"@
}

/// The configuration of the process's server, or the message the call
/// fails with when no server has been started.
pub fn get_config(slot: &ServerSlot) -> (r: Result<NapiServerConfig, String>)
    ensures
        match (r, slot@) {
            (Ok(c), Some(s)) => c@ == s,
            (Err(m), None) => m@ == not_initialized_message(),
            _ => false,
        },
{
    match slot.get_config() {
        Some(c) => Ok(NapiServerConfig::from(c)),
        None => Err(String::from_str("Server not initialized")),
    }
}

/// A configuration passed to the Node.js side and back is unchanged.
pub proof fn lemma_config_round_trip(c: ServerConfig)
    ensures
        ServerConfig::from_spec(NapiServerConfig::from_spec(c))@ == c@,
        NapiServerConfig::from_spec(c)@ == c@,
{
}

} // verus!
