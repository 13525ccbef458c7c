//! Configuration of the hub and the record of a running server.
//!
//! Binding the sockets and spawning the broker and the HTTP service is I/O
//! and happens outside; what this module keeps is what a running server
//! reports about itself, and the rule that a process holds at most one.
use vstd::prelude::*;
use crate::ErrorCode;

verus! {

/// The four settings of the hub, as plain text.
pub struct ConfigView {
    pub mqtt_address: Seq<char>,
    pub http_address: Seq<char>,
    pub basic_path: Seq<char>,
    pub http_auth_token: Seq<char>,
}

/// How the hub is to be started: where the broker and the HTTP service
/// listen, the directory the HTTP service serves, and the token it asks for
/// (empty for none).
pub struct ServerConfig {
    pub mqtt_address: String,
    pub http_address: String,
    pub basic_path: String,
    pub http_auth_token: String,
}

impl View for ServerConfig {
    type V = ConfigView;

    open spec fn view(&self) -> ConfigView {
        ConfigView {
            mqtt_address: self.mqtt_address@,
            http_address: self.http_address@,
            basic_path: self.basic_path@,
            http_auth_token: self.http_auth_token@,
        }
    }
}

/// A started hub: the addresses its two listeners are bound to (in their
/// printed form), the served directory and the HTTP token.
pub struct Server {
    pub mqtt_address: String,
    pub http_address: String,
    pub basic_path: String,
    pub http_auth_token: String,
}

impl View for Server {
    type V = ConfigView;

    /// A server is seen as the configuration it reports.
    open spec fn view(&self) -> ConfigView {
        ConfigView {
            mqtt_address: self.mqtt_address@,
            http_address: self.http_address@,
            basic_path: self.basic_path@,
            http_auth_token: self.http_auth_token@,
        }
    }
}

/// What a server started from `config`, whose listeners ended up bound to
/// `mqtt` and `http`, reports about itself.
pub open spec fn started_config(config: ConfigView, mqtt: Seq<char>, http: Seq<char>) -> ConfigView {
    ConfigView {
        mqtt_address: mqtt,
        http_address: http,
        basic_path: config.basic_path,
        http_auth_token: config.http_auth_token,
    }
}

impl Server {
    /// The record of a server started from `config` once its broker
    /// listener is bound to `mqtt_address` and its HTTP listener to
    /// `http_address` (the printed local addresses, which differ from the
    /// configured ones when a port 0 was asked for).
    pub fn new(config: ServerConfig, mqtt_address: String, http_address: String) -> (s: Server)
        ensures
            s@ == started_config(config@, mqtt_address@, http_address@),
    {
        Server {
            mqtt_address,
            http_address,
            basic_path: config.basic_path,
            http_auth_token: config.http_auth_token,
        }
    }

    /// The configuration the server runs with.
    pub fn get_config(&self) -> (c: ServerConfig)
        ensures
            c@ == self@,
    {
        ServerConfig {
            mqtt_address: self.mqtt_address.clone(),
            http_address: self.http_address.clone(),
            basic_path: self.basic_path.clone(),
            http_auth_token: self.http_auth_token.clone(),
        }
    }
}

/// A server reports the directory and token it was started with, and the
/// addresses it was bound to; when it was bound where the configuration
/// asked, it reports the configuration unchanged.
pub proof fn lemma_get_config_after_start(config: ConfigView, mqtt: Seq<char>, http: Seq<char>)
    ensures
        started_config(config, mqtt, http).basic_path == config.basic_path,
        started_config(config, mqtt, http).http_auth_token == config.http_auth_token,
        started_config(config, mqtt, http).mqtt_address == mqtt,
        started_config(config, mqtt, http).http_address == http,
        (config.mqtt_address == mqtt && config.http_address == http) ==> started_config(
            config,
            mqtt,
            http,
        ) == config,
{
}

/// The place that holds the one server of a process.
pub struct ServerSlot {
    server: Option<Server>,
}

/// The slot after `server` is offered to it: a server is kept only when
/// the slot was empty.
pub open spec fn slot_install(slot: Option<ConfigView>, server: ConfigView) -> Option<ConfigView> {
    match slot {
        Some(held) => Some(held),
        None => Some(server),
    }
}

impl View for ServerSlot {
    type V = Option<ConfigView>;

    closed spec fn view(&self) -> Option<ConfigView> {
        match self.server {
            Some(s) => Some(s@),
            None => None,
        }
    }
}

impl ServerSlot {
    /// An empty slot.
    pub fn new() -> (slot: ServerSlot)
        ensures
            slot@ is None,
    {
        ServerSlot { server: None }
    }

    /// Whether a server has been installed.
    pub fn is_initialized(&self) -> (b: bool)
        ensures
            b == self@ is Some,
    {
        self.server.is_some()
    }

    /// Offers `server` to the slot: it is kept, and `true` returned, only
    /// when no server was installed before; otherwise the slot keeps the
    /// server it holds.
    pub fn install(&mut self, server: Server) -> (stored: bool)
        ensures
            stored == old(self)@ is None,
            final(self)@ == slot_install(old(self)@, server@),
    {
        if self.server.is_some() {
            false
        } else {
            self.server = Some(server);
            true
        }
    }

    /// The configuration of the installed server; `None` when the slot is
    /// empty.
    pub fn get_config(&self) -> (c: Option<ServerConfig>)
        ensures
            match (c, self@) {
                (Some(c), Some(s)) => c@ == s,
                (None, None) => true,
                _ => false,
            },
    {
        match &self.server {
            Some(s) => Some(s.get_config()),
            None => None,
        }
    }
}

/// The first server offered to an empty slot is the one it keeps, whatever
/// is offered after it.
pub proof fn lemma_first_install_wins(first: ConfigView, later: Seq<ConfigView>)
    ensures
        later.fold_left(slot_install(None, first), |s: Option<ConfigView>, c: ConfigView| slot_install(s, c))
            == Some(first),
    decreases later.len(),
{
    if later.len() > 0 {
        lemma_first_install_wins(first, later.drop_last());
    }
}

/// Installing a server into an empty slot is what every later read of the
/// slot reports, and a slot once filled stays filled.
pub proof fn lemma_read_after_install(slot: Option<ConfigView>, server: ConfigView)
    ensures
        slot_install(slot, server) is Some,
        slot is None ==> slot_install(slot, server) == Some(server),
        slot is Some ==> slot_install(slot, server) == slot,
{
}

/// What was observed since the last step of starting the process's
/// server.
pub enum StartEvent {
    /// A start was asked for.
    Begin,
    /// The configuration text was read: the configuration, or `None` when
    /// it is no valid configuration.
    ConfigParsed(Option<ServerConfig>),
    /// The listeners were bound and the services spawned: the record of
    /// the started server, or `None` when that failed.
    ServerStarted(Option<Server>),
}

/// What is to be done next to start the process's server.
pub enum StartAction {
    /// Read the configuration text.
    ParseConfig,
    /// Bind and spawn the services for this configuration.
    StartServer(ServerConfig),
    /// The start is over, with this outcome.
    Finish(ErrorCode),
}

/// Advances a start of the process's server held in `slot`: a second
/// start is refused with `ServerHasInit` before anything is read, an
/// invalid configuration ends with `BadConfig`, a failed start or a server
/// the slot does not take ends with `StartServerError`, and a server the
/// slot takes ends with `Ok`. The slot changes only by taking that server.
pub fn start_step(slot: &mut ServerSlot, event: StartEvent) -> (a: StartAction)
    ensures
        match event {
            StartEvent::Begin => {
                &&& final(slot)@ == old(slot)@
                &&& old(slot)@ is Some ==> a == StartAction::Finish(ErrorCode::ServerHasInit)
                &&& old(slot)@ is None ==> a is ParseConfig
            },
            StartEvent::ConfigParsed(None) => {
                &&& final(slot)@ == old(slot)@
                &&& a == StartAction::Finish(ErrorCode::BadConfig)
            },
            StartEvent::ConfigParsed(Some(c)) => {
                &&& final(slot)@ == old(slot)@
                &&& a matches StartAction::StartServer(c2) && c2@ == c@
            },
            StartEvent::ServerStarted(None) => {
                &&& final(slot)@ == old(slot)@
                &&& a == StartAction::Finish(ErrorCode::StartServerError)
            },
            StartEvent::ServerStarted(Some(s)) => {
                &&& final(slot)@ == slot_install(old(slot)@, s@)
                &&& old(slot)@ is None ==> a == StartAction::Finish(ErrorCode::Success)
                &&& old(slot)@ is Some ==> a == StartAction::Finish(ErrorCode::StartServerError)
            },
        },
{
    match event {
        StartEvent::Begin => {
            if slot.is_initialized() {
                StartAction::Finish(ErrorCode::ServerHasInit)
            } else {
                StartAction::ParseConfig
            }
        },
        StartEvent::ConfigParsed(None) => StartAction::Finish(ErrorCode::BadConfig),
        StartEvent::ConfigParsed(Some(c)) => StartAction::StartServer(c),
        StartEvent::ServerStarted(None) => StartAction::Finish(ErrorCode::StartServerError),
        StartEvent::ServerStarted(Some(s)) => {
            if slot.install(s) {
                StartAction::Finish(ErrorCode::Success)
            } else {
                StartAction::Finish(ErrorCode::StartServerError)
            }
        },
    }
}

} // verus!
