use deskmsg::node_api::{self, NapiServerConfig};
use deskmsg::server::{Server, ServerConfig, ServerSlot};

fn config() -> ServerConfig {
    ServerConfig {
        mqtt_address: "0.0.0.0:1883".to_string(),
        http_address: "0.0.0.0:0".to_string(),
        basic_path: "/srv/files".to_string(),
        http_auth_token: "secret".to_string(),
    }
}

#[test]
fn server_reports_bound_addresses_and_settings() {
    let s = Server::new(config(), "0.0.0.0:1883".to_string(), "0.0.0.0:41234".to_string());
    let c = s.get_config();
    assert_eq!(c.mqtt_address, "0.0.0.0:1883");
    assert_eq!(c.http_address, "0.0.0.0:41234");
    assert_eq!(c.basic_path, "/srv/files");
    assert_eq!(c.http_auth_token, "secret");
}

#[test]
fn slot_keeps_first_server() {
    let mut slot = ServerSlot::new();
    assert!(!slot.is_initialized());
    assert!(slot.get_config().is_none());
    let first = Server::new(config(), "a:1".to_string(), "b:2".to_string());
    assert!(slot.install(first));
    assert!(slot.is_initialized());
    let mut other = config();
    other.basic_path = "/elsewhere".to_string();
    let second = Server::new(other, "c:3".to_string(), "d:4".to_string());
    assert!(!slot.install(second));
    let c = slot.get_config().unwrap();
    assert_eq!(c.mqtt_address, "a:1");
    assert_eq!(c.http_address, "b:2");
    assert_eq!(c.basic_path, "/srv/files");
}

#[test]
fn node_get_config_without_server_fails() {
    let slot = ServerSlot::new();
    match node_api::get_config(&slot) {
        Ok(_) => panic!("no server was started"),
        Err(m) => assert_eq!(m, "Server not initialized"),
    }
}

#[test]
fn node_get_config_with_server() {
    let mut slot = ServerSlot::new();
    slot.install(Server::new(config(), "x:1".to_string(), "y:2".to_string()));
    let c = node_api::get_config(&slot).unwrap();
    assert_eq!(c.mqtt_address, "x:1");
    assert_eq!(c.http_auth_token, "secret");
}

#[test]
fn node_config_round_trip() {
    let n = NapiServerConfig::from(config());
    assert_eq!(n.http_address, "0.0.0.0:0");
    let back = ServerConfig::from(n);
    assert_eq!(back.mqtt_address, "0.0.0.0:1883");
    assert_eq!(back.http_auth_token, "secret");
}

use deskmsg::server::{start_step, StartAction, StartEvent};
use deskmsg::ErrorCode;

#[test]
fn start_run_on_empty_slot() {
    let mut slot = ServerSlot::new();
    assert!(matches!(start_step(&mut slot, StartEvent::Begin), StartAction::ParseConfig));
    let c = match start_step(&mut slot, StartEvent::ConfigParsed(Some(config()))) {
        StartAction::StartServer(c) => c,
        _ => panic!("expected the server to be started"),
    };
    assert_eq!(c.basic_path, "/srv/files");
    let server = Server::new(c, "m:1".to_string(), "h:2".to_string());
    assert!(matches!(
        start_step(&mut slot, StartEvent::ServerStarted(Some(server))),
        StartAction::Finish(ErrorCode::Success)
    ));
    assert_eq!(slot.get_config().unwrap().mqtt_address, "m:1");
}

#[test]
fn second_start_is_refused() {
    let mut slot = ServerSlot::new();
    slot.install(Server::new(config(), "m:1".to_string(), "h:2".to_string()));
    assert!(matches!(start_step(&mut slot, StartEvent::Begin), StartAction::Finish(ErrorCode::ServerHasInit)));
    let late = Server::new(config(), "m:9".to_string(), "h:9".to_string());
    assert!(matches!(
        start_step(&mut slot, StartEvent::ServerStarted(Some(late))),
        StartAction::Finish(ErrorCode::StartServerError)
    ));
    assert_eq!(slot.get_config().unwrap().mqtt_address, "m:1");
}

#[test]
fn start_failures() {
    let mut slot = ServerSlot::new();
    assert!(matches!(start_step(&mut slot, StartEvent::ConfigParsed(None)), StartAction::Finish(ErrorCode::BadConfig)));
    assert!(matches!(
        start_step(&mut slot, StartEvent::ServerStarted(None)),
        StartAction::Finish(ErrorCode::StartServerError)
    ));
    assert!(!slot.is_initialized());
}
