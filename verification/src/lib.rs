//! Desktop message hub: the decisions behind an MQTT broker, an HTTP file
//! service and service discovery, stated and proved with Verus.
//!
//! The I/O (sockets, the broker, the HTTP server, mDNS and BLE radios) is
//! driven from outside this crate, which decides what those services
//! answer. The JSON texts are written by the code that drives it, with a
//! JSON library.
pub mod acl;
pub mod ble;
pub mod c_api;
pub mod discovery;
pub mod error;
pub mod http;
pub mod node_api;
pub mod server;
pub mod text;

pub use error::ErrorCode;
