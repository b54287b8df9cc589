//! A transport-free core for a smart-device cloud client.
//!
//! The crate holds the rules of the protocol: which requests are built, how
//! topics and payloads are read, how the session moves between its states and
//! how the device cache follows the event stream. The embedding program
//! performs the network round trips and hands their outcomes back.

pub mod address;
pub mod cache;
pub mod client;
pub mod device;
pub mod error;
pub mod event;
pub mod json;
pub mod server;
pub mod text;
pub mod topic;
pub mod wire;

pub use crate::address::Broker;
pub use crate::cache::DeviceCache;
pub use crate::client::{Client, MqttOptions, Phase, Publish, QoS, Request, Shutdown, SubscribeFilter};
pub use crate::device::{AsDeviceMac, Attributes, Device};
pub use crate::error::Error;
pub use crate::event::{ConnectReturnCode, Event, EventHandler, Incoming, Listener};
pub use crate::json::Json;
pub use crate::server::{Authorization, BulkWrite, Config, SetDeviceAttributes, Toggle};
