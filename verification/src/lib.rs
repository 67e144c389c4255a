//! Verified core of a Bluetooth advertisement-monitor client.
//!
//! An application hands the daemon a monitor object with optional
//! asynchronous handlers; the daemon calls back into the application
//! while the registration's lifecycle handle is alive. This crate
//! holds the decisions of that subsystem — error replies, callback
//! dispatch, object-path decoding and generation, the registration and
//! teardown state machines, and property decoding for GATT
//! characteristics — each with a proved contract. The asynchronous
//! runner that performs the bus calls lives outside and feeds its
//! observations back into the step functions here.

pub mod address;
pub mod coordinator;
pub mod dispatch;
pub mod gatt;
pub mod monitor;
pub mod paths;
pub mod req;

pub use address::Address;
pub use dispatch::{DeviceFound, DeviceLost};
pub use gatt::BluetoothGATTCharacteristic;
pub use monitor::Monitor;
pub use req::ReqError;
