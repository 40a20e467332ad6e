//! Client-side logic for a multi-outlet smart power strip that speaks an
//! obfuscated JSON protocol on port 9999: the autokey cipher and its framing,
//! the system-info data model, outlet addressing and the controller's
//! command decisions. Sockets and JSON text parsing live with the caller.

pub mod cipher;
pub mod controller;
pub mod error;
pub mod json;
pub mod model;
pub mod wire;

pub use controller::{PlugState, Protocol, Request, SmartPowerStrip};
pub use error::Error;
pub use model::{Child, GetSysInfo, NextAction, SysInfo, SystemInfo};
