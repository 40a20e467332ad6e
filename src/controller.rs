//! The controller: initialisation from a fetched snapshot, and the decisions
//! behind each command, up to the bytes that the caller puts on the wire.
use vstd::prelude::*;
use vstd::string::*;
use crate::cipher::{command_bytes, encrypt_command};
use crate::error::Error;
use crate::model::{composite_address, find_alias, SysInfo, SystemInfo};

verus! {

/// The port on which the device listens, over TCP and UDP alike.
pub const PORT: u16 = 9999;

/// The reply timeout when the caller gives none, in milliseconds.
pub const DEFAULT_TIMEOUT_MS: u64 = 2000;

/// The transport that carries an exchange.
#[derive(Debug, Clone, Copy, PartialEq, Eq, Structural)]
pub enum Protocol {
    Tcp,
    Udp,
}

/// The relay state that a command asks an outlet to take.
#[derive(Debug, Clone, Copy, PartialEq, Eq, Structural)]
pub enum PlugState {
    On,
    Off,
}

/// One command ready to go out: its transport, its JSON text and the
/// obfuscated bytes of that text.
#[derive(Debug)]
pub struct Request {
    pub protocol: Protocol,
    pub command: String,
    pub payload: Vec<u8>,
}

/// A controller bound to one device.
#[derive(Debug)]
pub struct SmartPowerStrip {
    pub ip: String,
    pub port: u16,
    /// The configured preference. The status query and the relay command are
    /// both sent over UDP whatever it says; the caller dispatches each
    /// request by the transport that the request itself names.
    pub protocol: Protocol,
    pub device_id: Option<String>,
    pub sys_info: Option<SysInfo>,
    pub timeout_ms: u64,
}

/// The JSON text of the `get_sysinfo` request.
pub open spec fn sysinfo_command_text() -> Seq<char> {
    "{\"system\":{\"get_sysinfo\":{}}}"@
}

/// The relay state number that goes on the wire.
pub open spec fn state_text(state: PlugState) -> Seq<char> {
    match state {
        PlugState::On => "1"@,
        PlugState::Off => "0"@,
    }
}

/// The JSON text of a `set_relay_state` request scoped to one outlet address.
pub open spec fn relay_command_text(plug_id: Seq<char>, state: PlugState) -> Seq<char> {
    "{\"context\":{\"child_ids\":[\""@ + plug_id + "\"]},\"system\":{\"set_relay_state\":{\"state\":"@
        + state_text(state) + "}}}"@
}

/// What `toggle_plug` decides for a controller, an alias and a state: the
/// error, or the address and text of the command.
pub open spec fn toggle_outcome(
    sys_info: Option<SysInfo>,
    device_id: Option<Seq<char>>,
    alias: Seq<char>,
    state: PlugState,
) -> Result<Seq<char>, Error> {
    if sys_info is None || device_id is None {
        Err(Error::Configuration)
    } else {
        match find_alias(sys_info->0.children@, alias) {
            None => Err(Error::NotFound),
            Some(child) => Ok(relay_command_text(device_id->0 + child.id@, state)),
        }
    }
}

/// The view of an optional text.
pub open spec fn opt_view(s: Option<String>) -> Option<Seq<char>> {
    match s {
        Some(t) => Some(t@),
        None => None,
    }
}

/// The `get_sysinfo` request, which always goes over UDP.
pub fn sysinfo_request() -> (r: Request)
    ensures
        r.protocol == Protocol::Udp,
        r.command@ == sysinfo_command_text(),
        r.payload@ == command_bytes(r.command@, false),
{
    let command = "{\"system\":{\"get_sysinfo\":{}}}".to_owned();
    let payload = encrypt_command(command.as_str(), false);
    Request { protocol: Protocol::Udp, command, payload }
}

/// The JSON text of a `set_relay_state` request for one outlet address.
pub fn relay_command(plug_id: &str, state: PlugState) -> (r: String)
    ensures
        r@ == relay_command_text(plug_id@, state),
{
    let mut command = "{\"context\":{\"child_ids\":[\"".to_owned();
    command.append(plug_id);
    command.append("\"]},\"system\":{\"set_relay_state\":{\"state\":");
    match state {
        PlugState::On => command.append("1"),
        PlugState::Off => command.append("0"),
    }
    command.append("}}}");
    command
}

impl SmartPowerStrip {
    /// Builds the controller from the snapshot fetched at start-up: port
    /// 9999, TCP preferred and a 2000 ms timeout unless given, and the
    /// device id given by the caller or else the snapshot's.
    pub fn new(
        ip: String,
        device_id: Option<String>,
        timeout_ms: Option<u64>,
        protocol: Option<Protocol>,
        snapshot: SystemInfo,
    ) -> (r: Self)
        ensures
            r.ip == ip,
            r.port == PORT,
            r.protocol == (match protocol {
                Some(p) => p,
                None => Protocol::Tcp,
            }),
            r.timeout_ms == (match timeout_ms {
                Some(t) => t,
                None => DEFAULT_TIMEOUT_MS,
            }),
            r.sys_info == Some(snapshot.system.get_sysinfo),
            r.device_id == (match device_id {
                Some(d) => Some(d),
                None => Some(snapshot.system.get_sysinfo.device_id),
            }),
    {
        let sys_info = snapshot.system.get_sysinfo;
        let device_id = match device_id {
            Some(d) => d,
            None => sys_info.device_id.clone(),
        };
        let protocol = match protocol {
            Some(p) => p,
            None => Protocol::Tcp,
        };
        let timeout_ms = match timeout_ms {
            Some(t) => t,
            None => DEFAULT_TIMEOUT_MS,
        };
        SmartPowerStrip {
            ip,
            port: PORT,
            protocol,
            device_id: Some(device_id),
            sys_info: Some(sys_info),
            timeout_ms,
        }
    }

    /// Decides the command that sets the outlet named `name` to `state`:
    /// a configuration error without a snapshot or device id, a not-found
    /// error when no outlet has that alias, and otherwise a UDP request
    /// addressed to the device id followed by the outlet id. Nothing is
    /// sent here; the reply to the request is not interpreted.
    pub fn toggle_plug(&self, name: &str, state: PlugState) -> (r: Result<Request, Error>)
        ensures
            match toggle_outcome(self.sys_info, opt_view(self.device_id), name@, state) {
                Err(e) => r == Err::<Request, Error>(e),
                Ok(text) => r matches Ok(req) && req.protocol == Protocol::Udp && req.command@
                    == text && req.payload@ == command_bytes(text, false),
            },
    {
        let sys_info = match &self.sys_info {
            Some(s) => s,
            None => return Err(Error::Configuration),
        };
        let device_id = match &self.device_id {
            Some(d) => d,
            None => return Err(Error::Configuration),
        };
        let child = match sys_info.find_child_by_alias(name) {
            Some(c) => c,
            None => return Err(Error::NotFound),
        };
        let plug_id = composite_address(device_id.as_str(), child.id.as_str());
        let command = relay_command(plug_id.as_str(), state);
        let payload = encrypt_command(command.as_str(), false);
        Ok(Request { protocol: Protocol::Udp, command, payload })
    }
}

} // verus!
