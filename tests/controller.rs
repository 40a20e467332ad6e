use powerstrip_control::cipher::encrypt_command;
use powerstrip_control::controller::{relay_command, sysinfo_request, DEFAULT_TIMEOUT_MS, PORT};
use powerstrip_control::model::composite_address;
use powerstrip_control::{
    Child, Error, GetSysInfo, NextAction, PlugState, Protocol, SmartPowerStrip, SysInfo,
    SystemInfo,
};

fn child(alias: &str, id: &str, state: u8) -> Child {
    Child {
        alias: alias.to_string(),
        id: id.to_string(),
        next_action: NextAction { type_field: -1 },
        on_time: 0,
        state,
    }
}

fn snapshot(device_id: &str, children: Vec<Child>) -> SystemInfo {
    SystemInfo {
        system: GetSysInfo {
            get_sysinfo: SysInfo {
                alias: "Strip".to_string(),
                child_num: children.len() as u8,
                children,
                device_id: device_id.to_string(),
                err_code: 0,
                feature: "TIM".to_string(),
                hw_id: "HW".to_string(),
                hw_ver: "1.0".to_string(),
                latitude_i: 0,
                led_off: 0,
                longitude_i: 0,
                mac: "00:00:00:00:00:00".to_string(),
                mic_type: "IOT.SMARTPLUGSWITCH".to_string(),
                model: "HS300(US)".to_string(),
                oem_id: "OEM".to_string(),
                rssi: -40,
                status: "new".to_string(),
                sw_ver: "1.0.0".to_string(),
                updating: 0,
            },
        },
    }
}

fn strip(children: Vec<Child>) -> SmartPowerStrip {
    SmartPowerStrip::new("10.0.0.2".to_string(), None, None, None, snapshot("ABC123", children))
}

#[test]
fn toggle_on_builds_exact_command() {
    let s = strip(vec![child("Plug 4", "00", 1), child("Plug 5", "01", 0)]);
    let req = s.toggle_plug("Plug 5", PlugState::On).unwrap();
    let text = "{\"context\":{\"child_ids\":[\"ABC12301\"]},\"system\":{\"set_relay_state\":{\"state\":1}}}";
    assert_eq!(req.command, text);
    assert_eq!(req.protocol, Protocol::Udp);
    assert_eq!(req.payload, encrypt_command(text, false));
}

#[test]
fn toggle_off_uses_state_zero() {
    let s = strip(vec![child("Plug 5", "01", 1)]);
    let req = s.toggle_plug("Plug 5", PlugState::Off).unwrap();
    assert_eq!(
        req.command,
        "{\"context\":{\"child_ids\":[\"ABC12301\"]},\"system\":{\"set_relay_state\":{\"state\":0}}}"
    );
}

#[test]
fn toggle_unknown_alias_is_not_found() {
    let s = strip(vec![child("Plug 5", "01", 0)]);
    assert!(matches!(s.toggle_plug("Nonexistent", PlugState::Off), Err(Error::NotFound)));
}

#[test]
fn toggle_alias_is_case_sensitive() {
    let s = strip(vec![child("Plug 5", "01", 0)]);
    assert!(matches!(s.toggle_plug("plug 5", PlugState::On), Err(Error::NotFound)));
    assert!(matches!(s.toggle_plug("Plug 5 ", PlugState::On), Err(Error::NotFound)));
}

#[test]
fn toggle_without_snapshot_is_configuration_error() {
    let mut s = strip(vec![child("Plug 5", "01", 0)]);
    s.sys_info = None;
    assert!(matches!(s.toggle_plug("Plug 5", PlugState::On), Err(Error::Configuration)));
    let mut t = strip(vec![child("Plug 5", "01", 0)]);
    t.device_id = None;
    assert!(matches!(t.toggle_plug("Plug 5", PlugState::On), Err(Error::Configuration)));
}

#[test]
fn toggle_uses_given_device_id() {
    let s = SmartPowerStrip::new(
        "10.0.0.2".to_string(),
        Some("XYZ".to_string()),
        None,
        None,
        snapshot("ABC123", vec![child("Plug 5", "01", 0)]),
    );
    let req = s.toggle_plug("Plug 5", PlugState::On).unwrap();
    assert_eq!(
        req.command,
        "{\"context\":{\"child_ids\":[\"XYZ01\"]},\"system\":{\"set_relay_state\":{\"state\":1}}}"
    );
}

#[test]
fn find_child_returns_first_duplicate() {
    let snap = snapshot("D", vec![child("A", "00", 0), child("B", "01", 0), child("B", "02", 1)]);
    let info = snap.system.get_sysinfo;
    assert_eq!(info.find_child_by_alias("B").unwrap().id, "01");
    assert_eq!(info.find_child_by_alias("A").unwrap().id, "00");
    assert!(info.find_child_by_alias("C").is_none());
    assert!(info.find_child_by_alias("").is_none());
}

#[test]
fn find_child_in_empty_list() {
    let info = snapshot("D", vec![]).system.get_sysinfo;
    assert!(info.find_child_by_alias("A").is_none());
}

#[test]
fn composite_address_is_plain_concatenation() {
    assert_eq!(composite_address("ABC123", "01"), "ABC12301");
    assert_eq!(composite_address("01", "ABC123"), "01ABC123");
    assert_eq!(composite_address("", "01"), "01");
    assert_eq!(composite_address("Dé", "ü"), "Déü");
}

#[test]
fn relay_command_text() {
    assert_eq!(
        relay_command("P", PlugState::On),
        "{\"context\":{\"child_ids\":[\"P\"]},\"system\":{\"set_relay_state\":{\"state\":1}}}"
    );
}

#[test]
fn sysinfo_request_is_fixed() {
    let req = sysinfo_request();
    assert_eq!(req.command, "{\"system\":{\"get_sysinfo\":{}}}");
    assert_eq!(req.protocol, Protocol::Udp);
    assert_eq!(req.payload[..3], [208, 242, 129]);
}

#[test]
fn new_applies_defaults() {
    let s = strip(vec![]);
    assert_eq!(s.port, PORT);
    assert_eq!(s.port, 9999);
    assert_eq!(s.protocol, Protocol::Tcp);
    assert_eq!(s.timeout_ms, DEFAULT_TIMEOUT_MS);
    assert_eq!(s.timeout_ms, 2000);
    assert_eq!(s.device_id.as_deref(), Some("ABC123"));
    assert_eq!(s.ip, "10.0.0.2");
    assert!(s.sys_info.is_some());
}

#[test]
fn new_keeps_given_options() {
    let s = SmartPowerStrip::new(
        "10.0.0.3".to_string(),
        None,
        Some(50),
        Some(Protocol::Udp),
        snapshot("ABC123", vec![]),
    );
    assert_eq!(s.protocol, Protocol::Udp);
    assert_eq!(s.timeout_ms, 50);
}
