use powerstrip_control::json::JsonValue;
use powerstrip_control::{Child, Error, GetSysInfo, NextAction, SysInfo, SystemInfo};

fn child(alias: &str, id: &str, state: u8) -> Child {
    Child {
        alias: alias.to_string(),
        id: id.to_string(),
        next_action: NextAction { type_field: -1 },
        on_time: 4000000000,
        state,
    }
}

fn info() -> SysInfo {
    SysInfo {
        alias: "Strip".to_string(),
        child_num: 2,
        children: vec![child("Plug 1", "00", 1), child("Plug 2", "01", 0)],
        device_id: "ABC123".to_string(),
        err_code: 0,
        feature: "TIM:ENE".to_string(),
        hw_id: "HWID".to_string(),
        hw_ver: "1.0".to_string(),
        latitude_i: -2147483648,
        led_off: 1,
        longitude_i: 2147483647,
        mac: "AA:BB:CC:DD:EE:FF".to_string(),
        mic_type: "IOT.SMARTPLUGSWITCH".to_string(),
        model: "HS300(US)".to_string(),
        oem_id: "OEMID".to_string(),
        rssi: -128,
        status: "new".to_string(),
        sw_ver: "1.0.12".to_string(),
        updating: 0,
    }
}

fn members(v: &JsonValue) -> &Vec<(String, JsonValue)> {
    match v {
        JsonValue::Object(fs) => fs,
        _ => panic!("not an object"),
    }
}

fn assert_same(a: &SysInfo, b: &SysInfo) {
    assert_eq!(format!("{:?}", a), format!("{:?}", b));
}

#[test]
fn sysinfo_round_trip() {
    let s = info();
    let back = SysInfo::from_json(&s.to_json()).unwrap();
    assert_same(&s, &back);
}

#[test]
fn system_info_round_trip() {
    let s = SystemInfo { system: GetSysInfo { get_sysinfo: info() } };
    let back = SystemInfo::from_json(&s.to_json()).unwrap();
    assert_same(&s.system.get_sysinfo, &back.system.get_sysinfo);
}

#[test]
fn wire_names_are_mapped() {
    let v = info().to_json();
    let keys: Vec<&str> = members(&v).iter().map(|(k, _)| k.as_str()).collect();
    assert!(keys.contains(&"deviceId"));
    assert!(keys.contains(&"hwId"));
    assert!(keys.contains(&"oemId"));
    assert!(!keys.contains(&"device_id"));
    assert!(!keys.contains(&"hw_id"));
    assert!(!keys.contains(&"oem_id"));
    let c = child("P", "01", 0).to_json();
    let ckeys: Vec<&str> = members(&c).iter().map(|(k, _)| k.as_str()).collect();
    assert_eq!(ckeys, vec!["alias", "id", "next_action", "on_time", "state"]);
    let a = NextAction { type_field: 3 }.to_json();
    assert_eq!(members(&a)[0].0, "type");
}

fn without(v: &JsonValue, key: &str) -> JsonValue {
    let fs = members(v).iter().filter(|(k, _)| k != key).map(|(k, x)| (k.clone(), clone(x)));
    JsonValue::Object(fs.collect())
}

fn with(v: &JsonValue, key: &str, value: JsonValue) -> JsonValue {
    let mut fs: Vec<(String, JsonValue)> = members(&without(v, key)).iter().map(|(k, x)| (k.clone(), clone(x))).collect();
    fs.push((key.to_string(), value));
    JsonValue::Object(fs)
}

fn clone(v: &JsonValue) -> JsonValue {
    match v {
        JsonValue::Null => JsonValue::Null,
        JsonValue::Bool(b) => JsonValue::Bool(*b),
        JsonValue::Int(n) => JsonValue::Int(*n),
        JsonValue::OtherNumber => JsonValue::OtherNumber,
        JsonValue::Str(s) => JsonValue::Str(s.clone()),
        JsonValue::Array(a) => JsonValue::Array(a.iter().map(clone).collect()),
        JsonValue::Object(fs) => {
            JsonValue::Object(fs.iter().map(|(k, x)| (k.clone(), clone(x))).collect())
        }
    }
}

#[test]
fn missing_field_is_protocol_error() {
    let v = info().to_json();
    for key in ["alias", "deviceId", "children", "rssi", "updating", "oemId"] {
        assert_eq!(SysInfo::from_json(&without(&v, key)).err(), Some(Error::Protocol), "{key}");
    }
}

#[test]
fn semantic_name_is_not_accepted_on_the_wire() {
    let v = info().to_json();
    let renamed = with(&without(&v, "deviceId"), "device_id", JsonValue::Str("ABC123".to_string()));
    assert_eq!(SysInfo::from_json(&renamed).err(), Some(Error::Protocol));
}

#[test]
fn mistyped_field_is_protocol_error() {
    let v = info().to_json();
    assert_eq!(SysInfo::from_json(&with(&v, "alias", JsonValue::Int(1))).err(), Some(Error::Protocol));
    assert_eq!(SysInfo::from_json(&with(&v, "err_code", JsonValue::Str("0".to_string()))).err(), Some(Error::Protocol));
    assert_eq!(SysInfo::from_json(&with(&v, "led_off", JsonValue::OtherNumber)).err(), Some(Error::Protocol));
    assert_eq!(SysInfo::from_json(&with(&v, "children", JsonValue::Null)).err(), Some(Error::Protocol));
    assert_eq!(SysInfo::from_json(&JsonValue::Array(vec![])).err(), Some(Error::Protocol));
}

#[test]
fn out_of_range_integer_is_protocol_error() {
    let v = info().to_json();
    assert_eq!(SysInfo::from_json(&with(&v, "child_num", JsonValue::Int(256))).err(), Some(Error::Protocol));
    assert_eq!(SysInfo::from_json(&with(&v, "rssi", JsonValue::Int(-129))).err(), Some(Error::Protocol));
    assert_eq!(SysInfo::from_json(&with(&v, "latitude_i", JsonValue::Int(2147483648))).err(), Some(Error::Protocol));
    assert!(SysInfo::from_json(&with(&v, "child_num", JsonValue::Int(255))).is_ok());
}

#[test]
fn bad_child_is_protocol_error() {
    let v = info().to_json();
    let bad = with(&child("P", "01", 0).to_json(), "state", JsonValue::Int(-1));
    let arr = JsonValue::Array(vec![child("Q", "00", 0).to_json(), bad]);
    assert_eq!(SysInfo::from_json(&with(&v, "children", arr)).err(), Some(Error::Protocol));
    let no_action = without(&child("P", "01", 0).to_json(), "next_action");
    assert_eq!(Child::from_json(&no_action).err(), Some(Error::Protocol));
}

#[test]
fn child_reads_members_in_any_order() {
    let c = JsonValue::Object(vec![
        ("state".to_string(), JsonValue::Int(1)),
        ("on_time".to_string(), JsonValue::Int(7)),
        ("next_action".to_string(), JsonValue::Object(vec![("type".to_string(), JsonValue::Int(-1))])),
        ("id".to_string(), JsonValue::Str("02".to_string())),
        ("alias".to_string(), JsonValue::Str("Plug 3".to_string())),
        ("extra".to_string(), JsonValue::Null),
    ]);
    let got = Child::from_json(&c).unwrap();
    assert_eq!(got.alias, "Plug 3");
    assert_eq!(got.id, "02");
    assert_eq!(got.next_action.type_field, -1);
    assert_eq!(got.on_time, 7);
    assert_eq!(got.state, 1);
}

#[test]
fn envelope_is_required() {
    let bare = info().to_json();
    assert_eq!(SystemInfo::from_json(&bare).err(), Some(Error::Protocol));
    let half = JsonValue::Object(vec![("system".to_string(), JsonValue::Object(vec![]))]);
    assert_eq!(SystemInfo::from_json(&half).err(), Some(Error::Protocol));
}
