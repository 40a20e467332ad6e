//! The mapping between the data model and the JSON tree of a reply: which
//! member holds each field (`deviceId`, `hwId`, `oemId` and `type` on the
//! wire), strict in that every field must be present with its type and
//! range, and the law that writing a record and reading it back loses
//! nothing.
use vstd::prelude::*;
use crate::error::Error;
use crate::json::{
    field, field_int, field_str, get_field, int_at, int_member, lemma_get_field_push, str_at,
    str_member, JsonValue,
};
use crate::model::{Child, GetSysInfo, NextAction, SysInfo, SystemInfo};

verus! {

/// Whether `v` is the JSON form of `a`.
pub open spec fn encodes_next_action(v: JsonValue, a: NextAction) -> bool {
    v matches JsonValue::Object(fs) && int_at(fs@, "type"@, a.type_field as int)
}

/// Whether `v` is the JSON form of `c`.
pub open spec fn encodes_child(v: JsonValue, c: Child) -> bool {
    &&& v matches JsonValue::Object(fs)
    &&& str_at(fs@, "alias"@, c.alias@)
    &&& str_at(fs@, "id"@, c.id@)
    &&& get_field(fs@, "next_action"@) matches Some(a)
    &&& encodes_next_action(a, c.next_action)
    &&& int_at(fs@, "on_time"@, c.on_time as int)
    &&& int_at(fs@, "state"@, c.state as int)
}

/// Whether `v` is the JSON form of some outlet record.
pub open spec fn decodes_child(v: JsonValue) -> bool {
    exists|c: Child| encodes_child(v, c)
}

/// Whether two outlet records hold the same values.
pub open spec fn same_child(a: Child, b: Child) -> bool {
    &&& a.alias@ == b.alias@
    &&& a.id@ == b.id@
    &&& a.next_action == b.next_action
    &&& a.on_time == b.on_time
    &&& a.state == b.state
}

impl NextAction {
    /// Reads the record from its JSON form: an object with an `i8` member `type`.
    pub fn from_json(v: &JsonValue) -> (r: Result<NextAction, Error>)
        ensures
            r matches Ok(a) ==> encodes_next_action(*v, a),
            r is Err <==> !exists|a: NextAction| encodes_next_action(*v, a),
    {
        match v {
            JsonValue::Object(fs) => match field_int(fs, "type", -128, 127) {
                Ok(t) => {
                    let a = NextAction { type_field: t as i8 };
                    assert(encodes_next_action(*v, a));
                    Ok(a)
                },
                Err(e) => Err(e),
            },
            _ => Err(Error::Protocol),
        }
    }

    /// Writes the record as a JSON object.
    pub fn to_json(&self) -> (r: JsonValue)
        ensures
            encodes_next_action(r, *self),
    {
        let mut fs: Vec<(String, JsonValue)> = Vec::new();
        let m = int_member("type", self.type_field as i64);
        proof {
            lemma_get_field_push(fs@, m);
        }
        fs.push(m);
        JsonValue::Object(fs)
    }
}

impl Child {
    /// Reads an outlet record from its JSON form; every member must be
    /// present with its type and range.
    pub fn from_json(v: &JsonValue) -> (r: Result<Child, Error>)
        ensures
            r matches Ok(c) ==> encodes_child(*v, c),
            r is Err <==> !exists|c: Child| encodes_child(*v, c),
    {
        match v {
            JsonValue::Object(fs) => {
                let alias = field_str(fs, "alias")?;
                let id = field_str(fs, "id")?;
                let next_action = match field(fs, "next_action") {
                    Some(a) => NextAction::from_json(a)?,
                    None => return Err(Error::Protocol),
                };
                let on_time = field_int(fs, "on_time", 0, 0xffff_ffff)?;
                let state = field_int(fs, "state", 0, 0xff)?;
                let c = Child {
                    alias,
                    id,
                    next_action,
                    on_time: on_time as u32,
                    state: state as u8,
                };
                assert(encodes_child(*v, c));
                Ok(c)
            },
            _ => Err(Error::Protocol),
        }
    }

    /// Writes the outlet record as a JSON object.
    pub fn to_json(&self) -> (r: JsonValue)
        ensures
            encodes_child(r, *self),
    {
        let mut fs: Vec<(String, JsonValue)> = Vec::new();
        let m = str_member("alias", &self.alias);
        proof {
            lemma_get_field_push(fs@, m);
        }
        fs.push(m);
        let m = str_member("id", &self.id);
        proof {
            lemma_get_field_push(fs@, m);
        }
        fs.push(m);
        let m_next = ("next_action".to_owned(), self.next_action.to_json());
        proof {
            lemma_get_field_push(fs@, m_next);
        }
        fs.push(m_next);
        let m = int_member("on_time", self.on_time as i64);
        proof {
            lemma_get_field_push(fs@, m);
        }
        fs.push(m);
        let m = int_member("state", self.state as i64);
        proof {
            lemma_get_field_push(fs@, m);
        }
        fs.push(m);
        proof {
            reveal_strlit("alias");
            reveal_strlit("id");
            reveal_strlit("next_action");
            reveal_strlit("on_time");
            reveal_strlit("state");
            assert("alias"@.len() == 5 && "alias"@[0] == 'a');
            assert("id"@.len() == 2 && "id"@[0] == 'i');
            assert("next_action"@.len() == 11 && "next_action"@[0] == 'n');
            assert("on_time"@.len() == 7 && "on_time"@[0] == 'o');
            assert("state"@.len() == 5 && "state"@[0] == 's');
        }
        JsonValue::Object(fs)
    }
}

/// Whether `v` is a JSON array whose items are the JSON forms of `cs`, in order.
pub open spec fn encodes_children(v: Option<JsonValue>, cs: Seq<Child>) -> bool {
    &&& v matches Some(JsonValue::Array(a))
    &&& a@.len() == cs.len()
    &&& forall|i: int| 0 <= i < cs.len() ==> #[trigger] encodes_child(a@[i], cs[i])
}

/// Whether `v` is the JSON form of the snapshot `s`, its members under their
/// wire names.
pub open spec fn encodes_sysinfo(v: JsonValue, s: SysInfo) -> bool {
    &&& v matches JsonValue::Object(fs)
    &&& str_at(fs@, "alias"@, s.alias@)
    &&& int_at(fs@, "child_num"@, s.child_num as int)
    &&& encodes_children(get_field(fs@, "children"@), s.children@)
    &&& str_at(fs@, "deviceId"@, s.device_id@)
    &&& int_at(fs@, "err_code"@, s.err_code as int)
    &&& str_at(fs@, "feature"@, s.feature@)
    &&& str_at(fs@, "hwId"@, s.hw_id@)
    &&& str_at(fs@, "hw_ver"@, s.hw_ver@)
    &&& int_at(fs@, "latitude_i"@, s.latitude_i as int)
    &&& int_at(fs@, "led_off"@, s.led_off as int)
    &&& int_at(fs@, "longitude_i"@, s.longitude_i as int)
    &&& str_at(fs@, "mac"@, s.mac@)
    &&& str_at(fs@, "mic_type"@, s.mic_type@)
    &&& str_at(fs@, "model"@, s.model@)
    &&& str_at(fs@, "oemId"@, s.oem_id@)
    &&& int_at(fs@, "rssi"@, s.rssi as int)
    &&& str_at(fs@, "status"@, s.status@)
    &&& str_at(fs@, "sw_ver"@, s.sw_ver@)
    &&& int_at(fs@, "updating"@, s.updating as int)
}

/// Whether `v` is the JSON form of a whole `get_sysinfo` reply.
pub open spec fn encodes_system_info(v: JsonValue, s: SystemInfo) -> bool {
    &&& v matches JsonValue::Object(root)
    &&& get_field(root@, "system"@) matches Some(JsonValue::Object(system))
    &&& get_field(system@, "get_sysinfo"@) matches Some(info)
    &&& encodes_sysinfo(info, s.system.get_sysinfo)
}

/// Whether two snapshots hold the same values.
pub open spec fn same_sysinfo(a: SysInfo, b: SysInfo) -> bool {
    &&& a.alias@ == b.alias@
    &&& a.child_num == b.child_num
    &&& a.children@.len() == b.children@.len()
    &&& forall|i: int|
        0 <= i < a.children@.len() ==> #[trigger] same_child(a.children@[i], b.children@[i])
    &&& a.device_id@ == b.device_id@
    &&& a.err_code == b.err_code
    &&& a.feature@ == b.feature@
    &&& a.hw_id@ == b.hw_id@
    &&& a.hw_ver@ == b.hw_ver@
    &&& a.latitude_i == b.latitude_i
    &&& a.led_off == b.led_off
    &&& a.longitude_i == b.longitude_i
    &&& a.mac@ == b.mac@
    &&& a.mic_type@ == b.mic_type@
    &&& a.model@ == b.model@
    &&& a.oem_id@ == b.oem_id@
    &&& a.rssi == b.rssi
    &&& a.status@ == b.status@
    &&& a.sw_ver@ == b.sw_ver@
    &&& a.updating == b.updating
}

/// Reads outlet records from the items of a JSON array, in order.
pub fn children_from_json(a: &Vec<JsonValue>) -> (r: Result<Vec<Child>, Error>)
    ensures
        r matches Ok(cs) ==> encodes_children(Some(JsonValue::Array(*a)), cs@),
        r is Err <==> exists|i: int| 0 <= i < a@.len() && !#[trigger] decodes_child(a@[i]),
{
    let mut cs: Vec<Child> = Vec::new();
    let mut i: usize = 0;
    while i < a.len()
        invariant
            i <= a@.len(),
            cs@.len() == i,
            forall|j: int| 0 <= j < i ==> #[trigger] encodes_child(a@[j], cs@[j]),
        decreases a@.len() - i,
    {
        match Child::from_json(&a[i]) {
            Ok(c) => cs.push(c),
            Err(e) => {
                assert(!decodes_child(a@[i as int]));
                return Err(e);
            },
        }
        i = i + 1;
    }
    proof {
        assert forall|j: int| 0 <= j < a@.len() implies #[trigger] decodes_child(a@[j]) by {
            assert(encodes_child(a@[j], cs@[j]));
        }
    }
    Ok(cs)
}

/// Writes outlet records as the items of a JSON array, in order.
pub fn children_to_json(cs: &Vec<Child>) -> (r: Vec<JsonValue>)
    ensures
        encodes_children(Some(JsonValue::Array(r)), cs@),
{
    let mut a: Vec<JsonValue> = Vec::new();
    let mut i: usize = 0;
    while i < cs.len()
        invariant
            i <= cs@.len(),
            a@.len() == i,
            forall|j: int| 0 <= j < i ==> #[trigger] encodes_child(a@[j], cs@[j]),
        decreases cs@.len() - i,
    {
        a.push(cs[i].to_json());
        i = i + 1;
    }
    a
}

impl SysInfo {
    /// Reads a snapshot from its JSON form: every member must be present
    /// under its wire name, with its type and range; nothing is filled in.
    pub fn from_json(v: &JsonValue) -> (r: Result<SysInfo, Error>)
        ensures
            r matches Ok(s) ==> encodes_sysinfo(*v, s),
            r is Err <==> !exists|s: SysInfo| encodes_sysinfo(*v, s),
    {
        match v {
            JsonValue::Object(fs) => {
                let alias = field_str(fs, "alias")?;
                let child_num = field_int(fs, "child_num", 0, 0xff)?;
                let children = match field(fs, "children") {
                    Some(JsonValue::Array(a)) => match children_from_json(a) {
                        Ok(x) => x,
                        Err(e) => {
                            proof {
                                let i = choose|i: int|
                                    0 <= i < a@.len() && !#[trigger] decodes_child(a@[i]);
                                assert forall|s: SysInfo| !encodes_sysinfo(*v, s) by {
                                    if encodes_sysinfo(*v, s) {
                                        assert(encodes_child(a@[i], s.children@[i]));
                                    }
                                }
                            }
                            return Err(e);
                        },
                    },
                    _ => return Err(Error::Protocol),
                };
                let device_id = field_str(fs, "deviceId")?;
                let err_code = field_int(fs, "err_code", 0, 0xff)?;
                let feature = field_str(fs, "feature")?;
                let hw_id = field_str(fs, "hwId")?;
                let hw_ver = field_str(fs, "hw_ver")?;
                let latitude_i = field_int(fs, "latitude_i", -0x8000_0000, 0x7fff_ffff)?;
                let led_off = field_int(fs, "led_off", 0, 0xff)?;
                let longitude_i = field_int(fs, "longitude_i", -0x8000_0000, 0x7fff_ffff)?;
                let mac = field_str(fs, "mac")?;
                let mic_type = field_str(fs, "mic_type")?;
                let model = field_str(fs, "model")?;
                let oem_id = field_str(fs, "oemId")?;
                let rssi = field_int(fs, "rssi", -128, 127)?;
                let status = field_str(fs, "status")?;
                let sw_ver = field_str(fs, "sw_ver")?;
                let updating = field_int(fs, "updating", 0, 0xff)?;
                let s = SysInfo {
                    alias,
                    child_num: child_num as u8,
                    children,
                    device_id,
                    err_code: err_code as u8,
                    feature,
                    hw_id,
                    hw_ver,
                    latitude_i: latitude_i as i32,
                    led_off: led_off as u8,
                    longitude_i: longitude_i as i32,
                    mac,
                    mic_type,
                    model,
                    oem_id,
                    rssi: rssi as i8,
                    status,
                    sw_ver,
                    updating: updating as u8,
                };
                assert(encodes_sysinfo(*v, s));
                Ok(s)
            },
            _ => Err(Error::Protocol),
        }
    }

    /// Writes the snapshot as a JSON object under the wire names.
    pub fn to_json(&self) -> (r: JsonValue)
        ensures
            encodes_sysinfo(r, *self),
    {
        let mut fs: Vec<(String, JsonValue)> = Vec::new();
        let m = str_member("alias", &self.alias);
        proof {
            lemma_get_field_push(fs@, m);
        }
        fs.push(m);
        let m = int_member("child_num", self.child_num as i64);
        proof {
            lemma_get_field_push(fs@, m);
        }
        fs.push(m);
        let m = ("children".to_owned(), JsonValue::Array(children_to_json(&self.children)));
        proof {
            lemma_get_field_push(fs@, m);
        }
        fs.push(m);
        let m = str_member("deviceId", &self.device_id);
        proof {
            lemma_get_field_push(fs@, m);
        }
        fs.push(m);
        let m = int_member("err_code", self.err_code as i64);
        proof {
            lemma_get_field_push(fs@, m);
        }
        fs.push(m);
        let m = str_member("feature", &self.feature);
        proof {
            lemma_get_field_push(fs@, m);
        }
        fs.push(m);
        let m = str_member("hwId", &self.hw_id);
        proof {
            lemma_get_field_push(fs@, m);
        }
        fs.push(m);
        let m = str_member("hw_ver", &self.hw_ver);
        proof {
            lemma_get_field_push(fs@, m);
        }
        fs.push(m);
        let m = int_member("latitude_i", self.latitude_i as i64);
        proof {
            lemma_get_field_push(fs@, m);
        }
        fs.push(m);
        let m = int_member("led_off", self.led_off as i64);
        proof {
            lemma_get_field_push(fs@, m);
        }
        fs.push(m);
        let m = int_member("longitude_i", self.longitude_i as i64);
        proof {
            lemma_get_field_push(fs@, m);
        }
        fs.push(m);
        let m = str_member("mac", &self.mac);
        proof {
            lemma_get_field_push(fs@, m);
        }
        fs.push(m);
        let m = str_member("mic_type", &self.mic_type);
        proof {
            lemma_get_field_push(fs@, m);
        }
        fs.push(m);
        let m = str_member("model", &self.model);
        proof {
            lemma_get_field_push(fs@, m);
        }
        fs.push(m);
        let m = str_member("oemId", &self.oem_id);
        proof {
            lemma_get_field_push(fs@, m);
        }
        fs.push(m);
        let m = int_member("rssi", self.rssi as i64);
        proof {
            lemma_get_field_push(fs@, m);
        }
        fs.push(m);
        let m = str_member("status", &self.status);
        proof {
            lemma_get_field_push(fs@, m);
        }
        fs.push(m);
        let m = str_member("sw_ver", &self.sw_ver);
        proof {
            lemma_get_field_push(fs@, m);
        }
        fs.push(m);
        let m = int_member("updating", self.updating as i64);
        proof {
            lemma_get_field_push(fs@, m);
        }
        fs.push(m);
        proof {
            reveal_strlit("alias");
            reveal_strlit("child_num");
            reveal_strlit("children");
            reveal_strlit("deviceId");
            reveal_strlit("err_code");
            reveal_strlit("feature");
            reveal_strlit("hwId");
            reveal_strlit("hw_ver");
            reveal_strlit("latitude_i");
            reveal_strlit("led_off");
            reveal_strlit("longitude_i");
            reveal_strlit("mac");
            reveal_strlit("mic_type");
            reveal_strlit("model");
            reveal_strlit("oemId");
            reveal_strlit("rssi");
            reveal_strlit("status");
            reveal_strlit("sw_ver");
            reveal_strlit("updating");
            assert("alias"@.len() == 5 && "alias"@[0] == 'a');
            assert("child_num"@.len() == 9 && "child_num"@[0] == 'c');
            assert("children"@.len() == 8 && "children"@[0] == 'c');
            assert("deviceId"@.len() == 8 && "deviceId"@[0] == 'd');
            assert("err_code"@.len() == 8 && "err_code"@[0] == 'e');
            assert("feature"@.len() == 7 && "feature"@[0] == 'f');
            assert("hwId"@.len() == 4 && "hwId"@[0] == 'h');
            assert("hw_ver"@.len() == 6 && "hw_ver"@[0] == 'h');
            assert("latitude_i"@.len() == 10 && "latitude_i"@[0] == 'l');
            assert("led_off"@.len() == 7 && "led_off"@[0] == 'l');
            assert("longitude_i"@.len() == 11 && "longitude_i"@[0] == 'l');
            assert("mac"@.len() == 3 && "mac"@[0] == 'm');
            assert("mic_type"@.len() == 8 && "mic_type"@[0] == 'm');
            assert("model"@.len() == 5 && "model"@[0] == 'm');
            assert("oemId"@.len() == 5 && "oemId"@[0] == 'o');
            assert("rssi"@.len() == 4 && "rssi"@[0] == 'r');
            assert("status"@.len() == 6 && "status"@[0] == 's');
            assert("sw_ver"@.len() == 6 && "sw_ver"@[0] == 's');
            assert("updating"@.len() == 8 && "updating"@[0] == 'u');
            assert("status"@[1] == 't' && "sw_ver"@[1] == 'w');
        }
        JsonValue::Object(fs)
    }
}

impl SystemInfo {
    /// Reads a whole `get_sysinfo` reply: `{"system":{"get_sysinfo":{...}}}`.
    pub fn from_json(v: &JsonValue) -> (r: Result<SystemInfo, Error>)
        ensures
            r matches Ok(s) ==> encodes_system_info(*v, s),
            r is Err <==> !exists|s: SystemInfo| encodes_system_info(*v, s),
    {
        let root = match v {
            JsonValue::Object(root) => root,
            _ => return Err(Error::Protocol),
        };
        let system = match field(root, "system") {
            Some(JsonValue::Object(system)) => system,
            _ => return Err(Error::Protocol),
        };
        let info = match field(system, "get_sysinfo") {
            Some(info) => info,
            None => return Err(Error::Protocol),
        };
        match SysInfo::from_json(info) {
            Ok(get_sysinfo) => {
                let s = SystemInfo { system: GetSysInfo { get_sysinfo } };
                assert(encodes_system_info(*v, s));
                Ok(s)
            },
            Err(e) => {
                proof {
                    assert forall|s: SystemInfo| !encodes_system_info(*v, s) by {
                        if encodes_system_info(*v, s) {
                            assert(encodes_sysinfo(*info, s.system.get_sysinfo));
                        }
                    }
                }
                Err(e)
            },
        }
    }

    /// Writes the whole reply envelope around the snapshot.
    pub fn to_json(&self) -> (r: JsonValue)
        ensures
            encodes_system_info(r, *self),
    {
        let info = ("get_sysinfo".to_owned(), self.system.get_sysinfo.to_json());
        let mut system: Vec<(String, JsonValue)> = Vec::new();
        proof {
            lemma_get_field_push(system@, info);
        }
        system.push(info);
        let outer = ("system".to_owned(), JsonValue::Object(system));
        let mut root: Vec<(String, JsonValue)> = Vec::new();
        proof {
            lemma_get_field_push(root@, outer);
        }
        root.push(outer);
        JsonValue::Object(root)
    }
}

/// Writing a snapshot and reading it back loses nothing: every snapshot
/// that one JSON value encodes holds the same values, so what `to_json`
/// writes, `from_json` (which accepts any value that encodes a snapshot)
/// reads back as the snapshot that was written.
pub proof fn lemma_wire_round_trip(v: JsonValue, s: SystemInfo, t: SystemInfo)
    requires
        encodes_system_info(v, s),
        encodes_system_info(v, t),
    ensures
        same_sysinfo(s.system.get_sysinfo, t.system.get_sysinfo),
{
    let a = s.system.get_sysinfo;
    let b = t.system.get_sysinfo;
    match v {
        JsonValue::Object(root) => match get_field(root@, "system"@) {
            Some(JsonValue::Object(system)) => match get_field(system@, "get_sysinfo"@) {
                Some(JsonValue::Object(fs)) => match get_field(fs@, "children"@) {
                    Some(JsonValue::Array(items)) => {
                        assert forall|i: int| 0 <= i < a.children@.len() implies #[trigger] same_child(
                            a.children@[i],
                            b.children@[i],
                        ) by {
                            assert(encodes_child(items@[i], a.children@[i]));
                            assert(encodes_child(items@[i], b.children@[i]));
                        }
                    },
                    _ => {},
                },
                _ => {},
            },
            _ => {},
        },
        _ => {},
    }
}

} // verus!
