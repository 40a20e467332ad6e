//! The system-info data model that a `get_sysinfo` reply carries, with the
//! outlet records nested in it, alias lookup and outlet addressing.
use vstd::prelude::*;
use vstd::string::*;

verus! {

/// The root of a `get_sysinfo` reply: `{"system": {...}}`.
#[derive(Debug)]
pub struct SystemInfo {
    pub system: GetSysInfo,
}

/// The `{"get_sysinfo": {...}}` level of the reply.
#[derive(Debug)]
pub struct GetSysInfo {
    pub get_sysinfo: SysInfo,
}

/// A snapshot of the device; on the wire `device_id`, `hw_id` and `oem_id`
/// are named `deviceId`, `hwId` and `oemId`.
#[derive(Debug)]
pub struct SysInfo {
    pub alias: String,
    pub child_num: u8,
    pub children: Vec<Child>,
    pub device_id: String,
    pub err_code: u8,
    pub feature: String,
    pub hw_id: String,
    pub hw_ver: String,
    pub latitude_i: i32,
    pub led_off: u8,
    pub longitude_i: i32,
    pub mac: String,
    pub mic_type: String,
    pub model: String,
    pub oem_id: String,
    pub rssi: i8,
    pub status: String,
    pub sw_ver: String,
    pub updating: u8,
}

/// One outlet of the strip; `state` is 0 when it is off.
#[derive(Debug)]
pub struct Child {
    pub alias: String,
    pub id: String,
    pub next_action: NextAction,
    pub on_time: u32,
    pub state: u8,
}

/// The next scheduled action of an outlet; on the wire `type_field` is `type`.
#[derive(Debug)]
pub struct NextAction {
    pub type_field: i8,
}

/// The first outlet whose alias equals `alias` exactly, if any.
pub open spec fn find_alias(children: Seq<Child>, alias: Seq<char>) -> Option<Child>
    decreases children.len(),
{
    if children.len() == 0 {
        None
    } else if children[0].alias@ == alias {
        Some(children[0])
    } else {
        find_alias(children.drop_first(), alias)
    }
}

proof fn lemma_find_alias_step(children: Seq<Child>, alias: Seq<char>, i: int)
    requires
        0 <= i < children.len(),
    ensures
        find_alias(children.subrange(i, children.len() as int), alias) == (if children[i].alias@
            == alias {
            Some(children[i])
        } else {
            find_alias(children.subrange(i + 1, children.len() as int), alias)
        }),
{
    let rest = children.subrange(i, children.len() as int);
    assert(rest.drop_first() =~= children.subrange(i + 1, children.len() as int));
}

impl SysInfo {
    /// The first outlet whose alias matches `alias` exactly (case counts);
    /// aliases are not guaranteed unique, so a later duplicate is never found.
    pub fn find_child_by_alias(&self, alias: &str) -> (r: Option<&Child>)
        ensures
            r matches Some(c) ==> find_alias(self.children@, alias@) == Some(*c),
            r is None ==> find_alias(self.children@, alias@) is None,
    {
        let wanted = alias.to_owned();
        let mut i: usize = 0;
        assert(self.children@.subrange(0, self.children@.len() as int) =~= self.children@);
        while i < self.children.len()
            invariant
                i <= self.children@.len(),
                wanted@ == alias@,
                find_alias(self.children@, alias@) == find_alias(
                    self.children@.subrange(i as int, self.children@.len() as int),
                    alias@,
                ),
            decreases self.children@.len() - i,
        {
            proof {
                lemma_find_alias_step(self.children@, alias@, i as int);
            }
            if self.children[i].alias == wanted {
                return Some(&self.children[i]);
            }
            i = i + 1;
        }
        assert(self.children@.subrange(i as int, self.children@.len() as int) =~= Seq::<
            Child,
        >::empty());
        None
    }
}

/// The address of one outlet: the device id immediately followed by the
/// outlet id, with no separator.
pub fn composite_address(device_id: &str, child_id: &str) -> (r: String)
    ensures
        r@ == device_id@ + child_id@,
{
    let mut address = device_id.to_owned();
    address.append(child_id);
    address
}

} // verus!
