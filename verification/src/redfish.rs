//! Redfish: the session's URLs and headers, the request bodies, the login
//! answer, and the reading of system, event-log, FRU, firmware and
//! virtual-media resources from their JSON documents. HTTP stays with the
//! application.

use vstd::prelude::*;
use crate::json::{JsonValue, member_text, member_string, member_string_or, opt_text, text_or};
use crate::text::{trim_end_char, trim_end_spec, trim_start_char, trim_start_spec, concat};

verus! {

/// The errors of the Redfish layer that the library decides.
#[derive(Debug)]
pub enum RedfishError {
    /// The BMC did not grant a session.
    Connection(String),
    /// The resource does not exist.
    NotFound(String),
}

/// Result of the Redfish layer.
pub type RedfishResult<T> = Result<T, RedfishError>;

/// A Redfish session with a BMC.
#[derive(Debug)]
pub struct RedfishSession {
    pub base_url: String,
    pub username: String,
    pub password: String,
    pub token: Option<String>,
    pub session_id: Option<String>,
    pub skip_tls_verify: bool,
}

/// The power state of a system.
#[derive(Debug)]
pub struct PowerState {
    pub power_state: String,
}

/// What the system resource says of the machine.
#[derive(Debug)]
pub struct SystemInfo {
    pub name: String,
    pub model: String,
    pub manufacturer: String,
    pub serial_number: String,
    pub bios_version: String,
    pub power_state: String,
    pub uptime: Option<u64>,
    pub total_memory: Option<u64>,
    pub processor_count: Option<u64>,
}

/// State and health of a sensor.
#[derive(Debug)]
pub struct SensorStatus {
    pub state: Option<String>,
    pub health: Option<String>,
}

/// One entry of the System Event Log.
#[derive(Debug)]
pub struct SelEntry {
    pub id: String,
    pub severity: String,
    pub created: String,
    pub message: String,
    pub entry_type: Option<String>,
}

/// Field Replaceable Unit information.
#[derive(Debug)]
pub struct FruInfo {
    pub board: Option<FruBoard>,
    pub product: Option<FruProduct>,
    pub chassis: Option<FruChassis>,
}

/// The board part of the FRU information.
#[derive(Debug)]
pub struct FruBoard {
    pub name: String,
    pub manufacturer: Option<String>,
    pub serial_number: Option<String>,
    pub part_number: Option<String>,
}

/// The product part of the FRU information.
#[derive(Debug)]
pub struct FruProduct {
    pub name: String,
    pub manufacturer: Option<String>,
    pub serial_number: Option<String>,
    pub version: Option<String>,
}

/// The chassis part of the FRU information.
#[derive(Debug)]
pub struct FruChassis {
    pub name: String,
    pub serial_number: Option<String>,
    pub part_number: Option<String>,
}

/// A virtual-media slot.
#[derive(Debug)]
pub struct VirtualMediaStatus {
    pub image: Option<String>,
    pub inserted: bool,
    pub write_protected: bool,
    pub media_type: Option<String>,
}

/// Firmware versions of the BMC and of the BIOS.
#[derive(Debug)]
pub struct FirmwareInfo {
    pub bmc_version: Option<String>,
    pub bios_version: Option<String>,
}

/// Resource path of the computer system.
pub const SYSTEM_PATH: &'static str = "Systems/system";
/// Resource path of the chassis.
pub const CHASSIS_PATH: &'static str = "Chassis/1";
/// Resource path of the thermal readings.
pub const THERMAL_PATH: &'static str = "Chassis/1/Thermal";
/// Resource path of the power readings.
pub const POWER_PATH: &'static str = "Chassis/1/Power";
/// Resource path of the manager (the BMC).
pub const MANAGER_PATH: &'static str = "Managers/1";
/// Resource path of the System Event Log entries.
pub const SEL_ENTRIES_PATH: &'static str = "Managers/1/LogServices/Sel/Entries";
/// Resource path of the System Event Log service.
pub const SEL_SERVICE_PATH: &'static str = "Managers/1/LogServices/Sel";
/// Resource path of the virtual-media collection.
pub const VIRTUAL_MEDIA_PATH: &'static str = "Managers/1/VirtualMedia";
/// Action that resets the computer system.
pub const RESET_ACTION: &'static str = "ComputerSystem.Reset";
/// Action that clears a log.
pub const CLEAR_LOG_ACTION: &'static str = "LogService.ClearLog";

impl RedfishSession {
    /// A session to `base_url` (its trailing slashes removed), not yet logged in.
    pub fn new(base_url: String, username: String, password: String, skip_tls_verify: bool) -> (s: Self)
        ensures
            s.base_url@ == trim_end_spec(base_url@, '/'),
            s.base_url@.len() == 0 || s.base_url@.last() != '/',
            s.username@ == username@,
            s.password@ == password@,
            s.token is None,
            s.session_id is None,
            s.skip_tls_verify == skip_tls_verify,
    {
        proof { crate::text::lemma_trim_end_done(base_url@, '/'); }
        RedfishSession {
            base_url: trim_end_char(base_url.as_str(), '/'),
            username,
            password,
            token: None,
            session_id: None,
            skip_tls_verify,
        }
    }

    /// The headers of a request: JSON content, and the session token when there is one.
    pub fn auth_headers(&self) -> (h: Vec<(String, String)>)
        ensures
            h@.len() == if self.token is Some { 2int } else { 1int },
            h@[0].0@ == "Content-Type"@,
            h@[0].1@ == "application/json"@,
            self.token matches Some(t) ==> h@[1].0@ == "X-Auth-Token"@ && h@[1].1@ == t@,
    {
        let mut headers: Vec<(String, String)> = Vec::new();
        headers.push(("Content-Type".to_owned(), "application/json".to_owned()));
        match &self.token {
            Some(token) => {
                headers.push(("X-Auth-Token".to_owned(), token.clone()));
            },
            None => {},
        }
        headers
    }

    /// The URL of the service root's API prefix: `{base}/rest/v1/`.
    pub open spec fn api_root(self) -> Seq<char> {
        self.base_url@ + "/rest/v1/"@
    }

    /// The URL of a resource: `{base}/rest/v1/{path without leading slashes}`.
    pub fn resource_url(&self, path: &str) -> (u: String)
        ensures
            u@ == self.api_root() + trim_start_spec(path@, '/'),
    {
        let prefix = concat(self.base_url.as_str(), "/rest/v1/");
        let p = trim_start_char(path, '/');
        concat(prefix.as_str(), p.as_str())
    }

    /// The URL of an action: `{base}/rest/v1/{path without leading slashes}/Actions/{action}`.
    pub fn action_url(&self, path: &str, action: &str) -> (u: String)
        ensures
            u@ == self.api_root() + trim_start_spec(path@, '/') + "/Actions/"@ + action@,
    {
        let r = self.resource_url(path);
        let with_actions = concat(r.as_str(), "/Actions/");
        concat(with_actions.as_str(), action)
    }

    /// The URL of the session collection: `{base}/rest/v1/SessionService/Sessions`.
    pub fn sessions_url(&self) -> (u: String)
        ensures
            u@ == self.api_root() + "SessionService/Sessions"@,
    {
        let prefix = concat(self.base_url.as_str(), "/rest/v1/");
        concat(prefix.as_str(), "SessionService/Sessions")
    }

    /// The URL of one session: `{base}/rest/v1/SessionService/Sessions/{id}`.
    pub fn session_url(&self, session_id: &str) -> (u: String)
        ensures
            u@ == self.api_root() + "SessionService/Sessions"@ + "/"@ + session_id@,
    {
        let s = self.sessions_url();
        let with_slash = concat(s.as_str(), "/");
        concat(with_slash.as_str(), session_id)
    }

    /// The URL of a virtual-media slot: `{base}/rest/v1/Managers/1/VirtualMedia/{slot}`.
    pub fn virtual_media_url(&self, slot: &str) -> (u: String)
        ensures
            u@ == self.api_root() + "Managers/1/VirtualMedia/"@ + slot@,
    {
        let prefix = concat(self.base_url.as_str(), "/rest/v1/");
        let with_path = concat(prefix.as_str(), "Managers/1/VirtualMedia/");
        concat(with_path.as_str(), slot)
    }

    /// The URL of the computer system: `{base}/rest/v1/Systems/system`.
    pub fn system_url(&self) -> (u: String)
        ensures
            u@ == self.api_root() + "Systems/system"@,
    {
        let prefix = concat(self.base_url.as_str(), "/rest/v1/");
        concat(prefix.as_str(), "Systems/system")
    }
}


/// The text of member `key` of an optional document.
pub open spec fn opt_member_text(v: Option<JsonValue>, key: Seq<char>) -> Option<Seq<char>> {
    match v {
        Some(d) => member_text(d, key),
        None => None,
    }
}

/// Member `inner` of member `outer` of `v`.
pub open spec fn nested_member(v: JsonValue, outer: Seq<char>, inner: Seq<char>) -> Option<JsonValue> {
    match v.member(outer) {
        Some(o) => o.member(inner),
        None => None,
    }
}

/// The elements of member `key` of `v` when it is an array, else none.
pub open spec fn member_elements(v: JsonValue, key: Seq<char>) -> Seq<JsonValue> {
    match v.member(key) {
        Some(m) => match m.elements() {
            Some(e) => e,
            None => Seq::empty(),
        },
        None => Seq::empty(),
    }
}

/// The system resource read into `SystemInfo`: missing strings read as
/// "Unknown"; the uptime is `BootTime` and the processor count
/// `ProcessorSummary.Count` as unsigned integers; the memory is
/// `MemorySummary.TotalSystemMemoryGiB` read as a double cut to an integer.
pub open spec fn system_info_matches(r: SystemInfo, val: JsonValue) -> bool {
    &&& r.name@ == text_or(member_text(val, "Name"@), "Unknown"@)
    &&& r.model@ == text_or(member_text(val, "Model"@), "Unknown"@)
    &&& r.manufacturer@ == text_or(member_text(val, "Manufacturer"@), "Unknown"@)
    &&& r.serial_number@ == text_or(member_text(val, "SerialNumber"@), "Unknown"@)
    &&& r.bios_version@ == text_or(member_text(val, "BiosVersion"@), "Unknown"@)
    &&& r.power_state@ == text_or(member_text(val, "PowerState"@), "Unknown"@)
    &&& r.uptime == match val.member("BootTime"@) { Some(m) => m.unsigned(), None => None }
    &&& r.total_memory == match nested_member(val, "MemorySummary"@, "TotalSystemMemoryGiB"@) {
        Some(m) => m.float_to_u64(),
        None => None,
    }
    &&& r.processor_count == match nested_member(val, "ProcessorSummary"@, "Count"@) {
        Some(m) => m.unsigned(),
        None => None,
    }
}

fn member_u64(v: &JsonValue, key: &str) -> (r: Option<u64>)
    ensures
        r == match v.member(key@) { Some(m) => m.unsigned(), None => None },
{
    match v.get(key) {
        Some(m) => m.as_u64(),
        None => None,
    }
}

fn nested_get<'a>(v: &'a JsonValue, outer: &str, inner: &str) -> (r: Option<&'a JsonValue>)
    ensures
        match nested_member(*v, outer@, inner@) {
            Some(m) => r matches Some(x) && *x == m,
            None => r is None,
        },
{
    match v.get(outer) {
        Some(o) => o.get(inner),
        None => None,
    }
}

/// Reads the system resource.
pub fn system_info_from_json(val: &JsonValue) -> (r: SystemInfo)
    ensures
        system_info_matches(r, *val),
        r.serial_number@ == text_or(member_text(*val, "SerialNumber"@), "Unknown"@),
        r.bios_version@ == text_or(member_text(*val, "BiosVersion"@), "Unknown"@),
        r.name@ == text_or(member_text(*val, "Name"@), "Unknown"@),
        r.model@ == text_or(member_text(*val, "Model"@), "Unknown"@),
        r.manufacturer@ == text_or(member_text(*val, "Manufacturer"@), "Unknown"@),
        r.power_state@ == text_or(member_text(*val, "PowerState"@), "Unknown"@),
{
    let total_memory = match nested_get(val, "MemorySummary", "TotalSystemMemoryGiB") {
        Some(m) => m.as_f64_to_u64(),
        None => None,
    };
    let processor_count = match nested_get(val, "ProcessorSummary", "Count") {
        Some(m) => m.as_u64(),
        None => None,
    };
    SystemInfo {
        name: member_string_or(val, "Name", "Unknown"),
        model: member_string_or(val, "Model", "Unknown"),
        manufacturer: member_string_or(val, "Manufacturer", "Unknown"),
        serial_number: member_string_or(val, "SerialNumber", "Unknown"),
        bios_version: member_string_or(val, "BiosVersion", "Unknown"),
        power_state: member_string_or(val, "PowerState", "Unknown"),
        uptime: member_u64(val, "BootTime"),
        total_memory,
        processor_count,
    }
}

/// Reads the power state of the system resource ("Unknown" when missing).
pub fn power_state_from_json(val: &JsonValue) -> (r: String)
    ensures
        r@ == text_or(member_text(*val, "PowerState"@), "Unknown"@),
{
    member_string_or(val, "PowerState", "Unknown")
}

/// The message of an event-log entry: `Message` when it is a string, else
/// `Message.@odata.id`, else empty.
pub open spec fn sel_message(e: JsonValue) -> Seq<char> {
    match member_text(e, "Message"@) {
        Some(t) => t,
        None => match e.member("Message"@) {
            Some(m) => text_or(member_text(m, "@odata.id"@), ""@),
            None => ""@,
        },
    }
}

/// An event-log entry read from its JSON member: missing ID, creation time
/// and message read as empty, a missing severity as "Info".
pub open spec fn sel_entry_matches(r: SelEntry, e: JsonValue) -> bool {
    &&& r.id@ == text_or(member_text(e, "Id"@), ""@)
    &&& r.severity@ == text_or(member_text(e, "Severity"@), "Info"@)
    &&& r.created@ == text_or(member_text(e, "Created"@), ""@)
    &&& r.message@ == sel_message(e)
    &&& opt_text(r.entry_type) == member_text(e, "EntryType"@)
}

/// Reads one event-log entry.
pub fn sel_entry_from_json(e: &JsonValue) -> (r: SelEntry)
    ensures
        sel_entry_matches(r, *e),
        r.id@ == text_or(member_text(*e, "Id"@), ""@),
        r.created@ == text_or(member_text(*e, "Created"@), ""@),
        r.severity@ == text_or(member_text(*e, "Severity"@), "Info"@),
        opt_text(r.entry_type) == member_text(*e, "EntryType"@),
{
    let message = match member_string(e, "Message") {
        Some(m) => m,
        None => match e.get("Message") {
            Some(m) => member_string_or(m, "@odata.id", ""),
            None => "".to_owned(),
        },
    };
    SelEntry {
        id: member_string_or(e, "Id", ""),
        severity: member_string_or(e, "Severity", "Info"),
        created: member_string_or(e, "Created", ""),
        message,
        entry_type: member_string(e, "EntryType"),
    }
}

/// Reads the event-log entries: one per element of `Members` (none when it is not an array).
pub fn sel_entries_from_json(val: &JsonValue) -> (r: Vec<SelEntry>)
    ensures
        r@.len() == member_elements(*val, "Members"@).len(),
        forall|i: int| 0 <= i < r@.len() ==> sel_entry_matches(#[trigger] r@[i], member_elements(*val, "Members"@)[i]),
{
    let mut out: Vec<SelEntry> = Vec::new();
    match val.get("Members") {
        Some(m) => match m.as_array() {
            Some(arr) => {
                let mut i: usize = 0;
                while i < arr.len()
                    invariant
                        i <= arr@.len(),
                        arr@ == member_elements(*val, "Members"@),
                        out@.len() == i,
                        forall|k: int| 0 <= k < i ==> sel_entry_matches(#[trigger] out@[k], arr@[k]),
                    decreases arr@.len() - i,
                {
                    out.push(sel_entry_from_json(&arr[i]));
                    i = i + 1;
                }
            },
            None => {},
        },
        None => {},
    }
    out
}

fn opt_member_string(v: Option<&JsonValue>, key: &str) -> (r: Option<String>)
    ensures
        opt_text(r) == match v { Some(d) => member_text(*d, key@), None => None },
{
    match v {
        Some(d) => member_string(d, key),
        None => None,
    }
}

/// The FRU information as read from the chassis and system resources (either
/// may be missing): board name from the system model, product name from the
/// system name, chassis name from the chassis name, each with an
/// "Unknown ..." default; serial and part numbers as each resource gives them.
pub open spec fn fru_info_matches(r: FruInfo, chassis: Option<JsonValue>, system: Option<JsonValue>) -> bool {
    &&& r.board matches Some(b) && {
        &&& b.name@ == text_or(opt_member_text(system, "Model"@), "Unknown Board"@)
        &&& opt_text(b.manufacturer) == opt_member_text(system, "Manufacturer"@)
        &&& opt_text(b.serial_number) == opt_member_text(chassis, "SerialNumber"@)
        &&& opt_text(b.part_number) == opt_member_text(chassis, "PartNumber"@)
    }
    &&& r.product matches Some(p) && {
        &&& p.name@ == text_or(opt_member_text(system, "Name"@), "Unknown System"@)
        &&& opt_text(p.manufacturer) == opt_member_text(system, "Manufacturer"@)
        &&& opt_text(p.serial_number) == opt_member_text(system, "SerialNumber"@)
        &&& p.version is None
    }
    &&& r.chassis matches Some(c) && {
        &&& c.name@ == text_or(opt_member_text(chassis, "Name"@), "Unknown Chassis"@)
        &&& opt_text(c.serial_number) == opt_member_text(chassis, "SerialNumber"@)
        &&& opt_text(c.part_number) == opt_member_text(chassis, "PartNumber"@)
    }
}

fn opt_member_string_or(v: Option<&JsonValue>, key: &str, default: &str) -> (r: String)
    ensures
        r@ == text_or(match v { Some(d) => member_text(*d, key@), None => None }, default@),
{
    match opt_member_string(v, key) {
        Some(s) => s,
        None => default.to_owned(),
    }
}

/// The deref view of an optional document reference.
pub open spec fn opt_doc(v: Option<&JsonValue>) -> Option<JsonValue> {
    match v {
        Some(d) => Some(*d),
        None => None,
    }
}

/// Reads the FRU information from the chassis and system resources.
pub fn fru_info_from_json(chassis: Option<&JsonValue>, system: Option<&JsonValue>) -> (r: FruInfo)
    ensures
        fru_info_matches(r, opt_doc(chassis), opt_doc(system)),
        r.chassis matches Some(c) && opt_text(c.serial_number) == opt_member_text(opt_doc(chassis), "SerialNumber"@)
            && opt_text(c.part_number) == opt_member_text(opt_doc(chassis), "PartNumber"@)
            && c.name@ == text_or(opt_member_text(opt_doc(chassis), "Name"@), "Unknown Chassis"@),
        r.product matches Some(p) && opt_text(p.serial_number) == opt_member_text(opt_doc(system), "SerialNumber"@)
            && p.name@ == text_or(opt_member_text(opt_doc(system), "Name"@), "Unknown System"@),
        r.board matches Some(b) && b.name@ == text_or(opt_member_text(opt_doc(system), "Model"@), "Unknown Board"@)
            && opt_text(b.serial_number) == opt_member_text(opt_doc(chassis), "SerialNumber"@),
{
    FruInfo {
        board: Some(FruBoard {
            name: opt_member_string_or(system, "Model", "Unknown Board"),
            manufacturer: opt_member_string(system, "Manufacturer"),
            serial_number: opt_member_string(chassis, "SerialNumber"),
            part_number: opt_member_string(chassis, "PartNumber"),
        }),
        product: Some(FruProduct {
            name: opt_member_string_or(system, "Name", "Unknown System"),
            manufacturer: opt_member_string(system, "Manufacturer"),
            serial_number: opt_member_string(system, "SerialNumber"),
            version: None,
        }),
        chassis: Some(FruChassis {
            name: opt_member_string_or(chassis, "Name", "Unknown Chassis"),
            serial_number: opt_member_string(chassis, "SerialNumber"),
            part_number: opt_member_string(chassis, "PartNumber"),
        }),
    }
}

/// Reads the firmware versions from the manager and system resources (either may be missing).
pub fn firmware_info_from_json(manager: Option<&JsonValue>, system: Option<&JsonValue>) -> (r: FirmwareInfo)
    ensures
        opt_text(r.bmc_version) == opt_member_text(opt_doc(manager), "FirmwareVersion"@),
        opt_text(r.bios_version) == opt_member_text(opt_doc(system), "BiosVersion"@),
{
    FirmwareInfo {
        bmc_version: opt_member_string(manager, "FirmwareVersion"),
        bios_version: opt_member_string(system, "BiosVersion"),
    }
}

/// The first media type of a virtual-media slot, when `MediaTypes` is an
/// array whose first element is a string.
pub open spec fn first_media_type(vm: JsonValue) -> Option<Seq<char>> {
    match vm.member("MediaTypes"@) {
        Some(m) => match m.elements() {
            Some(e) => if e.len() > 0 { e[0].text() } else { None },
            None => None,
        },
        None => None,
    }
}

/// A virtual-media slot read from its JSON member: not inserted and
/// write-protected unless the document says otherwise.
pub open spec fn virtual_media_matches(r: VirtualMediaStatus, vm: JsonValue) -> bool {
    &&& opt_text(r.image) == member_text(vm, "Image"@)
    &&& r.inserted == match vm.member("Inserted"@) {
        Some(m) => match m.boolean() { Some(b) => b, None => false },
        None => false,
    }
    &&& r.write_protected == match vm.member("WriteProtected"@) {
        Some(m) => match m.boolean() { Some(b) => b, None => true },
        None => true,
    }
    &&& opt_text(r.media_type) == first_media_type(vm)
}

fn member_bool_or(v: &JsonValue, key: &str, default: bool) -> (r: bool)
    ensures
        r == match v.member(key@) {
            Some(m) => match m.boolean() { Some(b) => b, None => default },
            None => default,
        },
{
    match v.get(key) {
        Some(m) => match m.as_bool() {
            Some(b) => b,
            None => default,
        },
        None => default,
    }
}

/// Reads one virtual-media slot.
pub fn virtual_media_from_member(vm: &JsonValue) -> (r: VirtualMediaStatus)
    ensures
        virtual_media_matches(r, *vm),
{
    let media_type = match vm.get("MediaTypes") {
        Some(m) => match m.as_array() {
            Some(arr) => if arr.len() > 0 {
                match arr[0].as_str() {
                    Some(s) => Some(s.to_owned()),
                    None => None,
                }
            } else {
                None
            },
            None => None,
        },
        None => None,
    };
    VirtualMediaStatus {
        image: member_string(vm, "Image"),
        inserted: member_bool_or(vm, "Inserted", false),
        write_protected: member_bool_or(vm, "WriteProtected", true),
        media_type,
    }
}

/// Reads the virtual-media slots: one per element of `Members` (none when it is not an array).
pub fn virtual_media_from_json(val: &JsonValue) -> (r: Vec<VirtualMediaStatus>)
    ensures
        r@.len() == member_elements(*val, "Members"@).len(),
        forall|i: int| 0 <= i < r@.len() ==> virtual_media_matches(#[trigger] r@[i], member_elements(*val, "Members"@)[i]),
{
    let mut out: Vec<VirtualMediaStatus> = Vec::new();
    match val.get("Members") {
        Some(m) => match m.as_array() {
            Some(arr) => {
                let mut i: usize = 0;
                while i < arr.len()
                    invariant
                        i <= arr@.len(),
                        arr@ == member_elements(*val, "Members"@),
                        out@.len() == i,
                        forall|k: int| 0 <= k < i ==> virtual_media_matches(#[trigger] out@[k], arr@[k]),
                    decreases arr@.len() - i,
                {
                    out.push(virtual_media_from_member(&arr[i]));
                    i = i + 1;
                }
            },
            None => {},
        },
        None => {},
    }
    out
}

/// Reads a sensor's `Status` object (both parts absent when there is none).
pub fn parse_status(val: Option<&JsonValue>) -> (r: SensorStatus)
    ensures
        opt_text(r.state) == opt_member_text(opt_doc(val), "State"@),
        opt_text(r.health) == opt_member_text(opt_doc(val), "Health"@),
{
    match val {
        Some(s) => SensorStatus { state: member_string(s, "State"), health: member_string(s, "Health") },
        None => SensorStatus { state: None, health: None },
    }
}

/// An object of string members, in order.
pub open spec fn is_string_object(v: JsonValue, keys: Seq<Seq<char>>, values: Seq<Seq<char>>) -> bool {
    &&& v matches JsonValue::Object(m) && m@.len() == keys.len()
    &&& keys.len() == values.len()
    &&& forall|i: int| 0 <= i < keys.len() ==> {
        &&& #[trigger] v->Object_0@[i].0@ == keys[i]
        &&& v->Object_0@[i].1.text() == Some(values[i])
    }
}

fn string_member(key: &str, value: &str) -> (r: (String, JsonValue))
    ensures
        r.0@ == key@,
        r.1.text() == Some(value@),
{
    (key.to_owned(), JsonValue::Str(value.to_owned()))
}

/// The body of a login: `{"UserName": user, "Password": password}`.
pub fn login_body(username: &str, password: &str) -> (b: JsonValue)
    ensures
        is_string_object(b, seq!["UserName"@, "Password"@], seq![username@, password@]),
{
    let mut m: Vec<(String, JsonValue)> = Vec::new();
    m.push(string_member("UserName", username));
    m.push(string_member("Password", password));
    JsonValue::Object(m)
}

/// The body of a reset action: `{"ResetType": reset_type}`.
pub fn reset_body(reset_type: &str) -> (b: JsonValue)
    ensures
        is_string_object(b, seq!["ResetType"@], seq![reset_type@]),
{
    let mut m: Vec<(String, JsonValue)> = Vec::new();
    m.push(string_member("ResetType", reset_type));
    JsonValue::Object(m)
}

/// The body of the clear-log action: an empty object.
pub fn clear_log_body() -> (b: JsonValue)
    ensures
        b matches JsonValue::Object(m) && m@.len() == 0,
{
    JsonValue::Object(Vec::new())
}

/// The body that inserts or ejects virtual media:
/// `{"Image": image_url, "Inserted": inserted, "WriteProtected": true}`.
pub fn virtual_media_body(image_url: &str, inserted: bool) -> (b: JsonValue)
    ensures
        b matches JsonValue::Object(m) && m@.len() == 3 && {
            &&& m@[0].0@ == "Image"@ && m@[0].1.text() == Some(image_url@)
            &&& m@[1].0@ == "Inserted"@ && m@[1].1.boolean() == Some(inserted)
            &&& m@[2].0@ == "WriteProtected"@ && m@[2].1.boolean() == Some(true)
        },
{
    let mut m: Vec<(String, JsonValue)> = Vec::new();
    m.push(string_member("Image", image_url));
    m.push(("Inserted".to_owned(), JsonValue::Bool(inserted)));
    m.push(("WriteProtected".to_owned(), JsonValue::Bool(true)));
    JsonValue::Object(m)
}

/// The body that overrides the next boot:
/// `{"Boot": {"BootSourceOverrideTarget": target, "BootSourceOverrideEnabled": enabled}}`.
pub fn boot_override_body(target: &str, enabled: &str) -> (b: JsonValue)
    ensures
        b matches JsonValue::Object(m) && m@.len() == 1 && m@[0].0@ == "Boot"@
            && is_string_object(m@[0].1, seq!["BootSourceOverrideTarget"@, "BootSourceOverrideEnabled"@],
                seq![target@, enabled@]),
{
    let mut inner: Vec<(String, JsonValue)> = Vec::new();
    inner.push(string_member("BootSourceOverrideTarget", target));
    inner.push(string_member("BootSourceOverrideEnabled", enabled));
    let mut m: Vec<(String, JsonValue)> = Vec::new();
    m.push(("Boot".to_owned(), JsonValue::Object(inner)));
    JsonValue::Object(m)
}

impl RedfishSession {
    /// Takes the answer to a login: the token from the `X-Auth-Token` header
    /// when there is one, else from the body's `Token`; the session ID from the
    /// body's `Id`, else its `SessionId`. What the answer lacks stays as it
    /// was. Without a token the login has failed.
    pub fn apply_login(&mut self, header_token: Option<String>, body: &JsonValue) -> (r: RedfishResult<()>)
        ensures
            opt_text(final(self).token) == match header_token {
                Some(t) => Some(t@),
                None => match member_text(*body, "Token"@) {
                    Some(t) => Some(t),
                    None => opt_text(old(self).token),
                },
            },
            opt_text(final(self).session_id) == match member_text(*body, "Id"@) {
                Some(i) => Some(i),
                None => match member_text(*body, "SessionId"@) {
                    Some(i) => Some(i),
                    None => opt_text(old(self).session_id),
                },
            },
            final(self).base_url == old(self).base_url,
            final(self).username == old(self).username,
            final(self).password == old(self).password,
            final(self).skip_tls_verify == old(self).skip_tls_verify,
            r is Ok <==> final(self).token is Some,
            r matches Err(e) ==> e matches RedfishError::Connection(m) && m@ == "No auth token received from BMC"@,
    {
        match header_token {
            Some(t) => {
                self.token = Some(t);
            },
            None => match member_string(body, "Token") {
                Some(t) => {
                    self.token = Some(t);
                },
                None => {},
            },
        }
        match member_string(body, "Id") {
            Some(i) => {
                self.session_id = Some(i);
            },
            None => match member_string(body, "SessionId") {
                Some(i) => {
                    self.session_id = Some(i);
                },
                None => {},
            },
        }
        if self.token.is_none() {
            return Err(RedfishError::Connection("No auth token received from BMC".to_owned()));
        }
        Ok(())
    }
}


/// What the dashboard shows of a system resource `val`, field by field: the
/// name, model, manufacturer, serial number, BIOS version and power state are
/// the `Name`, `Model`, `Manufacturer`, `SerialNumber`, `BiosVersion` and
/// `PowerState` strings of the resource ("Unknown" when absent); the uptime is
/// `BootTime`, the processor count `ProcessorSummary.Count`, and the memory
/// `MemorySummary.TotalSystemMemoryGiB`. Holds of every result of
/// `system_info_from_json`.
pub proof fn law_system_info_fields(r: SystemInfo, val: JsonValue)
    requires
        system_info_matches(r, val),
    ensures
        r.name@ == text_or(member_text(val, "Name"@), "Unknown"@),
        r.model@ == text_or(member_text(val, "Model"@), "Unknown"@),
        r.manufacturer@ == text_or(member_text(val, "Manufacturer"@), "Unknown"@),
        r.serial_number@ == text_or(member_text(val, "SerialNumber"@), "Unknown"@),
        r.bios_version@ == text_or(member_text(val, "BiosVersion"@), "Unknown"@),
        r.power_state@ == text_or(member_text(val, "PowerState"@), "Unknown"@),
        member_text(val, "SerialNumber"@) matches Some(t) ==> r.serial_number@ == t,
        member_text(val, "BiosVersion"@) matches Some(t) ==> r.bios_version@ == t,
        r.uptime == match val.member("BootTime"@) { Some(m) => m.unsigned(), None => None },
        r.processor_count == match val.member("ProcessorSummary"@) {
            Some(o) => match o.member("Count"@) { Some(m) => m.unsigned(), None => None },
            None => None,
        },
        r.total_memory == match val.member("MemorySummary"@) {
            Some(o) => match o.member("TotalSystemMemoryGiB"@) { Some(m) => m.float_to_u64(), None => None },
            None => None,
        },
{
}

/// What an event-log entry shows of its JSON member `e`: the ID, creation
/// time and severity are the `Id`, `Created` and `Severity` strings ("", ""
/// and "Info" when absent); the message is `Message` when it is a string,
/// else the string `Message.@odata.id`, else empty; the entry type is
/// `EntryType` when present. Holds of every entry `sel_entries_from_json` gives.
pub proof fn law_sel_entry_fields(r: SelEntry, e: JsonValue)
    requires
        sel_entry_matches(r, e),
    ensures
        r.id@ == text_or(member_text(e, "Id"@), ""@),
        r.created@ == text_or(member_text(e, "Created"@), ""@),
        member_text(e, "Created"@) matches Some(t) ==> r.created@ == t,
        r.severity@ == text_or(member_text(e, "Severity"@), "Info"@),
        member_text(e, "Message"@) matches Some(t) ==> r.message@ == t,
        member_text(e, "Message"@) is None ==> r.message@ == match e.member("Message"@) {
            Some(m) => text_or(member_text(m, "@odata.id"@), ""@),
            None => ""@,
        },
        opt_text(r.entry_type) == member_text(e, "EntryType"@),
{
}

/// Where each FRU field comes from: the chassis part only from the chassis
/// resource (`Name`, default "Unknown Chassis"; `SerialNumber`; `PartNumber`),
/// the product part only from the system resource (`Name`, default
/// "Unknown System"; `Manufacturer`; `SerialNumber`; no version), and the board
/// from the system's `Model` (default "Unknown Board") and `Manufacturer` with
/// the chassis's serial and part numbers. All three parts are present. Holds of
/// every result of `fru_info_from_json`.
pub proof fn law_fru_sources(r: FruInfo, chassis: Option<JsonValue>, system: Option<JsonValue>)
    requires
        fru_info_matches(r, chassis, system),
    ensures
        r.board is Some && r.product is Some && r.chassis is Some,
        r.chassis->0.name@ == text_or(opt_member_text(chassis, "Name"@), "Unknown Chassis"@),
        opt_text(r.chassis->0.serial_number) == opt_member_text(chassis, "SerialNumber"@),
        opt_text(r.chassis->0.part_number) == opt_member_text(chassis, "PartNumber"@),
        r.product->0.name@ == text_or(opt_member_text(system, "Name"@), "Unknown System"@),
        opt_text(r.product->0.manufacturer) == opt_member_text(system, "Manufacturer"@),
        opt_text(r.product->0.serial_number) == opt_member_text(system, "SerialNumber"@),
        r.product->0.version is None,
        r.board->0.name@ == text_or(opt_member_text(system, "Model"@), "Unknown Board"@),
        opt_text(r.board->0.manufacturer) == opt_member_text(system, "Manufacturer"@),
        opt_text(r.board->0.serial_number) == opt_member_text(chassis, "SerialNumber"@),
        opt_text(r.board->0.part_number) == opt_member_text(chassis, "PartNumber"@),
{
}

/// The chassis part of the FRU information does not depend on the system
/// resource, nor the product part on the chassis resource.
pub proof fn law_fru_parts_independent(
    r1: FruInfo,
    r2: FruInfo,
    chassis1: Option<JsonValue>,
    chassis2: Option<JsonValue>,
    system1: Option<JsonValue>,
    system2: Option<JsonValue>,
)
    requires
        fru_info_matches(r1, chassis1, system1),
        fru_info_matches(r2, chassis2, system2),
    ensures
        chassis1 == chassis2 ==> {
            &&& r1.chassis->0.name@ == r2.chassis->0.name@
            &&& opt_text(r1.chassis->0.serial_number) == opt_text(r2.chassis->0.serial_number)
            &&& opt_text(r1.chassis->0.part_number) == opt_text(r2.chassis->0.part_number)
        },
        system1 == system2 ==> {
            &&& r1.product->0.name@ == r2.product->0.name@
            &&& opt_text(r1.product->0.manufacturer) == opt_text(r2.product->0.manufacturer)
            &&& opt_text(r1.product->0.serial_number) == opt_text(r2.product->0.serial_number)
        },
{
}

/// What a virtual-media slot shows of its JSON member `vm`: the image is
/// `Image`; it is inserted only when `Inserted` is `true`, and
/// write-protected unless `WriteProtected` is `false`; the media type is the
/// first string of `MediaTypes`.
pub proof fn law_virtual_media_fields(r: VirtualMediaStatus, vm: JsonValue)
    requires
        virtual_media_matches(r, vm),
    ensures
        opt_text(r.image) == member_text(vm, "Image"@),
        r.inserted <==> (vm.member("Inserted"@) matches Some(m) && m.boolean() == Some(true)),
        !r.write_protected <==> (vm.member("WriteProtected"@) matches Some(m) && m.boolean() == Some(false)),
        opt_text(r.media_type) == match vm.member("MediaTypes"@) {
            Some(m) => match m.elements() {
                Some(e) => if e.len() > 0 { e[0].text() } else { None },
                None => None,
            },
            None => None,
        },
{
}

} // verus!
