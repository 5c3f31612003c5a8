use ipmi_desktop_manager::commands::{
    boot_override_enabled, redfish_base_url, ConnectAction, ConnectFailure, ConnectFlow, ConnectionParams,
    PowerAction, PowerRequest, CHASSIS_NETFN, CHASSIS_POWER_CMD,
};
use ipmi_desktop_manager::json::{JsonNumber, JsonValue};
use ipmi_desktop_manager::redfish::{
    boot_override_body, firmware_info_from_json, fru_info_from_json, parse_status, power_state_from_json,
    reset_body, sel_entries_from_json, system_info_from_json, virtual_media_body, virtual_media_from_json,
    RedfishError, RedfishSession,
};
use ipmi_desktop_manager::text::{str_eq, trim_end_char, trim_start_char, u16_decimal};

fn s(v: &str) -> JsonValue {
    JsonValue::Str(v.to_string())
}

fn obj(members: Vec<(&str, JsonValue)>) -> JsonValue {
    JsonValue::Object(members.into_iter().map(|(k, v)| (k.to_string(), v)).collect())
}

fn num(u: u64) -> JsonValue {
    JsonValue::Number(JsonNumber { as_u64: Some(u), as_f64_to_u64: u })
}

#[test]
fn session_trims_base_url() {
    let rf = RedfishSession::new("https://bmc///".into(), "u".into(), "p".into(), true);
    assert_eq!(rf.base_url, "https://bmc");
    assert!(rf.token.is_none() && rf.session_id.is_none());
    assert_eq!(rf.resource_url("/Systems/system"), "https://bmc/rest/v1/Systems/system");
    assert_eq!(rf.resource_url("Chassis/1"), "https://bmc/rest/v1/Chassis/1");
    assert_eq!(
        rf.action_url("Systems/system", "ComputerSystem.Reset"),
        "https://bmc/rest/v1/Systems/system/Actions/ComputerSystem.Reset"
    );
    assert_eq!(rf.sessions_url(), "https://bmc/rest/v1/SessionService/Sessions");
    assert_eq!(rf.session_url("42"), "https://bmc/rest/v1/SessionService/Sessions/42");
    assert_eq!(rf.virtual_media_url("CD1"), "https://bmc/rest/v1/Managers/1/VirtualMedia/CD1");
    assert_eq!(rf.system_url(), "https://bmc/rest/v1/Systems/system");
}

#[test]
fn auth_headers_follow_the_token() {
    let mut rf = RedfishSession::new("https://bmc".into(), "u".into(), "p".into(), false);
    assert_eq!(rf.auth_headers(), vec![("Content-Type".to_string(), "application/json".to_string())]);
    rf.token = Some("tok".into());
    assert_eq!(
        rf.auth_headers(),
        vec![
            ("Content-Type".to_string(), "application/json".to_string()),
            ("X-Auth-Token".to_string(), "tok".to_string())
        ]
    );
}

#[test]
fn login_answers() {
    let mut rf = RedfishSession::new("https://bmc".into(), "u".into(), "p".into(), false);
    let body = obj(vec![("Token", s("body-token")), ("SessionId", s("7"))]);
    assert!(rf.apply_login(Some("hdr".into()), &body).is_ok());
    assert_eq!(rf.token.as_deref(), Some("hdr"));
    assert_eq!(rf.session_id.as_deref(), Some("7"));

    let mut rf2 = RedfishSession::new("https://bmc".into(), "u".into(), "p".into(), false);
    let body2 = obj(vec![("Token", s("body-token")), ("Id", s("1")), ("SessionId", s("7"))]);
    assert!(rf2.apply_login(None, &body2).is_ok());
    assert_eq!(rf2.token.as_deref(), Some("body-token"));
    assert_eq!(rf2.session_id.as_deref(), Some("1"));

    let mut rf3 = RedfishSession::new("https://bmc".into(), "u".into(), "p".into(), false);
    match rf3.apply_login(None, &obj(vec![])) {
        Err(RedfishError::Connection(m)) => assert_eq!(m, "No auth token received from BMC"),
        other => panic!("unexpected {:?}", other),
    }
}

#[test]
fn system_info_defaults_and_values() {
    let doc = obj(vec![
        ("Name", s("srv")),
        ("Model", num(3)),
        ("PowerState", s("On")),
        ("BootTime", num(100)),
        ("MemorySummary", obj(vec![("TotalSystemMemoryGiB", JsonValue::Number(JsonNumber { as_u64: None, as_f64_to_u64: 63 }))])),
        ("ProcessorSummary", obj(vec![("Count", num(2))])),
    ]);
    let info = system_info_from_json(&doc);
    assert_eq!(info.name, "srv");
    assert_eq!(info.model, "Unknown");
    assert_eq!(info.manufacturer, "Unknown");
    assert_eq!(info.power_state, "On");
    assert_eq!(info.uptime, Some(100));
    assert_eq!(info.total_memory, Some(63));
    assert_eq!(info.processor_count, Some(2));
    assert_eq!(power_state_from_json(&doc), "On");
    assert_eq!(power_state_from_json(&JsonValue::Null), "Unknown");
}

#[test]
fn sel_entries_with_fallbacks() {
    let doc = obj(vec![(
        "Members",
        JsonValue::Array(vec![
            obj(vec![("Id", s("1")), ("Message", s("fan failed")), ("EntryType", s("SEL"))]),
            obj(vec![("Severity", s("Critical")), ("Message", obj(vec![("@odata.id", s("/x"))]))]),
        ]),
    )]);
    let entries = sel_entries_from_json(&doc);
    assert_eq!(entries.len(), 2);
    assert_eq!(entries[0].id, "1");
    assert_eq!(entries[0].severity, "Info");
    assert_eq!(entries[0].message, "fan failed");
    assert_eq!(entries[0].entry_type.as_deref(), Some("SEL"));
    assert_eq!(entries[1].id, "");
    assert_eq!(entries[1].severity, "Critical");
    assert_eq!(entries[1].message, "/x");
    assert!(entries[1].entry_type.is_none());
    assert!(sel_entries_from_json(&obj(vec![("Members", s("none"))])).is_empty());
}

#[test]
fn fru_and_firmware() {
    let chassis = obj(vec![("Name", s("Chassis A")), ("SerialNumber", s("CS1")), ("PartNumber", s("P1"))]);
    let system = obj(vec![("Model", s("X11")), ("Manufacturer", s("Supermicro")), ("SerialNumber", s("SS1"))]);
    let fru = fru_info_from_json(Some(&chassis), Some(&system));
    let board = fru.board.unwrap();
    assert_eq!(board.name, "X11");
    assert_eq!(board.manufacturer.as_deref(), Some("Supermicro"));
    assert_eq!(board.serial_number.as_deref(), Some("CS1"));
    let product = fru.product.unwrap();
    assert_eq!(product.name, "Unknown System");
    assert_eq!(product.serial_number.as_deref(), Some("SS1"));
    assert!(product.version.is_none());
    assert_eq!(fru.chassis.unwrap().name, "Chassis A");
    let none = fru_info_from_json(None, None);
    assert_eq!(none.board.unwrap().name, "Unknown Board");
    assert_eq!(none.chassis.unwrap().name, "Unknown Chassis");
    let fw = firmware_info_from_json(Some(&obj(vec![("FirmwareVersion", s("1.2"))])), None);
    assert_eq!(fw.bmc_version.as_deref(), Some("1.2"));
    assert!(fw.bios_version.is_none());
}

#[test]
fn virtual_media_defaults() {
    let doc = obj(vec![(
        "Members",
        JsonValue::Array(vec![
            obj(vec![("Image", s("http://x/a.iso")), ("Inserted", JsonValue::Bool(true)), ("MediaTypes", JsonValue::Array(vec![s("CD"), s("DVD")]))]),
            obj(vec![("WriteProtected", JsonValue::Bool(false))]),
        ]),
    )]);
    let media = virtual_media_from_json(&doc);
    assert_eq!(media.len(), 2);
    assert_eq!(media[0].image.as_deref(), Some("http://x/a.iso"));
    assert!(media[0].inserted);
    assert!(media[0].write_protected);
    assert_eq!(media[0].media_type.as_deref(), Some("CD"));
    assert!(!media[1].inserted);
    assert!(!media[1].write_protected);
    assert!(media[1].media_type.is_none());
}

#[test]
fn status_and_bodies() {
    let st = parse_status(Some(&obj(vec![("State", s("Enabled")), ("Health", s("OK"))])));
    assert_eq!(st.state.as_deref(), Some("Enabled"));
    assert_eq!(st.health.as_deref(), Some("OK"));
    let none = parse_status(None);
    assert!(none.state.is_none() && none.health.is_none());
    match reset_body("ForceOff") {
        JsonValue::Object(m) => {
            assert_eq!(m.len(), 1);
            assert_eq!(m[0].0, "ResetType");
            assert_eq!(m[0].1.as_str(), Some("ForceOff"));
        }
        _ => panic!("not an object"),
    }
    let vm = virtual_media_body("", false);
    assert_eq!(vm.get("WriteProtected").and_then(|v| v.as_bool()), Some(true));
    assert_eq!(vm.get("Inserted").and_then(|v| v.as_bool()), Some(false));
    let boot = boot_override_body("Cd", "Once");
    let inner = boot.get("Boot").unwrap();
    assert_eq!(inner.get("BootSourceOverrideTarget").and_then(|v| v.as_str()), Some("Cd"));
    assert_eq!(inner.get("BootSourceOverrideEnabled").and_then(|v| v.as_str()), Some("Once"));
}

fn run(mode: &str, redfish_ok: bool, ipmi_ok: bool) -> (ConnectAction, Vec<&'static str>) {
    let mut flow = ConnectFlow::new(mode);
    let mut tried = Vec::new();
    loop {
        match flow.next_action() {
            ConnectAction::AttemptRedfish => {
                tried.push("redfish");
                flow.record_redfish(redfish_ok);
            }
            ConnectAction::AttemptIpmi => {
                tried.push("ipmi");
                flow.record_ipmi(ipmi_ok);
            }
            done => return (done, tried),
        }
    }
}

#[test]
fn connection_flows() {
    assert_eq!(run("Auto", true, true), (ConnectAction::Succeed, vec!["redfish", "ipmi"]));
    assert_eq!(run("Auto", false, true), (ConnectAction::Succeed, vec!["redfish", "ipmi"]));
    assert_eq!(run("Auto", true, false), (ConnectAction::Succeed, vec!["redfish", "ipmi"]));
    assert_eq!(run("Auto", false, false), (ConnectAction::Fail(ConnectFailure::Ipmi), vec!["redfish", "ipmi"]));
    assert_eq!(run("IPMI Only", true, false), (ConnectAction::Fail(ConnectFailure::Ipmi), vec!["ipmi"]));
    assert_eq!(run("IPMI Only", false, true), (ConnectAction::Succeed, vec!["ipmi"]));
    assert_eq!(run("Redfish Only", false, true), (ConnectAction::Fail(ConnectFailure::Redfish), vec!["redfish"]));
    assert_eq!(run("Redfish Only", true, false), (ConnectAction::Succeed, vec!["redfish"]));
}

#[test]
fn power_actions() {
    match PowerAction::HardReset.request(true) {
        PowerRequest::Redfish(t) => assert_eq!(t, "ForceRestart"),
        _ => panic!("expected Redfish"),
    }
    match PowerAction::Cycle.request(false) {
        PowerRequest::Ipmi(netfn, cmd, data) => {
            assert_eq!((netfn, cmd), (CHASSIS_NETFN, CHASSIS_POWER_CMD));
            assert_eq!(data, vec![0x03]);
        }
        _ => panic!("expected IPMI"),
    }
    assert_eq!(PowerAction::GracefulShutdown.chassis_control(), 0x05);
    assert_eq!(PowerAction::Off.reset_type(), "ForceOff");
    assert_eq!(PowerAction::On.confirmation(false), "Power on sent");
    assert_eq!(PowerAction::ForceOff.confirmation(true), "Force off sent via IPMI");
    assert_eq!(boot_override_enabled(true), "Continuous");
    assert_eq!(boot_override_enabled(false), "Once");
}

#[test]
fn base_urls_and_text() {
    assert_eq!(redfish_base_url("10.0.0.1", 443), "https://10.0.0.1");
    assert_eq!(redfish_base_url("10.0.0.1", 8443), "https://10.0.0.1:8443");
    assert_eq!(redfish_base_url("h", 0), "https://h:0");
    assert_eq!(u16_decimal(65535), "65535");
    assert_eq!(trim_end_char("a//", '/'), "a");
    assert_eq!(trim_start_char("//a/", '/'), "a/");
    assert!(str_eq("IPMI Only", "IPMI Only"));
    assert!(!str_eq("IPMI Only", "IPMI only"));
}

#[test]
fn stored_credentials_from_params() {
    let p = ConnectionParams {
        host: "192.168.1.100".into(),
        port: 443,
        username: "ADMIN".into(),
        password: "secret".into(),
        protocol_mode: "Auto".into(),
        skip_tls_verify: false,
    };
    let c = p.stored_credentials();
    assert_eq!(c.host, "192.168.1.100");
    assert_eq!(c.port, 443);
    assert_eq!(c.username, "ADMIN");
    assert_eq!(c.protocol_mode, "Auto");
    assert!(!c.skip_tls_verify);
}
