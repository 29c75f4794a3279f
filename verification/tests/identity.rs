use studio_shell::identity::{
    cache_file_name, finish_store, get_machine_id, load_or_create_app_uuid, read_os_machine_id,
    resume_os, OsSource, Platform, Probe, Reading, Request, Step,
};

/// A machine for the resolver to run on: what each source gives, the
/// identifier file, and whether the file can be written.
struct FakeMachine {
    platform: Platform,
    machine_guid: Option<String>,
    etc_machine_id: Option<String>,
    dbus_machine_id: Option<String>,
    ioreg: Option<(bool, Vec<u8>)>,
    cache: Option<String>,
    store_failure: Option<String>,
    requests: Vec<String>,
}

impl FakeMachine {
    fn new(platform: Platform) -> FakeMachine {
        FakeMachine {
            platform,
            machine_guid: None,
            etc_machine_id: None,
            dbus_machine_id: None,
            ioreg: None,
            cache: None,
            store_failure: None,
            requests: Vec::new(),
        }
    }

    fn text(value: &Option<String>) -> Reading {
        match value {
            Some(text) => Reading::Text(text.clone()),
            None => Reading::Unavailable,
        }
    }

    fn read(&self, source: OsSource) -> Reading {
        match source {
            OsSource::MachineGuid => FakeMachine::text(&self.machine_guid),
            OsSource::EtcMachineId => FakeMachine::text(&self.etc_machine_id),
            OsSource::DbusMachineId => FakeMachine::text(&self.dbus_machine_id),
            OsSource::PlatformDevice => match &self.ioreg {
                Some((success, stdout)) => {
                    Reading::Output { success: *success, stdout: stdout.clone() }
                }
                None => Reading::Unavailable,
            },
        }
    }

    /// Carries one resolution through, as an application would.
    fn resolve(&mut self) -> Result<String, String> {
        let mut step = get_machine_id(self.platform);
        loop {
            step = match step {
                Step::Done(result) => return result,
                Step::Ask(Request::ReadOs(source)) => {
                    self.requests.push(format!("{:?}", source));
                    resume_os(source, &self.read(source))
                }
                Step::Ask(Request::ReadCache) => {
                    self.requests.push("cache".to_string());
                    load_or_create_app_uuid(&FakeMachine::text(&self.cache))
                }
                Step::Ask(Request::Store(id)) => {
                    self.requests.push("store".to_string());
                    let outcome = match &self.store_failure {
                        Some(message) => Err(message.clone()),
                        None => {
                            self.cache = Some(id.clone());
                            Ok(())
                        }
                    };
                    finish_store(id, outcome)
                }
            };
        }
    }
}

fn assert_uuid_v4(id: &str) {
    assert_eq!(id.len(), 36);
    for (i, c) in id.chars().enumerate() {
        if i == 8 || i == 13 || i == 18 || i == 23 {
            assert_eq!(c, '-');
        } else {
            assert!(c.is_ascii_digit() || ('a'..='f').contains(&c), "{:?} at {}", c, i);
        }
    }
    assert_eq!(id.chars().nth(14), Some('4'));
    assert!(matches!(id.chars().nth(19), Some('8') | Some('9') | Some('a') | Some('b')));
    let parsed = uuid::Uuid::parse_str(id).unwrap();
    assert_eq!(parsed.get_version_num(), 4);
    assert_eq!(parsed.get_variant(), uuid::Variant::RFC4122);
}

fn stored_id(step: Step) -> String {
    match step {
        Step::Ask(Request::Store(id)) => id,
        other => panic!("expected a request to store, got {:?}", other),
    }
}

#[test]
fn resolution_starts_with_the_platform_source() {
    assert_eq!(
        get_machine_id(Platform::Windows),
        Step::Ask(Request::ReadOs(OsSource::MachineGuid))
    );
    assert_eq!(get_machine_id(Platform::Linux), Step::Ask(Request::ReadOs(OsSource::EtcMachineId)));
    assert_eq!(
        get_machine_id(Platform::MacOs),
        Step::Ask(Request::ReadOs(OsSource::PlatformDevice))
    );
    assert_eq!(get_machine_id(Platform::Other), Step::Ask(Request::ReadCache));
}

#[test]
fn registry_value_is_returned_as_it_stands() {
    let reading = Reading::Text(" 6f1c-guid \n".to_string());
    assert_eq!(
        read_os_machine_id(OsSource::MachineGuid, &reading),
        Some(" 6f1c-guid \n".to_string())
    );
    assert_eq!(
        read_os_machine_id(OsSource::MachineGuid, &Reading::Text("abc".to_string())),
        Some("abc".to_string())
    );
}

#[test]
fn blank_registry_value_is_no_identifier() {
    assert_eq!(read_os_machine_id(OsSource::MachineGuid, &Reading::Text(String::new())), None);
    assert_eq!(read_os_machine_id(OsSource::MachineGuid, &Reading::Text(" \t".to_string())), None);
    assert_eq!(read_os_machine_id(OsSource::MachineGuid, &Reading::Unavailable), None);
}

#[test]
fn machine_id_file_is_trimmed() {
    let reading = Reading::Text("0123456789abcdef0123456789abcdef\n".to_string());
    assert_eq!(
        read_os_machine_id(OsSource::EtcMachineId, &reading),
        Some("0123456789abcdef0123456789abcdef".to_string())
    );
    assert_eq!(
        read_os_machine_id(OsSource::DbusMachineId, &Reading::Text("  id  ".to_string())),
        Some("id".to_string())
    );
}

#[test]
fn empty_machine_id_file_is_no_identifier() {
    for source in [OsSource::EtcMachineId, OsSource::DbusMachineId] {
        assert_eq!(read_os_machine_id(source, &Reading::Text(String::new())), None);
        assert_eq!(read_os_machine_id(source, &Reading::Text("\n \n".to_string())), None);
        assert_eq!(read_os_machine_id(source, &Reading::Unavailable), None);
    }
}

#[test]
fn ioreg_output_gives_the_platform_uuid() {
    let stdout = b"    {\n      \"IOPlatformUUID\" = \"9C8A3F2E-1B4D\"\n    }\n".to_vec();
    let reading = Reading::Output { success: true, stdout };
    assert_eq!(
        read_os_machine_id(OsSource::PlatformDevice, &reading),
        Some("9C8A3F2E-1B4D".to_string())
    );
}

#[test]
fn failed_ioreg_gives_no_identifier() {
    let stdout = b"\"IOPlatformUUID\" = \"9C8A3F2E-1B4D\"\n".to_vec();
    let reading = Reading::Output { success: false, stdout };
    assert_eq!(read_os_machine_id(OsSource::PlatformDevice, &reading), None);
    assert_eq!(read_os_machine_id(OsSource::PlatformDevice, &Reading::Unavailable), None);
}

#[test]
fn ioreg_output_that_is_not_utf8_gives_no_identifier() {
    let mut stdout = b"\"IOPlatformUUID\" = \"9C8A3F2E-1B4D\"\n".to_vec();
    stdout.push(0xff);
    let reading = Reading::Output { success: true, stdout };
    assert_eq!(read_os_machine_id(OsSource::PlatformDevice, &reading), None);
    let truncated = Reading::Output { success: true, stdout: vec![b'a', 0xe2, 0x82] };
    assert_eq!(read_os_machine_id(OsSource::PlatformDevice, &truncated), None);
}

#[test]
fn ioreg_output_is_decoded_as_utf8() {
    let stdout = "\"IOPlatformUUID\" = \"\u{3000}é-1\u{a0}\"".as_bytes().to_vec();
    let reading = Reading::Output { success: true, stdout };
    assert_eq!(read_os_machine_id(OsSource::PlatformDevice, &reading), Some("é-1".to_string()));
}

#[test]
fn output_of_a_program_serves_any_source() {
    let reading = Reading::Output { success: true, stdout: b" id-7 \n".to_vec() };
    assert_eq!(read_os_machine_id(OsSource::EtcMachineId, &reading), Some("id-7".to_string()));
    assert_eq!(read_os_machine_id(OsSource::MachineGuid, &reading), Some(" id-7 \n".to_string()));
    let text = Reading::Text("\"IOPlatformUUID\" = \"u\"".to_string());
    assert_eq!(read_os_machine_id(OsSource::PlatformDevice, &text), Some("u".to_string()));
}

#[test]
fn found_identifier_ends_the_resolution() {
    assert_eq!(
        resume_os(OsSource::EtcMachineId, &Reading::Text("abc\n".to_string())),
        Step::Done(Ok("abc".to_string()))
    );
    assert_eq!(
        resume_os(OsSource::MachineGuid, &Reading::Text("guid".to_string())),
        Step::Done(Ok("guid".to_string()))
    );
}

#[test]
fn missing_identifier_leads_to_the_next_source() {
    assert_eq!(
        resume_os(OsSource::EtcMachineId, &Reading::Unavailable),
        Step::Ask(Request::ReadOs(OsSource::DbusMachineId))
    );
    assert_eq!(
        resume_os(OsSource::EtcMachineId, &Reading::Text("  ".to_string())),
        Step::Ask(Request::ReadOs(OsSource::DbusMachineId))
    );
    assert_eq!(
        resume_os(OsSource::DbusMachineId, &Reading::Unavailable),
        Step::Ask(Request::ReadCache)
    );
    assert_eq!(
        resume_os(OsSource::MachineGuid, &Reading::Unavailable),
        Step::Ask(Request::ReadCache)
    );
    assert_eq!(
        resume_os(OsSource::PlatformDevice, &Reading::Unavailable),
        Step::Ask(Request::ReadCache)
    );
}

#[test]
fn cached_identifier_is_reused_trimmed() {
    assert_eq!(
        load_or_create_app_uuid(&Reading::Text("  cached-id\n".to_string())),
        Step::Done(Ok("cached-id".to_string()))
    );
}

#[test]
fn missing_cache_generates_a_uuid() {
    let id = stored_id(load_or_create_app_uuid(&Reading::Unavailable));
    assert_uuid_v4(&id);
    let empty = stored_id(load_or_create_app_uuid(&Reading::Text(String::new())));
    assert_uuid_v4(&empty);
}

#[test]
fn blank_cache_is_regenerated() {
    let id = stored_id(load_or_create_app_uuid(&Reading::Text(" \n\t ".to_string())));
    assert!(!id.is_empty());
    assert_uuid_v4(&id);
}

#[test]
fn generated_identifiers_differ() {
    let a = stored_id(load_or_create_app_uuid(&Reading::Unavailable));
    let b = stored_id(load_or_create_app_uuid(&Reading::Unavailable));
    assert_ne!(a, b);
}

#[test]
fn store_outcome_ends_the_resolution() {
    assert_eq!(finish_store("new-id".to_string(), Ok(())), Step::Done(Ok("new-id".to_string())));
    assert_eq!(
        finish_store("new-id".to_string(), Err("read-only file system".to_string())),
        Step::Done(Err("read-only file system".to_string()))
    );
}

#[test]
fn os_identifier_wins_over_cache() {
    let mut machine = FakeMachine::new(Platform::Linux);
    machine.etc_machine_id = Some("etc-id\n".to_string());
    machine.dbus_machine_id = Some("dbus-id\n".to_string());
    machine.cache = Some("cached".to_string());
    assert_eq!(machine.resolve(), Ok("etc-id".to_string()));
    assert_eq!(machine.requests, vec!["EtcMachineId".to_string()]);
    assert_eq!(machine.cache, Some("cached".to_string()));
}

#[test]
fn dbus_file_is_the_fallback_on_linux() {
    let mut machine = FakeMachine::new(Platform::Linux);
    machine.etc_machine_id = Some("\n".to_string());
    machine.dbus_machine_id = Some("dbus-id\n".to_string());
    assert_eq!(machine.resolve(), Ok("dbus-id".to_string()));
    assert_eq!(machine.requests, vec!["EtcMachineId".to_string(), "DbusMachineId".to_string()]);
}

#[test]
fn sources_of_other_platforms_are_not_read() {
    let mut machine = FakeMachine::new(Platform::Windows);
    machine.etc_machine_id = Some("etc-id".to_string());
    machine.ioreg = Some((true, b"\"IOPlatformUUID\" = \"mac\"".to_vec()));
    machine.cache = Some("cached".to_string());
    assert_eq!(machine.resolve(), Ok("cached".to_string()));
    assert_eq!(machine.requests, vec!["MachineGuid".to_string(), "cache".to_string()]);

    let mut other = FakeMachine::new(Platform::Other);
    other.machine_guid = Some("guid".to_string());
    other.cache = Some("cached".to_string());
    assert_eq!(other.resolve(), Ok("cached".to_string()));
    assert_eq!(other.requests, vec!["cache".to_string()]);
}

#[test]
fn mac_resolution_reads_ioreg() {
    let mut machine = FakeMachine::new(Platform::MacOs);
    machine.ioreg = Some((true, b"  \"IOPlatformUUID\" = \"MAC-UUID\"\n".to_vec()));
    assert_eq!(machine.resolve(), Ok("MAC-UUID".to_string()));
    assert_eq!(machine.requests, vec!["PlatformDevice".to_string()]);
}

#[test]
fn generated_identifier_is_stored_and_stable() {
    let mut machine = FakeMachine::new(Platform::Linux);
    let first = machine.resolve().unwrap();
    assert_uuid_v4(&first);
    assert_eq!(machine.cache, Some(first.clone()));
    assert_eq!(
        machine.requests,
        vec![
            "EtcMachineId".to_string(),
            "DbusMachineId".to_string(),
            "cache".to_string(),
            "store".to_string()
        ]
    );
    for _ in 0..5 {
        machine.requests.clear();
        assert_eq!(machine.resolve(), Ok(first.clone()));
        assert_eq!(machine.cache, Some(first.clone()));
        assert!(!machine.requests.contains(&"store".to_string()));
    }
}

#[test]
fn deleted_cache_is_generated_anew() {
    let mut machine = FakeMachine::new(Platform::Other);
    let first = machine.resolve().unwrap();
    machine.cache = None;
    let second = machine.resolve().unwrap();
    assert_uuid_v4(&second);
    assert_ne!(first, second);
    assert_eq!(machine.cache, Some(second));
}

#[test]
fn whitespace_only_cache_is_overwritten() {
    let mut machine = FakeMachine::new(Platform::MacOs);
    machine.cache = Some("  \n".to_string());
    let id = machine.resolve().unwrap();
    assert!(!id.is_empty());
    assert_uuid_v4(&id);
    assert_eq!(machine.cache, Some(id));
}

#[test]
fn unwritable_cache_is_the_only_failure() {
    let mut machine = FakeMachine::new(Platform::Windows);
    machine.store_failure = Some("permission denied".to_string());
    assert_eq!(machine.resolve(), Err("permission denied".to_string()));
    assert_eq!(machine.cache, None);

    machine.cache = Some("cached".to_string());
    assert_eq!(machine.resolve(), Ok("cached".to_string()));

    machine.machine_guid = Some("guid".to_string());
    assert_eq!(machine.resolve(), Ok("guid".to_string()));
}

#[test]
fn resolution_makes_at_most_four_requests() {
    for platform in [Platform::Windows, Platform::Linux, Platform::MacOs, Platform::Other] {
        let mut machine = FakeMachine::new(platform);
        machine.resolve().unwrap();
        assert!(machine.requests.len() <= 4);
        assert_eq!(machine.requests.last(), Some(&"store".to_string()));
    }
}

#[test]
fn sources_are_read_where_the_system_keeps_them() {
    assert_eq!(
        OsSource::MachineGuid.probe(),
        Probe::RegistryValue { key: "SOFTWARE\\Microsoft\\Cryptography", name: "MachineGuid" }
    );
    assert_eq!(OsSource::EtcMachineId.probe(), Probe::File { path: "/etc/machine-id" });
    assert_eq!(OsSource::DbusMachineId.probe(), Probe::File { path: "/var/lib/dbus/machine-id" });
    assert_eq!(
        OsSource::PlatformDevice.probe(),
        Probe::Command {
            program: "ioreg",
            arguments: vec!["-rd1", "-c", "IOPlatformExpertDevice"]
        }
    );
    assert_eq!(cache_file_name(), "machine_id.txt");
}
