use winter_lily::dispatch::{Registry, SubsysInfo, SyscallTable};
use winter_lily::error::Error;
use winter_lily::info::{
    build_id_for, computer_id_for, validate_option_head, x86_march_version, InfoRequest,
    InfoRequestKind, InfoResponse, SysInfoSource, INFO_FLAG_IGNORE_FAILURE, INFO_FLAG_UNKNOWN,
};
use winter_lily::uid::Uuid;

type Handler = fn(u64, u64, u64, u64, u64, u64) -> i64;

fn source() -> SysInfoSource {
    SysInfoSource {
        os_vendor: b"Lilium".to_vec(),
        os_major: 1,
        os_minor: 3,
        kvendor: b"winter-lily".to_vec(),
        build_id: Uuid { hi: 1, lo: 2 },
        kernel_major: 0,
        kernel_minor: 9,
        arch_type: Uuid { hi: 3, lo: 4 },
        arch_version: 2,
        hostname: b"testhost".to_vec(),
        sys_id: Uuid { hi: 5, lo: 6 },
    }
}

fn req(kind: InfoRequestKind, flags: u32) -> InfoRequest {
    InfoRequest { kind, flags, reserved: vec![0, 0, 0, 0] }
}

#[test]
fn os_version_request_answered() {
    let reg: Registry<Handler> = Registry::new();
    let (resp, res) = reg.process_request(&req(InfoRequestKind::OsVersion { vendor_cap: 32 }, 0), &source());
    assert!(res.is_ok());
    match resp {
        InfoResponse::OsVersion { vendor_name, os_major, os_minor } => {
            assert_eq!(vendor_name, b"Lilium".to_vec());
            assert_eq!((os_major, os_minor), (1, 3));
        },
        _ => panic!("expected the OS version response"),
    }
}

#[test]
fn short_output_reports_insufficient_length() {
    let reg: Registry<Handler> = Registry::new();
    let (resp, res) = reg.process_request(&req(InfoRequestKind::OsVersion { vendor_cap: 3 }, 0), &source());
    assert_eq!(res.unwrap_err(), Error::InsufficientLength);
    match resp {
        InfoResponse::OsVersion { vendor_name, .. } => assert_eq!(vendor_name, b"Lil".to_vec()),
        _ => panic!("expected the truncated response"),
    }
}

#[test]
fn computer_name_fills_all_three_strings() {
    let reg: Registry<Handler> = Registry::new();
    let kind = InfoRequestKind::ComputerName { hostname_cap: 32, display_cap: 32, label_cap: 4 };
    let (resp, res) = reg.process_request(&req(kind, 0), &source());
    assert_eq!(res.unwrap_err(), Error::InsufficientLength);
    match resp {
        InfoResponse::ComputerName { hostname, display_name, label, sys_id } => {
            assert_eq!(hostname, b"testhost".to_vec());
            assert_eq!(display_name, b"testhost".to_vec());
            assert_eq!(label, b"test".to_vec());
            assert_eq!(sys_id, Uuid { hi: 5, lo: 6 });
        },
        _ => panic!("expected the computer-name response"),
    }
}

#[test]
fn malformed_head_is_invalid_option() {
    let reg: Registry<Handler> = Registry::new();
    let bad = InfoRequest {
        kind: InfoRequestKind::ArchInfo,
        flags: 0,
        reserved: vec![0, 1, 0],
    };
    let (_, res) = reg.process_request(&bad, &source());
    assert_eq!(res.unwrap_err(), Error::InvalidOption);
    let bad_flags = InfoRequest { kind: InfoRequestKind::ArchInfo, flags: 0x2, reserved: vec![] };
    let (_, res) = reg.process_request(&bad_flags, &source());
    assert_eq!(res.unwrap_err(), Error::InvalidOption);
    assert!(validate_option_head(&req(InfoRequestKind::ArchInfo, 1), 1).is_ok());
}

#[test]
fn unknown_entry_honours_ignore_flag() {
    let reg: Registry<Handler> = Registry::new();
    let flags = INFO_FLAG_UNKNOWN | INFO_FLAG_IGNORE_FAILURE;
    let (resp, res) = reg.process_request(&req(InfoRequestKind::ArchInfo, flags), &source());
    assert!(res.is_ok());
    assert!(matches!(resp, InfoResponse::Ignored));
    let (_, res) = reg.process_request(&req(InfoRequestKind::ArchInfo, INFO_FLAG_UNKNOWN), &source());
    assert_eq!(res.unwrap_err(), Error::InvalidOption);
}

#[test]
fn supported_subsystem_lookup() {
    let mut reg: Registry<Handler> = Registry::new();
    let t: SyscallTable<Handler> = SyscallTable::new();
    reg.register_subsys(
        2,
        t,
        SubsysInfo {
            name: "io".to_string(),
            uuid: Uuid { hi: 0x77, lo: 0x88 },
            subsys_version: 5,
            max_sysno: 100,
        },
    );
    let ask = req(InfoRequestKind::Other(Uuid { hi: 0x77, lo: 0x88 }), 0);
    let (resp, res) = reg.process_request(&ask, &source());
    assert!(res.is_ok());
    match resp {
        InfoResponse::SupportedSubsystem { subsystem_no, subsys_version, max_sysno } => {
            assert_eq!((subsystem_no, subsys_version, max_sysno), (2, 5, 100));
        },
        _ => panic!("expected the subsystem response"),
    }
    // An unregistered identifier fails unless failure is ignorable.
    let ask = req(InfoRequestKind::Other(Uuid { hi: 0x99, lo: 0 }), 0);
    let (_, res) = reg.process_request(&ask, &source());
    assert_eq!(res.unwrap_err(), Error::InvalidOption);
    let ask = req(InfoRequestKind::Other(Uuid { hi: 0x99, lo: 0 }), INFO_FLAG_IGNORE_FAILURE);
    let (_, res) = reg.process_request(&ask, &source());
    assert!(res.is_ok());
}

#[test]
fn request_list_continues_past_failures() {
    let reg: Registry<Handler> = Registry::new();
    let reqs = vec![
        req(InfoRequestKind::OsVersion { vendor_cap: 2 }, 0), // fails: too short
        req(InfoRequestKind::ArchInfo, 0),                    // still processed
    ];
    let (responses, res) = reg.get_system_info(&reqs, &source());
    assert_eq!(responses.len(), 2);
    assert!(matches!(responses[1], InfoResponse::ArchInfo { .. }));
    // The first unignored failure is the overall result.
    assert_eq!(res.unwrap_err(), Error::InsufficientLength);
}

#[test]
fn derived_identifiers_are_name_based() {
    // The identifiers are version-5 UUIDs: deterministic for equal names,
    // distinct for distinct names, with the version nibble and variant
    // bits the scheme fixes. A wrapper that handed its input back
    // unchanged could not satisfy this for two different names.
    let a = build_id_for(b"1.0.0");
    let b = build_id_for(b"1.0.0");
    let c = build_id_for(b"1.0.1");
    assert_eq!(a, b);
    assert_ne!(a, c);
    assert_eq!((a.hi >> 12) & 0xF, 5);
    assert_eq!(a.lo >> 62, 0b10);
    let h = computer_id_for(b"testhost");
    assert_eq!((h.hi >> 12) & 0xF, 5);
    assert_ne!(h, a);
}

#[test]
fn march_tiers_nest() {
    assert_eq!(x86_march_version(false, false, false), 1);
    assert_eq!(x86_march_version(true, false, false), 2);
    assert_eq!(x86_march_version(true, true, false), 3);
    assert_eq!(x86_march_version(true, true, true), 4);
}
