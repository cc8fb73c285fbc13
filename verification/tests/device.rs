use systemdfilegenerator::device::{InitSystem, SystemInfo};

#[test]
fn init_system_from_probes() {
    assert_eq!(InitSystem::from_probes(true, true, Some("openrc")), InitSystem::Systemd);
    assert_eq!(InitSystem::from_probes(false, true, Some("systemd")), InitSystem::OpenRC);
    assert_eq!(InitSystem::from_probes(false, false, Some("systemd\n")), InitSystem::Systemd);
    assert_eq!(InitSystem::from_probes(false, false, Some("openrc-init\n")), InitSystem::OpenRC);
    assert_eq!(InitSystem::from_probes(false, false, Some(" openrc ")), InitSystem::OpenRC);
    assert_eq!(InitSystem::from_probes(false, false, Some("init")), InitSystem::Systemd);
    assert_eq!(InitSystem::from_probes(false, false, None), InitSystem::Systemd);
}

#[test]
fn system_info_fills_in_defaults() {
    let info = SystemInfo::from_probes(
        None,
        None,
        None,
        None,
        String::new(),
        "riscv64",
        None,
        None,
        InitSystem::OpenRC,
    );
    assert_eq!(info.hostname, "linux-node");
    assert_eq!(info.os_name, "Linux");
    assert_eq!(info.os_version, "Unknown");
    assert_eq!(info.kernel_version, "Unknown");
    assert_eq!(info.cpu_arch, "riscv64");
    assert_eq!(info.current_user, "root");
    assert_eq!(info.init_system, InitSystem::OpenRC);

    let info = SystemInfo::from_probes(
        Some("h".to_string()),
        Some("Arch".to_string()),
        Some("rolling".to_string()),
        Some("6.9".to_string()),
        "x86_64".to_string(),
        "riscv64",
        None,
        Some("bob".to_string()),
        InitSystem::Systemd,
    );
    assert_eq!(info.hostname, "h");
    assert_eq!(info.cpu_arch, "x86_64");
    assert_eq!(info.current_user, "bob");
    let info = SystemInfo::from_probes(
        None, None, None, None, "arm".to_string(), "x", Some("carol".to_string()),
        Some("bob".to_string()), InitSystem::Systemd,
    );
    assert_eq!(info.current_user, "carol");
}
