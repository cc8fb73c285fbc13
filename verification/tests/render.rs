use systemdfilegenerator::device::{InitSystem, SystemInfo};
use systemdfilegenerator::generator::{local_file_name, render_service_by_type, ServiceConfig};
use systemdfilegenerator::openrc::render_openrc_file;
use systemdfilegenerator::systemd::render_systemd_unit;

fn sample_system() -> SystemInfo {
    SystemInfo {
        hostname: "node1".to_string(),
        os_name: "Alpine Linux".to_string(),
        os_version: "3.20".to_string(),
        kernel_version: "6.6".to_string(),
        cpu_arch: "x86_64".to_string(),
        current_user: "root".to_string(),
        init_system: InitSystem::OpenRC,
    }
}

fn sample_config() -> ServiceConfig {
    ServiceConfig::new(
        "my_app".to_string(),
        "my_app_bin".to_string(),
        "/tmp/my_app_bin".to_string(),
        "myuser".to_string(),
    )
}

#[test]
fn test_render_openrc_file() {
    let sys = sample_system();
    let config = sample_config();

    let rendered = render_openrc_file(&config, &sys);
    assert!(rendered.starts_with("#!/sbin/openrc-run"));
    assert!(rendered.contains("name=\"my_app\""));
    assert!(rendered.contains("command=\"/opt/my_app/my_app_bin\""));
    assert!(rendered.contains("command_user=\"myuser:myuser\""));
    assert!(rendered.contains("depend() {"));
}

#[test]
fn new_config_installs_under_opt() {
    let c = sample_config();
    assert_eq!(c.exec_start, "/opt/my_app/my_app_bin");
    assert_eq!(c.working_dir, "/opt/my_app");
    assert_eq!(c.unit_name, "my_app");
    assert_eq!(c.user, "myuser");
    assert_eq!(c.group, "myuser");
    assert_eq!(c.restart_policy, "always");
    assert_eq!(c.extra_flags, "");
    assert_eq!(c.environment, "");
}

#[test]
fn openrc_script_exact_text() {
    let sys = sample_system();
    let mut c = sample_config();
    c.group = String::new();
    c.extra_flags = "  --port 8080 ".to_string();
    c.environment = "A=1\n\n  B=2  \r\n".to_string();
    let out = render_openrc_file(&c, &sys);
    let expected = "#!/sbin/openrc-run\n\
# ========================================================\n\
# Auto-generated OpenRC Init Script for my_app\n\
# Target System: node1 (Alpine Linux/x86_64)\n\
# Target Path: /opt/my_app/my_app_bin\n\
# ========================================================\n\
\n\
name=\"my_app\"\n\
description=\"my_app Service\"\n\
\n\
command=\"/opt/my_app/my_app_bin\"\n\
command_args=\"--port 8080\"\n\
command_background=\"true\"\n\
pidfile=\"/run/${RC_SVCNAME}.pid\"\n\
directory=\"/opt/my_app\"\n\
command_user=\"myuser:myuser\"\n\
\n\
# Environment Variables\n\
export A=1\n\
export B=2\n\
\n\
depend() {\n    need net\n    use dns logger\n}\n";
    assert_eq!(out, expected);
}

#[test]
fn openrc_script_omits_blank_sections() {
    let sys = sample_system();
    let mut c = sample_config();
    c.group = "staff".to_string();
    c.extra_flags = "   ".to_string();
    c.environment = " \n ".to_string();
    let out = render_openrc_file(&c, &sys);
    assert!(!out.contains("command_args"));
    assert!(!out.contains("Environment"));
    assert!(out.contains("command_user=\"myuser:staff\"\n"));
}

#[test]
fn systemd_unit_exact_text() {
    let sys = sample_system();
    let mut c = sample_config();
    c.extra_flags = "-v".to_string();
    c.environment = "RUST_LOG=info".to_string();
    let out = render_systemd_unit(&c, &sys);
    let expected = "# ========================================================\n\
# Auto-generated Systemd Unit File for my_app\n\
# Target System: node1 (Alpine Linux/x86_64)\n\
# Target Path: /opt/my_app/my_app_bin\n\
# ========================================================\n\
\n\
[Unit]\n\
Description=my_app Service\n\
After=network.target\n\
\n\
[Service]\n\
Type=simple\n\
User=myuser\n\
Group=myuser\n\
WorkingDirectory=/opt/my_app\n\
ExecStart=/opt/my_app/my_app_bin -v\n\
Restart=always\n\
RestartSec=5\n\
Environment=\"RUST_LOG=info\"\n\
\n\
[Install]\n\
WantedBy=multi-user.target\n";
    assert_eq!(out, expected);
}

#[test]
fn render_by_type_dispatches() {
    let sys = sample_system();
    let c = sample_config();
    assert_eq!(render_service_by_type(InitSystem::OpenRC, &c, &sys), render_openrc_file(&c, &sys));
    assert_eq!(render_service_by_type(InitSystem::Systemd, &c, &sys), render_systemd_unit(&c, &sys));
}

#[test]
fn local_file_names() {
    let mut c = sample_config();
    assert_eq!(local_file_name(InitSystem::Systemd, &c), "my_app.service");
    assert_eq!(local_file_name(InitSystem::OpenRC, &c), "my_app");
    c.unit_name = "web.service".to_string();
    assert_eq!(local_file_name(InitSystem::Systemd, &c), "web.service");
}

#[test]
fn init_system_names_and_toggle() {
    assert_eq!(InitSystem::Systemd.as_str(), "Systemd");
    assert_eq!(InitSystem::OpenRC.as_str(), "OpenRC");
    assert_eq!(InitSystem::Systemd.toggle(), InitSystem::OpenRC);
    assert_eq!(InitSystem::OpenRC.toggle().toggle(), InitSystem::OpenRC);
}
