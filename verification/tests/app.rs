use systemdfilegenerator::app::{ActiveStep, App, ConfigField, Key, KeyOutcome, KeyPress, StepAction};
use systemdfilegenerator::deploy::{DeployAction, DeployEvent, DeployStage};
use systemdfilegenerator::device::{InitSystem, SystemInfo};

fn system(init: InitSystem) -> SystemInfo {
    SystemInfo {
        hostname: "box".to_string(),
        os_name: "Debian".to_string(),
        os_version: "12".to_string(),
        kernel_version: "6.1".to_string(),
        cpu_arch: "aarch64".to_string(),
        current_user: "alice".to_string(),
        init_system: init,
    }
}

fn type_str(app: &mut App, s: &str) {
    for c in s.chars() {
        app.handle_char_input(c);
    }
}

#[test]
fn config_field_next_and_prev() {
    assert_eq!(ConfigField::UnitName.next(), ConfigField::Description);
    assert_eq!(ConfigField::Environment.next(), ConfigField::UnitName);
    assert_eq!(ConfigField::UnitName.prev(), ConfigField::Environment);
    assert_eq!(ConfigField::Group.prev(), ConfigField::User);
    let mut f = ConfigField::ExecStart;
    for _ in 0..9 {
        f = f.next();
    }
    assert_eq!(f, ConfigField::ExecStart);
    for g in [ConfigField::UnitName, ConfigField::RestartPolicy, ConfigField::Environment] {
        assert_eq!(g.next().prev(), g);
        assert_eq!(g.prev().next(), g);
    }
}

#[test]
fn new_app_starts_at_binary_picker() {
    let app = App::new(system(InitSystem::OpenRC), Some("/home/alice".to_string()));
    assert_eq!(app.step, ActiveStep::BinaryPicker);
    assert_eq!(app.target_init_system, InitSystem::OpenRC);
    assert!(app.config.is_none());
    assert!(app.binary_info.is_none());
    assert_eq!(app.preview_action_index, 0);
    assert_eq!(app.active_config_field, ConfigField::UnitName);
}

#[test]
fn typing_a_path_derives_the_configuration() {
    let mut app = App::new(system(InitSystem::Systemd), None);
    type_str(&mut app, "/src/shop/target/release/shopd");
    let info = app.binary_info.as_ref().unwrap();
    assert_eq!(info.app_name, "shop");
    let cfg = app.config.as_ref().unwrap();
    assert_eq!(cfg.exec_start, "/opt/shop/shopd");
    assert_eq!(cfg.working_dir, "/opt/shop");
    assert_eq!(cfg.user, "alice");
    app.handle_backspace();
    assert_eq!(app.binary_path_input, "/src/shop/target/release/shop");
    assert_eq!(app.config.as_ref().unwrap().exec_start, "/opt/shop/shop");
}

#[test]
fn blank_path_is_refused() {
    let mut app = App::new(system(InitSystem::Systemd), None);
    type_str(&mut app, "   ");
    let action = app.proceed_step();
    assert!(matches!(action, StepAction::Nothing));
    assert_eq!(app.step, ActiveStep::StatusModal);
    assert!(app.is_error_status);
    assert_eq!(app.status_message, "Please enter a binary path first!");
    app.proceed_step();
    assert_eq!(app.step, ActiveStep::PreviewDeploy);
}

#[test]
fn editing_fields_refreshes_the_preview() {
    let mut app = App::new(system(InitSystem::OpenRC), None);
    type_str(&mut app, "/x/svc/bin/svc");
    app.proceed_step();
    assert_eq!(app.step, ActiveStep::ServiceConfig);
    assert!(app.generated_service_content.contains("name=\"svc\""));
    app.next_field_or_action();
    assert_eq!(app.active_config_field, ConfigField::Description);
    let before = app.generated_service_content.clone();
    type_str(&mut app, "!");
    assert_eq!(app.config.as_ref().unwrap().description, "svc Service!");
    assert!(app.generated_service_content.contains("description=\"svc Service!\""));
    app.handle_backspace();
    assert_eq!(app.config.as_ref().unwrap().description, "svc Service");
    assert_eq!(app.generated_service_content, before);
    app.prev_field_or_action();
    assert_eq!(app.active_config_field, ConfigField::UnitName);
}

#[test]
fn toggling_init_system_twice_restores_preview() {
    let mut app = App::new(system(InitSystem::OpenRC), None);
    type_str(&mut app, "/x/svc/svc");
    app.proceed_step();
    let openrc = app.generated_service_content.clone();
    app.toggle_init_system();
    assert_eq!(app.target_init_system, InitSystem::Systemd);
    assert!(app.generated_service_content.contains("[Service]"));
    app.toggle_init_system();
    assert_eq!(app.generated_service_content, openrc);
}

#[test]
fn navigation_back_and_forth() {
    let mut app = App::new(system(InitSystem::Systemd), None);
    app.back_step();
    assert_eq!(app.step, ActiveStep::BinaryPicker);
    type_str(&mut app, "/a/b");
    app.proceed_step();
    assert_eq!(app.step, ActiveStep::ServiceConfig);
    app.proceed_step();
    assert_eq!(app.step, ActiveStep::PreviewDeploy);
    app.back_step();
    assert_eq!(app.step, ActiveStep::ServiceConfig);
    app.back_step();
    assert_eq!(app.step, ActiveStep::BinaryPicker);
}

#[test]
fn preview_selects_between_two_actions() {
    let mut app = App::new(system(InitSystem::Systemd), None);
    type_str(&mut app, "/a/b");
    app.proceed_step();
    app.proceed_step();
    app.next_field_or_action();
    assert_eq!(app.preview_action_index, 1);
    app.next_field_or_action();
    assert_eq!(app.preview_action_index, 0);
    app.prev_field_or_action();
    assert_eq!(app.preview_action_index, 1);
    app.prev_field_or_action();
    assert_eq!(app.preview_action_index, 0);
}

#[test]
fn saving_locally_names_the_unit_file() {
    let mut app = App::new(system(InitSystem::Systemd), None);
    type_str(&mut app, "/a/web/webd");
    app.proceed_step();
    app.proceed_step();
    let content = app.generated_service_content.clone();
    match app.proceed_step() {
        StepAction::SaveLocal { file_name, content: c } => {
            assert_eq!(file_name, "web.service");
            assert_eq!(c, content);
            app.finish_save(&file_name, Ok(()));
        }
        _ => panic!("expected a save action"),
    }
    assert_eq!(app.step, ActiveStep::StatusModal);
    assert_eq!(app.status_message, "Service file saved successfully to: web.service");
    assert!(!app.is_error_status);
    app.finish_save("web.service", Err("permission denied".to_string()));
    assert_eq!(app.status_message, "Failed to save service file: permission denied");
    assert!(app.is_error_status);
}

#[test]
fn deploying_openrc_runs_every_step() {
    let mut app = App::new(system(InitSystem::OpenRC), None);
    type_str(&mut app, "/build/api/target/release/api");
    app.proceed_step();
    app.proceed_step();
    app.next_field_or_action();
    let mut d = match app.proceed_step() {
        StepAction::Deploy(d) => d,
        _ => panic!("expected a deployment"),
    };
    let run = |a: DeployAction| match a {
        DeployAction::Run(words) => words,
        _ => panic!("expected a command"),
    };
    assert_eq!(run(d.advance(DeployEvent::Begin)), ["sudo", "mkdir", "-p", "/opt/api"]);
    match d.advance(DeployEvent::Status(true)) {
        DeployAction::CheckExists(p) => assert_eq!(p, "/build/api/target/release/api"),
        _ => panic!("expected an existence check"),
    }
    assert_eq!(
        run(d.advance(DeployEvent::Exists(true))),
        ["sudo", "cp", "/build/api/target/release/api", "/opt/api/api"]
    );
    assert_eq!(run(d.advance(DeployEvent::Status(true))), ["sudo", "chmod", "+x", "/opt/api/api"]);
    match d.advance(DeployEvent::Status(true)) {
        DeployAction::WriteFile { path, content } => {
            assert_eq!(path, "/tmp/api");
            assert!(content.starts_with("#!/sbin/openrc-run"));
        }
        _ => panic!("expected a write"),
    }
    assert_eq!(run(d.advance(DeployEvent::Written)), ["sudo", "cp", "/tmp/api", "/etc/init.d/api"]);
    assert_eq!(run(d.advance(DeployEvent::Status(true))), ["sudo", "chmod", "+x", "/etc/init.d/api"]);
    assert_eq!(
        run(d.advance(DeployEvent::Status(true))),
        ["sudo", "rc-update", "add", "api", "default"]
    );
    let logs = match d.advance(DeployEvent::Status(false)) {
        DeployAction::Finished(Ok(logs)) => logs,
        _ => panic!("expected success"),
    };
    assert_eq!(d.stage, DeployStage::Done);
    assert_eq!(
        logs,
        "--> Creating directory: /opt/api\n\
--> Copying binary /build/api/target/release/api -> /opt/api/api\n\
--> Deploying OpenRC init script to /etc/init.d/api\n\
--> Enabling service in default runlevel (sudo rc-update add api default)...\n\
--> Note: Could not run 'rc-update add' automatically.\n\
\nSUCCESS! OpenRC init script deployed.\nTo start service, run:\n  sudo rc-service api start\n  sudo rc-service api status\n"
    );
    app.finish_deploy(Ok(logs.clone()));
    assert_eq!(app.status_message, logs);
    assert!(!app.is_error_status);
}

#[test]
fn deployment_stops_at_first_failure() {
    let mut app = App::new(system(InitSystem::OpenRC), None);
    type_str(&mut app, "/p/q");
    app.proceed_step();
    app.proceed_step();
    app.next_field_or_action();
    let mut d = match app.proceed_step() {
        StepAction::Deploy(d) => d,
        _ => panic!("expected a deployment"),
    };
    d.advance(DeployEvent::Begin);
    match d.advance(DeployEvent::Status(false)) {
        DeployAction::Finished(Err(e)) => {
            assert_eq!(e, "Failed to execute 'sudo mkdir -p /opt/p'");
            app.finish_deploy(Err(e));
        }
        _ => panic!("expected failure"),
    }
    assert_eq!(app.status_message, "Deployment failed: Failed to execute 'sudo mkdir -p /opt/p'");
    assert!(app.is_error_status);
}

#[test]
fn deployment_skips_missing_binary_and_reports_io_errors() {
    let mut app = App::new(system(InitSystem::Systemd), None);
    type_str(&mut app, "/p/q");
    app.proceed_step();
    app.proceed_step();
    app.next_field_or_action();
    let mut d = match app.proceed_step() {
        StepAction::Deploy(d) => d,
        _ => panic!("expected a deployment"),
    };
    d.advance(DeployEvent::Begin);
    d.advance(DeployEvent::Status(true));
    match d.advance(DeployEvent::Exists(false)) {
        DeployAction::WriteFile { path, .. } => assert_eq!(path, "/tmp/p.service"),
        _ => panic!("expected a write"),
    }
    assert!(d.logs.contains("--> Warning: Source binary file /p/q not found locally. Skipping binary copy.\n"));
    match d.advance(DeployEvent::Error("disk full".to_string())) {
        DeployAction::Finished(Err(e)) => assert_eq!(e, "disk full"),
        _ => panic!("expected failure"),
    }
    assert_eq!(d.stage, DeployStage::Done);
}

#[test]
fn deploying_systemd_reloads_manager() {
    let mut app = App::new(system(InitSystem::Systemd), None);
    type_str(&mut app, "/p/q");
    app.proceed_step();
    app.proceed_step();
    app.next_field_or_action();
    let mut d = match app.proceed_step() {
        StepAction::Deploy(d) => d,
        _ => panic!("expected a deployment"),
    };
    d.advance(DeployEvent::Begin);
    d.advance(DeployEvent::Status(true));
    d.advance(DeployEvent::Exists(false));
    match d.advance(DeployEvent::Written) {
        DeployAction::Run(w) => assert_eq!(w, ["sudo", "cp", "/tmp/p.service", "/etc/systemd/system/p.service"]),
        _ => panic!("expected a copy"),
    }
    match d.advance(DeployEvent::Status(true)) {
        DeployAction::Run(w) => assert_eq!(w, ["sudo", "systemctl", "daemon-reload"]),
        _ => panic!("expected a reload"),
    }
    match d.advance(DeployEvent::Status(true)) {
        DeployAction::Finished(Ok(logs)) => {
            assert!(logs.ends_with("  sudo systemctl status p.service\n"));
            assert!(logs.contains("--> systemd manager configuration reloaded.\n"));
        }
        _ => panic!("expected success"),
    }
}

fn press(app: &mut App, key: Key) -> KeyOutcome {
    app.handle_key(KeyPress { key, ctrl: false, alt: false })
}

fn keep_going(o: KeyOutcome) -> StepAction {
    match o {
        KeyOutcome::Continue(a) => a,
        KeyOutcome::Quit => panic!("unexpected quit"),
    }
}

#[test]
fn ctrl_c_quits_anywhere() {
    let mut app = App::new(system(InitSystem::Systemd), None);
    type_str(&mut app, "/a/b");
    app.proceed_step();
    let o = app.handle_key(KeyPress { key: Key::Char('c'), ctrl: true, alt: false });
    assert!(matches!(o, KeyOutcome::Quit));
    assert_eq!(app.step, ActiveStep::ServiceConfig);
}

#[test]
fn esc_quits_first_screen_and_goes_back_elsewhere() {
    let mut app = App::new(system(InitSystem::Systemd), None);
    assert!(matches!(press(&mut app, Key::Esc), KeyOutcome::Quit));
    type_str(&mut app, "/a/b");
    keep_going(press(&mut app, Key::Enter));
    assert_eq!(app.step, ActiveStep::ServiceConfig);
    assert!(matches!(keep_going(press(&mut app, Key::Esc)), StepAction::Nothing));
    assert_eq!(app.step, ActiveStep::BinaryPicker);
}

#[test]
fn typing_keys_request_a_source_probe() {
    let mut app = App::new(system(InitSystem::Systemd), None);
    let mut last = StepAction::Nothing;
    for c in "/usr/bin/env".chars() {
        last = keep_going(press(&mut app, Key::Char(c)));
    }
    let path = match last {
        StepAction::CheckSource { path } => path,
        _ => panic!("expected a probe request"),
    };
    assert_eq!(path, "/usr/bin/env");
    assert!(!app.binary_info.as_ref().unwrap().exists);
    app.record_source_exists("/other", true);
    assert!(!app.binary_info.as_ref().unwrap().exists);
    app.record_source_exists(&path, true);
    assert!(app.binary_info.as_ref().unwrap().exists);
    match keep_going(press(&mut app, Key::Backspace)) {
        StepAction::CheckSource { path } => assert_eq!(path, "/usr/bin/en"),
        _ => panic!("expected a probe request"),
    }
    assert!(!app.binary_info.as_ref().unwrap().exists);
    match keep_going(press(&mut app, Key::Enter)) {
        StepAction::CheckSource { path } => assert_eq!(path, "/usr/bin/en"),
        _ => panic!("expected a probe request"),
    }
    assert_eq!(app.step, ActiveStep::ServiceConfig);
}

#[test]
fn toggle_keys() {
    let mut app = App::new(system(InitSystem::Systemd), None);
    // A plain `i` on the first screen is typed.
    keep_going(press(&mut app, Key::Char('i')));
    assert_eq!(app.binary_path_input, "i");
    assert_eq!(app.target_init_system, InitSystem::Systemd);
    // F2 and Alt+I switch anywhere.
    keep_going(press(&mut app, Key::F(2)));
    assert_eq!(app.target_init_system, InitSystem::OpenRC);
    keep_going(app.handle_key(KeyPress { key: Key::Char('I'), ctrl: false, alt: true }));
    assert_eq!(app.target_init_system, InitSystem::Systemd);
    assert_eq!(app.binary_path_input, "i");
    // On the preview screen a plain `i` switches.
    keep_going(press(&mut app, Key::Enter));
    keep_going(press(&mut app, Key::Enter));
    assert_eq!(app.step, ActiveStep::PreviewDeploy);
    keep_going(press(&mut app, Key::Char('i')));
    assert_eq!(app.target_init_system, InitSystem::OpenRC);
}

#[test]
fn focus_keys_and_ignored_keys() {
    let mut app = App::new(system(InitSystem::Systemd), None);
    type_str(&mut app, "/a/b");
    keep_going(press(&mut app, Key::Enter));
    keep_going(press(&mut app, Key::Tab));
    assert_eq!(app.active_config_field, ConfigField::Description);
    keep_going(press(&mut app, Key::Down));
    assert_eq!(app.active_config_field, ConfigField::ExecStart);
    keep_going(press(&mut app, Key::Up));
    keep_going(press(&mut app, Key::BackTab));
    assert_eq!(app.active_config_field, ConfigField::UnitName);
    keep_going(press(&mut app, Key::Char('x')));
    assert_eq!(app.config.as_ref().unwrap().unit_name, "ax");
    assert!(matches!(keep_going(press(&mut app, Key::Other)), StepAction::Nothing));
    assert!(matches!(keep_going(press(&mut app, Key::F(5))), StepAction::Nothing));
    assert_eq!(app.config.as_ref().unwrap().unit_name, "ax");
    assert_eq!(app.step, ActiveStep::ServiceConfig);
}

#[test]
fn direct_edits_ask_for_the_source_check() {
    let mut app = App::new(system(InitSystem::Systemd), None);
    type_str(&mut app, "/usr/bin/en");
    match app.handle_char_input('v') {
        StepAction::CheckSource { path } => {
            assert_eq!(path, "/usr/bin/env");
            app.record_source_exists(&path, true);
        }
        _ => panic!("expected a probe request"),
    }
    assert!(app.binary_info.as_ref().unwrap().exists);
    match app.handle_backspace() {
        StepAction::CheckSource { path } => assert_eq!(path, "/usr/bin/en"),
        _ => panic!("expected a probe request"),
    }
    match app.update_binary_info() {
        StepAction::CheckSource { path } => assert_eq!(path, "/usr/bin/en"),
        _ => panic!("expected a probe request"),
    }
    app.proceed_step();
    assert!(matches!(app.handle_char_input('x'), StepAction::Nothing));
}

#[test]
fn clearing_the_path_asks_nothing() {
    let mut app = App::new(system(InitSystem::Systemd), None);
    type_str(&mut app, "/");
    assert!(app.binary_info.is_none());
    assert!(matches!(app.handle_backspace(), StepAction::Nothing));
}
