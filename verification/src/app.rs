//! The wizard: pick a binary, configure its service, preview the generated
//! file and save or deploy it.  Each key the user presses becomes one call
//! here; what needs the outside world (saving a file, deploying) is handed
//! back to the caller as a `StepAction`.

use vstd::prelude::*;
use crate::deploy::{new_deployment, DeployStage, Deployment};
use crate::device::{toggled, InitSystem, SystemInfo};
use crate::generator::{
    default_service, has_content, lemma_systemd_file_name_from_unit_name, local_file_name,
    render_service_by_type, service_file, service_file_name, ServiceConfig, ServiceModel,
};
use crate::picker::{binary_location, resolve_binary_info, BinaryLocationInfo, LocationModel};
use crate::text::{chars_eq, chars_of, owned, pop_char, push_char, push_str, trimmed};

verus! {

/// The screen the wizard is on.
#[derive(Debug, Clone, Copy, PartialEq, Eq, Structural)]
pub enum ActiveStep {
    BinaryPicker,
    ServiceConfig,
    PreviewDeploy,
    StatusModal,
}

/// The configuration field that has the focus.
#[derive(Debug, Clone, Copy, PartialEq, Eq, Structural)]
pub enum ConfigField {
    UnitName,
    Description,
    ExecStart,
    WorkingDirectory,
    User,
    Group,
    RestartPolicy,
    ExtraFlags,
    Environment,
}

/// The number of configuration fields.
pub open spec fn field_count() -> int {
    9
}

/// The position of a field in the form.
pub open spec fn field_index(f: ConfigField) -> int {
    match f {
        ConfigField::UnitName => 0,
        ConfigField::Description => 1,
        ConfigField::ExecStart => 2,
        ConfigField::WorkingDirectory => 3,
        ConfigField::User => 4,
        ConfigField::Group => 5,
        ConfigField::RestartPolicy => 6,
        ConfigField::ExtraFlags => 7,
        ConfigField::Environment => 8,
    }
}

/// The field at a position of the form.
pub open spec fn field_at(i: int) -> ConfigField {
    if i == 0 {
        ConfigField::UnitName
    } else if i == 1 {
        ConfigField::Description
    } else if i == 2 {
        ConfigField::ExecStart
    } else if i == 3 {
        ConfigField::WorkingDirectory
    } else if i == 4 {
        ConfigField::User
    } else if i == 5 {
        ConfigField::Group
    } else if i == 6 {
        ConfigField::RestartPolicy
    } else if i == 7 {
        ConfigField::ExtraFlags
    } else {
        ConfigField::Environment
    }
}

/// The field after `f`, wrapping around to the first.
pub open spec fn next_field(f: ConfigField) -> ConfigField {
    field_at((field_index(f) + 1) % field_count())
}

/// The field before `f`, wrapping around to the last.
pub open spec fn prev_field(f: ConfigField) -> ConfigField {
    if field_index(f) == 0 {
        field_at(field_count() - 1)
    } else {
        field_at(field_index(f) - 1)
    }
}

impl ConfigField {
    fn index(&self) -> (i: usize)
        ensures
            i == field_index(*self),
    {
        match self {
            ConfigField::UnitName => 0,
            ConfigField::Description => 1,
            ConfigField::ExecStart => 2,
            ConfigField::WorkingDirectory => 3,
            ConfigField::User => 4,
            ConfigField::Group => 5,
            ConfigField::RestartPolicy => 6,
            ConfigField::ExtraFlags => 7,
            ConfigField::Environment => 8,
        }
    }

    fn at(i: usize) -> (f: ConfigField)
        ensures
            f == field_at(i as int),
    {
        if i == 0 {
            ConfigField::UnitName
        } else if i == 1 {
            ConfigField::Description
        } else if i == 2 {
            ConfigField::ExecStart
        } else if i == 3 {
            ConfigField::WorkingDirectory
        } else if i == 4 {
            ConfigField::User
        } else if i == 5 {
            ConfigField::Group
        } else if i == 6 {
            ConfigField::RestartPolicy
        } else if i == 7 {
            ConfigField::ExtraFlags
        } else {
            ConfigField::Environment
        }
    }

    pub fn next(&self) -> (f: ConfigField)
        ensures
            f == next_field(*self),
    {
        let idx = self.index();
        ConfigField::at((idx + 1) % 9)
    }

    pub fn prev(&self) -> (f: ConfigField)
        ensures
            f == prev_field(*self),
    {
        let idx = self.index();
        if idx == 0 {
            ConfigField::at(8)
        } else {
            ConfigField::at(idx - 1)
        }
    }
}

/// The text of a configuration field.
pub open spec fn field_text(m: ServiceModel, f: ConfigField) -> Seq<char> {
    match f {
        ConfigField::UnitName => m.unit_name,
        ConfigField::Description => m.description,
        ConfigField::ExecStart => m.exec_start,
        ConfigField::WorkingDirectory => m.working_dir,
        ConfigField::User => m.user,
        ConfigField::Group => m.group,
        ConfigField::RestartPolicy => m.restart_policy,
        ConfigField::ExtraFlags => m.extra_flags,
        ConfigField::Environment => m.environment,
    }
}

/// The configuration with one field's text replaced.
pub open spec fn with_field_text(m: ServiceModel, f: ConfigField, v: Seq<char>) -> ServiceModel {
    match f {
        ConfigField::UnitName => ServiceModel { unit_name: v, ..m },
        ConfigField::Description => ServiceModel { description: v, ..m },
        ConfigField::ExecStart => ServiceModel { exec_start: v, ..m },
        ConfigField::WorkingDirectory => ServiceModel { working_dir: v, ..m },
        ConfigField::User => ServiceModel { user: v, ..m },
        ConfigField::Group => ServiceModel { group: v, ..m },
        ConfigField::RestartPolicy => ServiceModel { restart_policy: v, ..m },
        ConfigField::ExtraFlags => ServiceModel { extra_flags: v, ..m },
        ConfigField::Environment => ServiceModel { environment: v, ..m },
    }
}

/// A text with its last character removed, if it has one.
pub open spec fn pop_text(s: Seq<char>) -> Seq<char> {
    if s.len() > 0 {
        s.drop_last()
    } else {
        s
    }
}

/// The configuration after typing `c` into field `f`.
pub open spec fn typed(m: ServiceModel, f: ConfigField, c: char) -> ServiceModel {
    with_field_text(m, f, field_text(m, f).push(c))
}

/// The configuration after erasing the last character of field `f`.
pub open spec fn erased(m: ServiceModel, f: ConfigField) -> ServiceModel {
    with_field_text(m, f, pop_text(field_text(m, f)))
}

fn push_to_field(cfg: &mut ServiceConfig, f: ConfigField, c: char)
    ensures
        final(cfg)@ == typed(old(cfg)@, f, c),
{
    match f {
        ConfigField::UnitName => push_char(&mut cfg.unit_name, c),
        ConfigField::Description => push_char(&mut cfg.description, c),
        ConfigField::ExecStart => push_char(&mut cfg.exec_start, c),
        ConfigField::WorkingDirectory => push_char(&mut cfg.working_dir, c),
        ConfigField::User => push_char(&mut cfg.user, c),
        ConfigField::Group => push_char(&mut cfg.group, c),
        ConfigField::RestartPolicy => push_char(&mut cfg.restart_policy, c),
        ConfigField::ExtraFlags => push_char(&mut cfg.extra_flags, c),
        ConfigField::Environment => push_char(&mut cfg.environment, c),
    }
}

fn pop_from_field(cfg: &mut ServiceConfig, f: ConfigField)
    ensures
        final(cfg)@ == erased(old(cfg)@, f),
{
    match f {
        ConfigField::UnitName => {
            pop_char(&mut cfg.unit_name);
        },
        ConfigField::Description => {
            pop_char(&mut cfg.description);
        },
        ConfigField::ExecStart => {
            pop_char(&mut cfg.exec_start);
        },
        ConfigField::WorkingDirectory => {
            pop_char(&mut cfg.working_dir);
        },
        ConfigField::User => {
            pop_char(&mut cfg.user);
        },
        ConfigField::Group => {
            pop_char(&mut cfg.group);
        },
        ConfigField::RestartPolicy => {
            pop_char(&mut cfg.restart_policy);
        },
        ConfigField::ExtraFlags => {
            pop_char(&mut cfg.extra_flags);
        },
        ConfigField::Environment => {
            pop_char(&mut cfg.environment);
        },
    }
}

/// What the caller is to do after a step of the wizard.
pub enum StepAction {
    Nothing,
    /// Find out whether a file exists at `path` (the source binary that was
    /// just derived) and report it with `App::record_source_exists`.
    CheckSource { path: String },
    /// Save `content` to the file `file_name` in the working directory, then
    /// report the outcome with `App::finish_save`.
    SaveLocal { file_name: String, content: String },
    /// Run the deployment to its end, then report the outcome with
    /// `App::finish_deploy`.
    Deploy(Deployment),
}

/// The state of the wizard.
pub struct App {
    pub step: ActiveStep,
    pub binary_path_input: String,
    pub binary_info: Option<BinaryLocationInfo>,
    pub sys_info: SystemInfo,
    pub target_init_system: InitSystem,
    pub config: Option<ServiceConfig>,
    pub active_config_field: ConfigField,
    pub generated_service_content: String,
    pub status_message: String,
    pub is_error_status: bool,
    /// 0 = save locally, 1 = deploy system-wide.
    pub preview_action_index: usize,
    /// The home directory that `~` stands for in a binary path, if known.
    pub home_dir: Option<String>,
}

pub open spec fn home_view(h: Option<String>) -> Option<Seq<char>> {
    match h {
        Some(s) => Some(s@),
        None => None,
    }
}

/// The service configuration derived for a located binary, run as `user`.
pub open spec fn configured_service(m: LocationModel, user: Seq<char>) -> ServiceModel {
    ServiceModel {
        exec_start: m.opt_binary_path,
        working_dir: m.opt_dir,
        ..default_service(m.app_name, m.binary_name, m.source_path, user)
    }
}

/// The binary information and configuration derived from a typed path.
pub open spec fn derived_from(
    info: Option<BinaryLocationInfo>,
    cfg: Option<ServiceConfig>,
    raw: Seq<char>,
    home: Option<Seq<char>>,
    user: Seq<char>,
) -> bool {
    match binary_location(raw, home) {
        None => info is None && cfg is None,
        Some(m) => {
            &&& info matches Some(i) && i.model() == m && !i.exists
            &&& cfg matches Some(c) && c@ == configured_service(m, user)
        },
    }
}

/// The preview content after a refresh: the rendered file when there is a
/// configuration, the old content otherwise.
pub open spec fn refreshed_content(
    init: InitSystem,
    cfg: Option<ServiceConfig>,
    sys: SystemInfo,
    old_content: Seq<char>,
) -> Seq<char> {
    match cfg {
        Some(c) => service_file(init, c@, sys@),
        None => old_content,
    }
}

/// The screen after pressing Enter; `blank` is whether the typed path is blank.
pub open spec fn step_after_proceed(step: ActiveStep, blank: bool) -> ActiveStep {
    match step {
        ActiveStep::BinaryPicker => if blank {
            ActiveStep::StatusModal
        } else {
            ActiveStep::ServiceConfig
        },
        ActiveStep::ServiceConfig => ActiveStep::PreviewDeploy,
        ActiveStep::PreviewDeploy => ActiveStep::StatusModal,
        ActiveStep::StatusModal => ActiveStep::PreviewDeploy,
    }
}

/// The screen after pressing Esc (on the first screen Esc quits instead).
pub open spec fn step_after_back(step: ActiveStep) -> ActiveStep {
    match step {
        ActiveStep::ServiceConfig => ActiveStep::BinaryPicker,
        ActiveStep::PreviewDeploy => ActiveStep::ServiceConfig,
        ActiveStep::StatusModal => ActiveStep::PreviewDeploy,
        ActiveStep::BinaryPicker => ActiveStep::BinaryPicker,
    }
}

/// The selected preview action after moving down (or Tab).
pub open spec fn next_action_index(i: int) -> int {
    (i + 1) % 2
}

/// The selected preview action after moving up (or Shift+Tab).
pub open spec fn prev_action_index(i: int) -> int {
    if i == 0 {
        1
    } else {
        0
    }
}

/// A key the wizard reacts to.
#[derive(Debug, Clone, Copy, PartialEq, Eq, Structural)]
pub enum Key {
    Char(char),
    F(u8),
    Enter,
    Esc,
    Tab,
    BackTab,
    Up,
    Down,
    Backspace,
    Other,
}

/// A key press with the modifiers that matter.
#[derive(Debug, Clone, Copy, PartialEq, Eq, Structural)]
pub struct KeyPress {
    pub key: Key,
    pub ctrl: bool,
    pub alt: bool,
}

/// Whether the program goes on after a key, and what the caller is to do.
pub enum KeyOutcome {
    Quit,
    Continue(StepAction),
}

/// What a key press means on a screen.
pub enum Intent {
    Quit,
    Toggle,
    Back,
    Proceed,
    Next,
    Prev,
    Erase,
    Type(char),
    Ignore,
}

/// The meaning of the keyboard shortcuts: Ctrl+C quits anywhere; Alt+I and
/// F2 switch the init system anywhere, and a plain `i`/`I` does so on the
/// preview screen; Esc quits on the first screen and goes back elsewhere;
/// Enter proceeds; Tab/Down and Shift+Tab/Up move the focus; Backspace erases;
/// any other character is typed.
pub open spec fn key_intent(k: KeyPress, step: ActiveStep) -> Intent {
    if k.ctrl && k.key == Key::Char('c') {
        Intent::Quit
    } else if (k.alt && (k.key == Key::Char('i') || k.key == Key::Char('I'))) || k.key == Key::F(2) {
        Intent::Toggle
    } else {
        match k.key {
            Key::Esc => if step == ActiveStep::BinaryPicker {
                Intent::Quit
            } else {
                Intent::Back
            },
            Key::Enter => Intent::Proceed,
            Key::Tab | Key::Down => Intent::Next,
            Key::BackTab | Key::Up => Intent::Prev,
            Key::Backspace => Intent::Erase,
            Key::Char(c) => if (c == 'i' || c == 'I') && step == ActiveStep::PreviewDeploy {
                Intent::Toggle
            } else {
                Intent::Type(c)
            },
            _ => Intent::Ignore,
        }
    }
}

/// The request to check the source binary of `n`, if it has one.
pub open spec fn probe_requested(n: App, a: StepAction) -> bool {
    match n.binary_info {
        Some(i) => a matches StepAction::CheckSource { path } && path@ == i.source_path@,
        None => a is Nothing,
    }
}

/// The action after an edit: on the first screen, the request to check
/// the newly derived source binary; elsewhere nothing.
pub open spec fn edit_action(o: App, n: App, a: StepAction) -> bool {
    if o.step == ActiveStep::BinaryPicker {
        probe_requested(n, a)
    } else {
        a is Nothing
    }
}

/// The state after switching the init system (`o` before, `n` after).
pub open spec fn toggled_post(o: App, n: App) -> bool {
    &&& n == (App {
        target_init_system: n.target_init_system,
        generated_service_content: n.generated_service_content,
        ..o
    })
    &&& n.target_init_system == toggled(o.target_init_system)
    &&& n.generated_service_content@ == refreshed_content(
        toggled(o.target_init_system),
        o.config,
        o.sys_info,
        o.generated_service_content@,
    )
}

/// The state after deriving the binary information from the typed path.
pub open spec fn rederived_post(o: App, n: App) -> bool {
    &&& n == (App { binary_info: n.binary_info, config: n.config, ..o })
    &&& derived_from(
        n.binary_info,
        n.config,
        o.binary_path_input@,
        home_view(o.home_dir),
        o.sys_info.current_user@,
    )
}

/// The state after re-rendering the preview.
pub open spec fn refreshed_post(o: App, n: App) -> bool {
    &&& n == (App { generated_service_content: n.generated_service_content, ..o })
    &&& n.generated_service_content@ == refreshed_content(
        o.target_init_system,
        o.config,
        o.sys_info,
        o.generated_service_content@,
    )
}

/// The state after the typed path changed to `input`.
pub open spec fn path_edited_post(o: App, n: App, input: Seq<char>) -> bool {
    &&& n == (App {
        binary_path_input: n.binary_path_input,
        binary_info: n.binary_info,
        config: n.config,
        ..o
    })
    &&& n.binary_path_input@ == input
    &&& derived_from(
        n.binary_info,
        n.config,
        input,
        home_view(o.home_dir),
        o.sys_info.current_user@,
    )
}

/// The state after the focused configuration field changed to `cfg`.
pub open spec fn field_edited_post(o: App, n: App, cfg: ServiceModel) -> bool {
    &&& n == (App {
        config: n.config,
        generated_service_content: n.generated_service_content,
        ..o
    })
    &&& n.config matches Some(c) && c@ == cfg
    &&& n.generated_service_content@ == refreshed_content(
        o.target_init_system,
        n.config,
        o.sys_info,
        o.generated_service_content@,
    )
}

/// The state after typing `c`.
pub open spec fn typed_post(o: App, n: App, c: char) -> bool {
    if o.step == ActiveStep::BinaryPicker {
        path_edited_post(o, n, o.binary_path_input@.push(c))
    } else if o.step == ActiveStep::ServiceConfig && o.config is Some {
        field_edited_post(o, n, typed(o.config.unwrap()@, o.active_config_field, c))
    } else {
        n == o
    }
}

/// The state after Backspace.
pub open spec fn erased_post(o: App, n: App) -> bool {
    if o.step == ActiveStep::BinaryPicker {
        path_edited_post(o, n, pop_text(o.binary_path_input@))
    } else if o.step == ActiveStep::ServiceConfig && o.config is Some {
        field_edited_post(o, n, erased(o.config.unwrap()@, o.active_config_field))
    } else {
        n == o
    }
}

/// The state after moving the focus forward.
pub open spec fn next_post(o: App, n: App) -> bool {
    if o.step == ActiveStep::ServiceConfig {
        n == (App { active_config_field: next_field(o.active_config_field), ..o })
    } else if o.step == ActiveStep::PreviewDeploy {
        n == (App {
            preview_action_index: next_action_index(o.preview_action_index as int) as usize,
            ..o
        })
    } else {
        n == o
    }
}

/// The state after moving the focus back.
pub open spec fn prev_post(o: App, n: App) -> bool {
    if o.step == ActiveStep::ServiceConfig {
        n == (App { active_config_field: prev_field(o.active_config_field), ..o })
    } else if o.step == ActiveStep::PreviewDeploy {
        n == (App {
            preview_action_index: prev_action_index(o.preview_action_index as int) as usize,
            ..o
        })
    } else {
        n == o
    }
}

/// The state after going back a screen.
pub open spec fn back_post(o: App, n: App) -> bool {
    n == (App { step: step_after_back(o.step), ..o })
}

/// The state and action after Enter.
pub open spec fn proceed_post(o: App, n: App, a: StepAction) -> bool {
    let blank = trimmed(o.binary_path_input@).len() == 0;
    &&& n.step == step_after_proceed(o.step, blank)
    &&& o.step == ActiveStep::BinaryPicker && blank ==> {
        &&& n == (App {
            step: n.step,
            status_message: n.status_message,
            is_error_status: true,
            ..o
        })
        &&& n.status_message@ == "Please enter a binary path first!"@
        &&& a is Nothing
    }
    &&& o.step == ActiveStep::BinaryPicker && !blank ==> {
        &&& n == (App {
            step: n.step,
            binary_info: n.binary_info,
            config: n.config,
            generated_service_content: n.generated_service_content,
            ..o
        })
        &&& derived_from(
            n.binary_info,
            n.config,
            o.binary_path_input@,
            home_view(o.home_dir),
            o.sys_info.current_user@,
        )
        &&& n.generated_service_content@ == refreshed_content(
            o.target_init_system,
            n.config,
            o.sys_info,
            o.generated_service_content@,
        )
        &&& probe_requested(n, a)
    }
    &&& o.step == ActiveStep::ServiceConfig ==> {
        &&& n == (App {
            step: n.step,
            generated_service_content: n.generated_service_content,
            ..o
        })
        &&& n.generated_service_content@ == refreshed_content(
            o.target_init_system,
            o.config,
            o.sys_info,
            o.generated_service_content@,
        )
        &&& a is Nothing
    }
    &&& o.step == ActiveStep::PreviewDeploy ==> {
        &&& n == (App { step: n.step, ..o })
        &&& match o.config {
            None => a is Nothing,
            Some(cfg) => if o.preview_action_index == 0 {
                a matches StepAction::SaveLocal { file_name, content } && file_name@
                    == service_file_name(o.target_init_system, cfg@) && content@
                    == o.generated_service_content@
            } else {
                a matches StepAction::Deploy(d) && d@ == new_deployment(
                    o.target_init_system,
                    cfg@,
                    o.generated_service_content@,
                )
            },
        }
    }
    &&& o.step == ActiveStep::StatusModal ==> {
        &&& n == (App { step: n.step, ..o })
        &&& a is Nothing
    }
}

impl App {
    pub fn new(sys_info: SystemInfo, home_dir: Option<String>) -> (app: App)
        ensures
            app.step == ActiveStep::BinaryPicker,
            app.binary_path_input@ == Seq::<char>::empty(),
            app.binary_info is None,
            app.sys_info == sys_info,
            app.target_init_system == sys_info.init_system,
            app.config is None,
            app.active_config_field == ConfigField::UnitName,
            app.generated_service_content@ == Seq::<char>::empty(),
            app.status_message@ == Seq::<char>::empty(),
            !app.is_error_status,
            app.preview_action_index == 0,
            app.home_dir == home_dir,
    {
        let target_init_system = sys_info.init_system;
        App {
            step: ActiveStep::BinaryPicker,
            binary_path_input: String::new(),
            binary_info: None,
            sys_info,
            target_init_system,
            config: None,
            active_config_field: ConfigField::UnitName,
            generated_service_content: String::new(),
            status_message: String::new(),
            is_error_status: false,
            preview_action_index: 0,
            home_dir,
        }
    }

    pub fn toggle_init_system(&mut self)
        ensures
            toggled_post(*old(self), *final(self)),
    {
        self.target_init_system = self.target_init_system.toggle();
        self.refresh_generated_content();
    }

    /// Derives the binary information and configuration from the typed path.
    /// Whether the source binary exists is a question for the caller: the
    /// returned action asks it (when a binary was derived), and the flag
    /// stays `false` until the answer comes back through
    /// `record_source_exists`.
    pub fn update_binary_info(&mut self) -> (a: StepAction)
        ensures
            rederived_post(*old(self), *final(self)),
            probe_requested(*final(self), a),
    {
        let home = match &self.home_dir {
            Some(h) => Some(h.as_str()),
            None => None,
        };
        match resolve_binary_info(self.binary_path_input.as_str(), home, false) {
            Some(info) => {
                let mut cfg = ServiceConfig::new(
                    owned(info.app_name.as_str()),
                    owned(info.binary_name.as_str()),
                    owned(info.source_path.as_str()),
                    owned(self.sys_info.current_user.as_str()),
                );
                cfg.exec_start = owned(info.opt_binary_path.as_str());
                cfg.working_dir = owned(info.opt_dir.as_str());
                self.binary_info = Some(info);
                self.config = Some(cfg);
            },
            None => {
                self.binary_info = None;
                self.config = None;
            },
        }
        self.probe_request()
    }

    pub fn refresh_generated_content(&mut self)
        ensures
            refreshed_post(*old(self), *final(self)),
    {
        match &self.config {
            Some(cfg) => {
                self.generated_service_content = render_service_by_type(
                    self.target_init_system,
                    cfg,
                    &self.sys_info,
                );
            },
            None => {},
        }
    }

    /// Types a character; on the first screen the returned action asks
    /// whether the newly derived source binary exists.
    pub fn handle_char_input(&mut self, c: char) -> (a: StepAction)
        ensures
            typed_post(*old(self), *final(self), c),
            edit_action(*old(self), *final(self), a),
    {
        match self.step {
            ActiveStep::BinaryPicker => {
                push_char(&mut self.binary_path_input, c);
                self.update_binary_info()
            },
            ActiveStep::ServiceConfig => {
                if let Some(mut cfg) = self.config.take() {
                    push_to_field(&mut cfg, self.active_config_field, c);
                    self.config = Some(cfg);
                    self.refresh_generated_content();
                }
                StepAction::Nothing
            },
            _ => StepAction::Nothing,
        }
    }

    /// Erases a character; on the first screen the returned action asks
    /// whether the newly derived source binary exists.
    pub fn handle_backspace(&mut self) -> (a: StepAction)
        ensures
            erased_post(*old(self), *final(self)),
            edit_action(*old(self), *final(self), a),
    {
        match self.step {
            ActiveStep::BinaryPicker => {
                pop_char(&mut self.binary_path_input);
                self.update_binary_info()
            },
            ActiveStep::ServiceConfig => {
                if let Some(mut cfg) = self.config.take() {
                    pop_from_field(&mut cfg, self.active_config_field);
                    self.config = Some(cfg);
                    self.refresh_generated_content();
                }
                StepAction::Nothing
            },
            _ => StepAction::Nothing,
        }
    }

    pub fn next_field_or_action(&mut self)
        ensures
            next_post(*old(self), *final(self)),
    {
        if self.step == ActiveStep::ServiceConfig {
            self.active_config_field = self.active_config_field.next();
        } else if self.step == ActiveStep::PreviewDeploy {
            self.preview_action_index = (self.preview_action_index % 2 + 1) % 2;
        }
    }

    pub fn prev_field_or_action(&mut self)
        ensures
            prev_post(*old(self), *final(self)),
    {
        if self.step == ActiveStep::ServiceConfig {
            self.active_config_field = self.active_config_field.prev();
        } else if self.step == ActiveStep::PreviewDeploy {
            if self.preview_action_index == 0 {
                self.preview_action_index = 1;
            } else {
                self.preview_action_index = 0;
            }
        }
    }

    pub fn proceed_step(&mut self) -> (action: StepAction)
        ensures
            proceed_post(*old(self), *final(self), action),
    {
        match self.step {
            ActiveStep::BinaryPicker => {
                if !has_content(self.binary_path_input.as_str()) {
                    self.status_message = owned("Please enter a binary path first!");
                    self.is_error_status = true;
                    self.step = ActiveStep::StatusModal;
                    return StepAction::Nothing;
                }
                let probe = self.update_binary_info();
                self.refresh_generated_content();
                self.step = ActiveStep::ServiceConfig;
                probe
            },
            ActiveStep::ServiceConfig => {
                self.refresh_generated_content();
                self.step = ActiveStep::PreviewDeploy;
                StepAction::Nothing
            },
            ActiveStep::PreviewDeploy => {
                let action = match &self.config {
                    Some(cfg) => {
                        if self.preview_action_index == 0 {
                            StepAction::SaveLocal {
                                file_name: local_file_name(self.target_init_system, cfg),
                                content: owned(self.generated_service_content.as_str()),
                            }
                        } else {
                            StepAction::Deploy(
                                Deployment::new(
                                    self.target_init_system,
                                    cfg,
                                    self.generated_service_content.as_str(),
                                ),
                            )
                        }
                    },
                    None => StepAction::Nothing,
                };
                self.step = ActiveStep::StatusModal;
                action
            },
            ActiveStep::StatusModal => {
                self.step = ActiveStep::PreviewDeploy;
                StepAction::Nothing
            },
        }
    }

    /// Records how saving the file `file_name` went.
    pub fn finish_save(&mut self, file_name: &str, outcome: Result<(), String>)
        ensures
            *final(self) == (App {
                status_message: final(self).status_message,
                is_error_status: outcome is Err,
                ..*old(self)
            }),
            final(self).status_message@ == match outcome {
                Ok(_) => "Service file saved successfully to: "@ + file_name@,
                Err(e) => "Failed to save service file: "@ + e@,
            },
    {
        match outcome {
            Ok(_) => {
                let mut msg = owned("Service file saved successfully to: ");
                push_str(&mut msg, file_name);
                self.status_message = msg;
                self.is_error_status = false;
            },
            Err(e) => {
                let mut msg = owned("Failed to save service file: ");
                push_str(&mut msg, e.as_str());
                self.status_message = msg;
                self.is_error_status = true;
            },
        }
    }

    /// Records how a deployment ended: its log, or why it failed.
    pub fn finish_deploy(&mut self, outcome: Result<String, String>)
        ensures
            *final(self) == (App {
                status_message: final(self).status_message,
                is_error_status: outcome is Err,
                ..*old(self)
            }),
            final(self).status_message@ == match outcome {
                Ok(logs) => logs@,
                Err(e) => "Deployment failed: "@ + e@,
            },
    {
        match outcome {
            Ok(logs) => {
                self.status_message = logs;
                self.is_error_status = false;
            },
            Err(e) => {
                let mut msg = owned("Deployment failed: ");
                push_str(&mut msg, e.as_str());
                self.status_message = msg;
                self.is_error_status = true;
            },
        }
    }

    /// What to find out about the source binary just derived, if any.
    fn probe_request(&self) -> (a: StepAction)
        ensures
            probe_requested(*self, a),
    {
        match &self.binary_info {
            Some(info) => StepAction::CheckSource { path: owned(info.source_path.as_str()) },
            None => StepAction::Nothing,
        }
    }

    /// Records whether a file exists at `path`, when that is still the source
    /// binary of the wizard.
    pub fn record_source_exists(&mut self, path: &str, exists: bool)
        ensures
            match old(self).binary_info {
                Some(i) => if i.source_path@ == path@ {
                    *final(self) == (App {
                        binary_info: Some(BinaryLocationInfo { exists, ..i }),
                        ..*old(self)
                    })
                } else {
                    *final(self) == *old(self)
                },
                None => *final(self) == *old(self),
            },
    {
        if let Some(mut info) = self.binary_info.take() {
            if chars_eq(chars_of(info.source_path.as_str()).as_slice(), chars_of(path).as_slice()) {
                info.exists = exists;
            }
            self.binary_info = Some(info);
        }
    }

    /// Reacts to a key press; says whether to quit, and otherwise what the
    /// caller is to do.
    pub fn handle_key(&mut self, k: KeyPress) -> (o: KeyOutcome)
        ensures
            match key_intent(k, old(self).step) {
                Intent::Quit => o is Quit && *final(self) == *old(self),
                Intent::Toggle => o matches KeyOutcome::Continue(a) && a is Nothing && toggled_post(
                    *old(self),
                    *final(self),
                ),
                Intent::Back => o matches KeyOutcome::Continue(a) && a is Nothing && back_post(
                    *old(self),
                    *final(self),
                ),
                Intent::Proceed => o matches KeyOutcome::Continue(a) && proceed_post(
                    *old(self),
                    *final(self),
                    a,
                ),
                Intent::Next => o matches KeyOutcome::Continue(a) && a is Nothing && next_post(
                    *old(self),
                    *final(self),
                ),
                Intent::Prev => o matches KeyOutcome::Continue(a) && a is Nothing && prev_post(
                    *old(self),
                    *final(self),
                ),
                Intent::Erase => o matches KeyOutcome::Continue(a) && erased_post(
                    *old(self),
                    *final(self),
                ) && edit_action(*old(self), *final(self), a),
                Intent::Type(c) => o matches KeyOutcome::Continue(a) && typed_post(
                    *old(self),
                    *final(self),
                    c,
                ) && edit_action(*old(self), *final(self), a),
                Intent::Ignore => o matches KeyOutcome::Continue(a) && a is Nothing && *final(self)
                    == *old(self),
            },
    {
        if k.ctrl && k.key == Key::Char('c') {
            return KeyOutcome::Quit;
        }
        if (k.alt && (k.key == Key::Char('i') || k.key == Key::Char('I'))) || k.key == Key::F(2) {
            self.toggle_init_system();
            return KeyOutcome::Continue(StepAction::Nothing);
        }
        match k.key {
            Key::Esc => {
                if self.step == ActiveStep::BinaryPicker {
                    KeyOutcome::Quit
                } else {
                    self.back_step();
                    KeyOutcome::Continue(StepAction::Nothing)
                }
            },
            Key::Enter => KeyOutcome::Continue(self.proceed_step()),
            Key::Tab | Key::Down => {
                self.next_field_or_action();
                KeyOutcome::Continue(StepAction::Nothing)
            },
            Key::BackTab | Key::Up => {
                self.prev_field_or_action();
                KeyOutcome::Continue(StepAction::Nothing)
            },
            Key::Backspace => KeyOutcome::Continue(self.handle_backspace()),
            Key::Char(c) => {
                if (c == 'i' || c == 'I') && self.step == ActiveStep::PreviewDeploy {
                    self.toggle_init_system();
                    KeyOutcome::Continue(StepAction::Nothing)
                } else {
                    KeyOutcome::Continue(self.handle_char_input(c))
                }
            },
            _ => KeyOutcome::Continue(StepAction::Nothing),
        }
    }

    pub fn back_step(&mut self)
        ensures
            back_post(*old(self), *final(self)),
    {
        match self.step {
            ActiveStep::ServiceConfig => self.step = ActiveStep::BinaryPicker,
            ActiveStep::PreviewDeploy => self.step = ActiveStep::ServiceConfig,
            ActiveStep::StatusModal => self.step = ActiveStep::PreviewDeploy,
            ActiveStep::BinaryPicker => {},
        }
    }
}

/// `k` presses of Tab from field `f`.
pub open spec fn next_field_n(f: ConfigField, k: nat) -> ConfigField
    decreases k,
{
    if k == 0 {
        f
    } else {
        next_field(next_field_n(f, (k - 1) as nat))
    }
}

proof fn lemma_field_index_roundtrip(f: ConfigField, i: int)
    ensures
        field_at(field_index(f)) == f,
        0 <= field_index(f) < field_count(),
        0 <= i < field_count() ==> field_index(field_at(i)) == i,
{
}

/// Moving to the previous field undoes moving to the next one, and the
/// other way round.
pub proof fn lemma_prev_undoes_next(f: ConfigField)
    ensures
        prev_field(next_field(f)) == f,
        next_field(prev_field(f)) == f,
{
}

proof fn lemma_tab_index(f: ConfigField, k: nat)
    ensures
        field_index(next_field_n(f, k)) == (field_index(f) + k) % field_count(),
    decreases k,
{
    if k > 0 {
        lemma_tab_index(f, (k - 1) as nat);
        let g = next_field_n(f, (k - 1) as nat);
        let i = field_index(f);
        lemma_field_index_roundtrip(g, (field_index(g) + 1) % field_count());
        assert(((i + (k - 1)) % 9 + 1) % 9 == (i + k) % 9) by (nonlinear_arith)
            requires
                0 <= i < 9,
                k >= 1,
        ;
    }
}

/// Tab walks through the fields in form order and wraps around: after `k`
/// presses the focus is `k` places further, so it comes back to where it
/// started exactly after visiting all nine fields.
pub proof fn lemma_tab_cycles_through_fields(f: ConfigField, k: nat)
    ensures
        field_index(next_field_n(f, k)) == (field_index(f) + k) % field_count(),
        next_field_n(f, 9) == f,
        0 < k < 9 ==> next_field_n(f, k) != f,
{
    lemma_tab_index(f, k);
    lemma_tab_index(f, 9);
    let i = field_index(f);
    lemma_field_index_roundtrip(f, 0);
    lemma_field_index_roundtrip(next_field_n(f, 9), 0);
    assert((i + 9) % 9 == i) by (nonlinear_arith)
        requires
            0 <= i < 9,
    ;
    if 0 < k < 9 {
        assert((i + k) % 9 != i) by (nonlinear_arith)
            requires
                0 <= i < 9,
                0 < k < 9,
        ;
    }
}

/// With one of the two preview actions selected, moving down and then up (or
/// up and then down) selects it again, and the selection stays one of the two.
pub proof fn lemma_action_selection_roundtrip(i: int)
    requires
        0 <= i < 2,
    ensures
        prev_action_index(next_action_index(i)) == i,
        next_action_index(prev_action_index(i)) == i,
        0 <= next_action_index(i) < 2,
        0 <= prev_action_index(i) < 2,
{
}

/// Erasing the character just typed into a field gives back the
/// configuration as it was; the same holds of the typed binary path.
pub proof fn lemma_backspace_undoes_typing(m: ServiceModel, f: ConfigField, c: char, path: Seq<char>)
    ensures
        erased(typed(m, f, c), f) == m,
        pop_text(path.push(c)) == path,
{
    assert(path.push(c).drop_last() =~= path);
    let t = field_text(m, f);
    assert(t.push(c).drop_last() =~= t);
}

/// Esc undoes Enter on the first two screens (with a path typed), and Enter
/// undoes Esc on the configuration and preview screens.
pub proof fn lemma_back_undoes_proceed(step: ActiveStep)
    ensures
        (step == ActiveStep::BinaryPicker || step == ActiveStep::ServiceConfig) ==> step_after_back(
            step_after_proceed(step, false),
        ) == step,
        (step == ActiveStep::ServiceConfig || step == ActiveStep::PreviewDeploy)
            ==> step_after_proceed(step_after_back(step), false) == step,
{
}

/// Deriving from the same typed path twice gives the same binary
/// information (existence still pending) and the same configuration.
pub proof fn lemma_derivation_is_deterministic(
    i1: Option<BinaryLocationInfo>,
    c1: Option<ServiceConfig>,
    i2: Option<BinaryLocationInfo>,
    c2: Option<ServiceConfig>,
    raw: Seq<char>,
    home: Option<Seq<char>>,
    user: Seq<char>,
)
    requires
        derived_from(i1, c1, raw, home, user),
        derived_from(i2, c2, raw, home, user),
    ensures
        i1 is None <==> i2 is None,
        c1 is None <==> c2 is None,
        i1 matches Some(a) ==> i2 matches Some(b) && a.model() == b.model() && a.exists
            == b.exists,
        c1 matches Some(a) ==> c2 matches Some(b) && a@ == b@,
{
}

/// Typing a character appends it to exactly the field that has the focus and
/// leaves every other field as it was; Backspace removes the last character
/// of exactly that field.
pub proof fn lemma_typing_edits_the_focused_field(m: ServiceModel, c: char)
    ensures
        typed(m, ConfigField::UnitName, c) == (ServiceModel { unit_name: m.unit_name.push(c), ..m }),
        typed(m, ConfigField::Description, c) == (ServiceModel {
            description: m.description.push(c),
            ..m
        }),
        typed(m, ConfigField::ExecStart, c) == (ServiceModel { exec_start: m.exec_start.push(c), ..m }),
        typed(m, ConfigField::WorkingDirectory, c) == (ServiceModel {
            working_dir: m.working_dir.push(c),
            ..m
        }),
        typed(m, ConfigField::User, c) == (ServiceModel { user: m.user.push(c), ..m }),
        typed(m, ConfigField::Group, c) == (ServiceModel { group: m.group.push(c), ..m }),
        typed(m, ConfigField::RestartPolicy, c) == (ServiceModel {
            restart_policy: m.restart_policy.push(c),
            ..m
        }),
        typed(m, ConfigField::ExtraFlags, c) == (ServiceModel {
            extra_flags: m.extra_flags.push(c),
            ..m
        }),
        typed(m, ConfigField::Environment, c) == (ServiceModel {
            environment: m.environment.push(c),
            ..m
        }),
        erased(m, ConfigField::UnitName) == (ServiceModel { unit_name: pop_text(m.unit_name), ..m }),
        erased(m, ConfigField::Description) == (ServiceModel {
            description: pop_text(m.description),
            ..m
        }),
        erased(m, ConfigField::ExecStart) == (ServiceModel {
            exec_start: pop_text(m.exec_start),
            ..m
        }),
        erased(m, ConfigField::WorkingDirectory) == (ServiceModel {
            working_dir: pop_text(m.working_dir),
            ..m
        }),
        erased(m, ConfigField::User) == (ServiceModel { user: pop_text(m.user), ..m }),
        erased(m, ConfigField::Group) == (ServiceModel { group: pop_text(m.group), ..m }),
        erased(m, ConfigField::RestartPolicy) == (ServiceModel {
            restart_policy: pop_text(m.restart_policy),
            ..m
        }),
        erased(m, ConfigField::ExtraFlags) == (ServiceModel {
            extra_flags: pop_text(m.extra_flags),
            ..m
        }),
        erased(m, ConfigField::Environment) == (ServiceModel {
            environment: pop_text(m.environment),
            ..m
        }),
{
}

/// Enter on the preview screen acts on the previewed file: with the first
/// action it saves exactly the preview, for systemd under the unit name with
/// `.service` added when missing and for OpenRC under the application name;
/// with the second it starts a deployment of exactly the preview, under the
/// same file name, of the configured binary; either way the status screen
/// comes next.
pub proof fn lemma_preview_acts_on_previewed_file(o: App, n: App, a: StepAction)
    requires
        o.step == ActiveStep::PreviewDeploy,
        o.config is Some,
        proceed_post(o, n, a),
    ensures
        n.step == ActiveStep::StatusModal,
        ({
            let cfg = o.config.unwrap()@;
            let name = service_file_name(o.target_init_system, cfg);
            &&& o.target_init_system == InitSystem::Systemd ==> {
                &&& name.subrange(0, cfg.unit_name.len() as int) == cfg.unit_name
                &&& name.len() >= 8
                &&& name.subrange(name.len() - 8, name.len() as int) == ".service"@
            }
            &&& o.target_init_system == InitSystem::OpenRC ==> name == cfg.app_name
            &&& o.preview_action_index == 0 ==> (a matches StepAction::SaveLocal {
                file_name,
                content,
            } && file_name@ == name && content@ == o.generated_service_content@)
            &&& o.preview_action_index != 0 ==> (a matches StepAction::Deploy(d) && {
                &&& d@.stage == DeployStage::Start
                &&& d@.init == o.target_init_system
                &&& d@.file_name == name
                &&& d@.content == o.generated_service_content@
                &&& d@.source_path == cfg.source_binary_path
                &&& d@.exec_start == cfg.exec_start
                &&& d@.working_dir == cfg.working_dir
            })
        }),
{
    let cfg = o.config.unwrap()@;
    lemma_systemd_file_name_from_unit_name(cfg, cfg);
}

/// Switching the init system twice brings back the target and its preview.
pub proof fn lemma_toggle_twice_restores_preview(
    init: InitSystem,
    cfg: Option<ServiceConfig>,
    sys: SystemInfo,
    content: Seq<char>,
)
    ensures
        toggled(toggled(init)) == init,
        refreshed_content(toggled(toggled(init)), cfg, sys, content) == refreshed_content(
            init,
            cfg,
            sys,
            content,
        ),
{
}

/// The configuration derived for a located binary runs it from where it is
/// installed: `/opt/<app_name>/<binary_name>`, in `/opt/<app_name>`.
pub proof fn lemma_config_installs_under_opt(m: LocationModel, user: Seq<char>)
    requires
        m.opt_dir == "/opt/"@ + m.app_name,
        m.opt_binary_path == "/opt/"@ + m.app_name + "/"@ + m.binary_name,
    ensures
        configured_service(m, user).exec_start == "/opt/"@ + m.app_name + "/"@ + m.binary_name,
        configured_service(m, user).working_dir == "/opt/"@ + m.app_name,
        configured_service(m, user) == default_service(
            m.app_name,
            m.binary_name,
            m.source_path,
            user,
        ),
{
}

} // verus!
