//! System-wide deployment of a generated service file, as a state machine:
//! the library decides which command to run, which file to write and what
//! to log, and the caller performs each action and reports what happened.
//!
//! The steps: create the installation directory; copy the binary there and
//! make it executable, when the source binary exists; write the service file
//! to `/tmp` and copy it to the init system's directory (making an OpenRC
//! script executable); enable the service (`rc-update add`) or reload the
//! systemd manager; report the log.  Any failed step ends the deployment
//! with an error message.

use vstd::prelude::*;
use crate::device::InitSystem;
use crate::generator::{local_file_name, service_file_name, ServiceConfig, ServiceModel};
use crate::text::{owned, push_str};

verus! {

/// How far a deployment has got.
#[derive(Debug, Clone, Copy, PartialEq, Eq, Structural)]
pub enum DeployStage {
    Start,
    MakeDir,
    CheckSource,
    CopyBinary,
    ChmodBinary,
    WriteScript,
    CopyScript,
    ChmodScript,
    Reload,
    Done,
}

/// What the caller observed when performing the last action.
pub enum DeployEvent {
    /// Starts the deployment.
    Begin,
    /// The command ran; whether it exited successfully.
    Status(bool),
    /// Whether the file asked about exists.
    Exists(bool),
    /// The file was written.
    Written,
    /// The command could not be started, or the file not written.
    Error(String),
}

/// What the caller is to do next.
pub enum DeployAction {
    /// Run the command with these words (the program first).
    Run(Vec<String>),
    /// Find out whether a file exists.
    CheckExists(String),
    /// Write `content` to the file at `path`.
    WriteFile { path: String, content: String },
    /// The deployment is over: its log, or why it failed.
    Finished(Result<String, String>),
}

/// A `DeployAction` with its text as character sequences.
pub enum ActionModel {
    Run(Seq<Seq<char>>),
    CheckExists(Seq<char>),
    WriteFile(Seq<char>, Seq<char>),
    Finished(Result<Seq<char>, Seq<char>>),
}

pub open spec fn words_view(v: Seq<String>) -> Seq<Seq<char>> {
    Seq::new(v.len(), |i: int| v[i]@)
}

pub open spec fn action_model(a: DeployAction) -> ActionModel {
    match a {
        DeployAction::Run(words) => ActionModel::Run(words_view(words@)),
        DeployAction::CheckExists(p) => ActionModel::CheckExists(p@),
        DeployAction::WriteFile { path, content } => ActionModel::WriteFile(path@, content@),
        DeployAction::Finished(r) => ActionModel::Finished(
            match r {
                Ok(l) => Ok(l@),
                Err(m) => Err(m@),
            },
        ),
    }
}

/// A deployment in progress.
pub struct Deployment {
    pub init: InitSystem,
    pub app_name: String,
    pub file_name: String,
    pub working_dir: String,
    pub exec_start: String,
    pub source_path: String,
    pub content: String,
    pub stage: DeployStage,
    pub logs: String,
}

pub struct DeployModel {
    pub init: InitSystem,
    pub app_name: Seq<char>,
    pub file_name: Seq<char>,
    pub working_dir: Seq<char>,
    pub exec_start: Seq<char>,
    pub source_path: Seq<char>,
    pub content: Seq<char>,
    pub stage: DeployStage,
    pub logs: Seq<char>,
}

impl View for Deployment {
    type V = DeployModel;

    open spec fn view(&self) -> DeployModel {
        DeployModel {
            init: self.init,
            app_name: self.app_name@,
            file_name: self.file_name@,
            working_dir: self.working_dir@,
            exec_start: self.exec_start@,
            source_path: self.source_path@,
            content: self.content@,
            stage: self.stage,
            logs: self.logs@,
        }
    }
}

/// The deployment of `content` for a service under an init system, not yet begun.
pub open spec fn new_deployment(init: InitSystem, c: ServiceModel, content: Seq<char>) -> DeployModel {
    DeployModel {
        init,
        app_name: c.app_name,
        file_name: service_file_name(init, c),
        working_dir: c.working_dir,
        exec_start: c.exec_start,
        source_path: c.source_binary_path,
        content,
        stage: DeployStage::Start,
        logs: Seq::empty(),
    }
}

/// Where the service file is staged before it is copied into place.
pub open spec fn staging_path(d: DeployModel) -> Seq<char> {
    "/tmp/"@ + d.file_name
}

/// Where the init system looks for the service file.
pub open spec fn target_path(d: DeployModel) -> Seq<char> {
    match d.init {
        InitSystem::OpenRC => "/etc/init.d/"@ + d.file_name,
        InitSystem::Systemd => "/etc/systemd/system/"@ + d.file_name,
    }
}

/// The command that registers the installed service with the init system.
pub open spec fn register_command(d: DeployModel) -> Seq<Seq<char>> {
    match d.init {
        InitSystem::OpenRC => seq!["sudo"@, "rc-update"@, "add"@, d.app_name, "default"@],
        InitSystem::Systemd => seq!["sudo"@, "systemctl"@, "daemon-reload"@],
    }
}

/// The log line written before the service file is copied into place.
pub open spec fn install_log(d: DeployModel) -> Seq<char> {
    match d.init {
        InitSystem::OpenRC => "--> Deploying OpenRC init script to "@ + target_path(d) + "\n"@,
        InitSystem::Systemd => "--> Deploying systemd unit file to "@ + target_path(d) + "\n"@,
    }
}

/// The error when the service file cannot be copied into place.
pub open spec fn install_error(d: DeployModel) -> Seq<char> {
    match d.init {
        InitSystem::OpenRC => "Failed to copy init script to "@ + target_path(d),
        InitSystem::Systemd => "Failed to copy unit file to "@ + target_path(d),
    }
}

/// The log line written before the service is registered.
pub open spec fn register_log(d: DeployModel) -> Seq<char> {
    match d.init {
        InitSystem::OpenRC => "--> Enabling service in default runlevel (sudo rc-update add "@
            + d.app_name + " default)...\n"@,
        InitSystem::Systemd => "--> Reloading systemd manager configuration (sudo systemctl daemon-reload)...\n"@,
    }
}

/// The log line after registering, by whether it succeeded.
pub open spec fn registered_log(d: DeployModel, ok: bool) -> Seq<char> {
    match d.init {
        InitSystem::OpenRC => if ok {
            "--> Service added to default runlevel successfully!\n"@
        } else {
            "--> Note: Could not run 'rc-update add' automatically.\n"@
        },
        InitSystem::Systemd => if ok {
            "--> systemd manager configuration reloaded.\n"@
        } else {
            "--> Note: Could not run 'systemctl daemon-reload' automatically.\n"@
        },
    }
}

/// The closing lines of a successful deployment.
pub open spec fn success_log(d: DeployModel) -> Seq<char> {
    match d.init {
        InitSystem::OpenRC => "\nSUCCESS! OpenRC init script deployed.\nTo start service, run:\n  sudo rc-service "@
            + d.app_name + " start\n  sudo rc-service "@ + d.app_name + " status\n"@,
        InitSystem::Systemd => "\nSUCCESS! Systemd unit deployed.\nTo start service, run:\n  sudo systemctl enable --now "@
            + d.file_name + "\n  sudo systemctl status "@ + d.file_name + "\n"@,
    }
}

/// One step of a deployment: the next stage, what is added to the log, and
/// the action.
pub struct Transition {
    pub stage: DeployStage,
    pub log: Seq<char>,
    pub action: ActionModel,
}

pub open spec fn step_to(stage: DeployStage, log: Seq<char>, action: ActionModel) -> Transition {
    Transition { stage, log, action }
}

pub open spec fn fail_with(msg: Seq<char>) -> Transition {
    step_to(DeployStage::Done, Seq::empty(), ActionModel::Finished(Err(msg)))
}

/// The events a deployment can take in each stage.
pub open spec fn expects(stage: DeployStage, e: DeployEvent) -> bool {
    match stage {
        DeployStage::Start => e is Begin,
        DeployStage::CheckSource => e is Exists,
        DeployStage::WriteScript => e is Written || e is Error,
        DeployStage::Done => false,
        _ => e is Status || e is Error,
    }
}

/// What a deployment does on an event.
pub open spec fn transition(d: DeployModel, e: DeployEvent) -> Transition {
    match (d.stage, e) {
        (DeployStage::Start, _) => step_to(
            DeployStage::MakeDir,
            "--> Creating directory: "@ + d.working_dir + "\n"@,
            ActionModel::Run(seq!["sudo"@, "mkdir"@, "-p"@, d.working_dir]),
        ),
        (DeployStage::MakeDir, DeployEvent::Status(true)) => step_to(
            DeployStage::CheckSource,
            Seq::empty(),
            ActionModel::CheckExists(d.source_path),
        ),
        (DeployStage::MakeDir, DeployEvent::Status(false)) => fail_with(
            "Failed to execute 'sudo mkdir -p "@ + d.working_dir + "'"@,
        ),
        (DeployStage::CheckSource, DeployEvent::Exists(true)) => step_to(
            DeployStage::CopyBinary,
            "--> Copying binary "@ + d.source_path + " -> "@ + d.exec_start + "\n"@,
            ActionModel::Run(seq!["sudo"@, "cp"@, d.source_path, d.exec_start]),
        ),
        (DeployStage::CheckSource, _) => step_to(
            DeployStage::WriteScript,
            "--> Warning: Source binary file "@ + d.source_path
                + " not found locally. Skipping binary copy.\n"@,
            ActionModel::WriteFile(staging_path(d), d.content),
        ),
        (DeployStage::CopyBinary, DeployEvent::Status(true)) => step_to(
            DeployStage::ChmodBinary,
            Seq::empty(),
            ActionModel::Run(seq!["sudo"@, "chmod"@, "+x"@, d.exec_start]),
        ),
        (DeployStage::CopyBinary, DeployEvent::Status(false)) => fail_with(
            "Failed to copy binary to "@ + d.exec_start,
        ),
        (DeployStage::ChmodBinary, DeployEvent::Status(true)) => step_to(
            DeployStage::WriteScript,
            Seq::empty(),
            ActionModel::WriteFile(staging_path(d), d.content),
        ),
        (DeployStage::ChmodBinary, DeployEvent::Status(false)) => fail_with(
            "Failed to set execute permissions on "@ + d.exec_start,
        ),
        (DeployStage::WriteScript, DeployEvent::Written) => step_to(
            DeployStage::CopyScript,
            install_log(d),
            ActionModel::Run(seq!["sudo"@, "cp"@, staging_path(d), target_path(d)]),
        ),
        (DeployStage::CopyScript, DeployEvent::Status(true)) => match d.init {
            InitSystem::OpenRC => step_to(
                DeployStage::ChmodScript,
                Seq::empty(),
                ActionModel::Run(seq!["sudo"@, "chmod"@, "+x"@, target_path(d)]),
            ),
            InitSystem::Systemd => step_to(
                DeployStage::Reload,
                register_log(d),
                ActionModel::Run(register_command(d)),
            ),
        },
        (DeployStage::CopyScript, DeployEvent::Status(false)) => fail_with(install_error(d)),
        (DeployStage::ChmodScript, DeployEvent::Status(true)) => step_to(
            DeployStage::Reload,
            register_log(d),
            ActionModel::Run(register_command(d)),
        ),
        (DeployStage::ChmodScript, DeployEvent::Status(false)) => fail_with(
            "Failed to set executable permissions on "@ + target_path(d),
        ),
        (DeployStage::Reload, DeployEvent::Status(ok)) => {
            let log = registered_log(d, ok) + success_log(d);
            step_to(DeployStage::Done, log, ActionModel::Finished(Ok(d.logs + log)))
        },
        (_, DeployEvent::Error(msg)) => fail_with(msg@),
        (_, _) => fail_with(Seq::empty()),
    }
}

/// How far along a stage is; every step moves strictly forward.
pub open spec fn stage_rank(stage: DeployStage) -> int {
    match stage {
        DeployStage::Start => 0,
        DeployStage::MakeDir => 1,
        DeployStage::CheckSource => 2,
        DeployStage::CopyBinary => 3,
        DeployStage::ChmodBinary => 4,
        DeployStage::WriteScript => 5,
        DeployStage::CopyScript => 6,
        DeployStage::ChmodScript => 7,
        DeployStage::Reload => 8,
        DeployStage::Done => 9,
    }
}

/// Every step of a deployment moves it to a later stage, so a deployment
/// ends after at most nine steps; it ends exactly when the action is
/// `Finished`, and a finished deployment takes no more events.
pub proof fn lemma_deployment_progresses(d: DeployModel, e: DeployEvent)
    requires
        expects(d.stage, e),
    ensures
        stage_rank(transition(d, e).stage) > stage_rank(d.stage),
        stage_rank(transition(d, e).stage) <= 9,
        (transition(d, e).action is Finished) <==> transition(d, e).stage == DeployStage::Done,
        forall|e2: DeployEvent| !expects(DeployStage::Done, e2),
{
}

/// When the source binary exists, it is copied into place next, whatever the
/// init system: the command is `sudo cp <source> <exec_start>` and the log
/// says so; two deployments that differ only in their init system take the
/// same step.
pub proof fn lemma_existing_binary_is_copied(d: DeployModel, init: InitSystem)
    requires
        d.stage == DeployStage::CheckSource,
    ensures
        transition(d, DeployEvent::Exists(true)).stage == DeployStage::CopyBinary,
        transition(d, DeployEvent::Exists(true)).action == ActionModel::Run(
            seq!["sudo"@, "cp"@, d.source_path, d.exec_start],
        ),
        transition(d, DeployEvent::Exists(true)).log == "--> Copying binary "@ + d.source_path
            + " -> "@ + d.exec_start + "\n"@,
        transition(DeployModel { init, ..d }, DeployEvent::Exists(true)) == transition(
            d,
            DeployEvent::Exists(true),
        ),
{
}

/// A step that fails (a command that cannot be started, a file that cannot
/// be written) ends the deployment with that failure as its error.
pub proof fn lemma_failure_ends_deployment(d: DeployModel, msg: String)
    requires
        expects(d.stage, DeployEvent::Error(msg)),
    ensures
        transition(d, DeployEvent::Error(msg)) == fail_with(msg@),
{
}

/// A deployment succeeds only from its last stage, and then reports its
/// whole log.
pub proof fn lemma_success_reports_log(d: DeployModel, e: DeployEvent)
    requires
        expects(d.stage, e),
    ensures
        transition(d, e).action matches ActionModel::Finished(Ok(log)) ==> d.stage
            == DeployStage::Reload && log == d.logs + transition(d, e).log,
{
}

/// The deployment after one step: its new stage, and its log extended by
/// what the step logs.
pub open spec fn stepped(d: DeployModel, e: DeployEvent) -> DeployModel {
    DeployModel { stage: transition(d, e).stage, logs: d.logs + transition(d, e).log, ..d }
}

/// A systemd deployment in which every step succeeds creates
/// `<working_dir>`, copies the binary to `<exec_start>` and makes it
/// executable, stages the unit under `/tmp`, copies it to
/// `/etc/systemd/system/`, reloads the systemd manager and reports the whole
/// log, in that order.
#[verifier::rlimit(50)]
pub proof fn lemma_systemd_deployment_succeeds(c: ServiceModel, content: Seq<char>)
    ensures
        ({
            let name = service_file_name(InitSystem::Systemd, c);
            let d0 = new_deployment(InitSystem::Systemd, c, content);
            let d1 = stepped(d0, DeployEvent::Begin);
            let d2 = stepped(d1, DeployEvent::Status(true));
            let d3 = stepped(d2, DeployEvent::Exists(true));
            let d4 = stepped(d3, DeployEvent::Status(true));
            let d5 = stepped(d4, DeployEvent::Status(true));
            let d6 = stepped(d5, DeployEvent::Written);
            let d7 = stepped(d6, DeployEvent::Status(true));
            &&& transition(d0, DeployEvent::Begin).action == ActionModel::Run(
                seq!["sudo"@, "mkdir"@, "-p"@, c.working_dir],
            )
            &&& transition(d1, DeployEvent::Status(true)).action == ActionModel::CheckExists(
                c.source_binary_path,
            )
            &&& transition(d2, DeployEvent::Exists(true)).action == ActionModel::Run(
                seq!["sudo"@, "cp"@, c.source_binary_path, c.exec_start],
            )
            &&& transition(d3, DeployEvent::Status(true)).action == ActionModel::Run(
                seq!["sudo"@, "chmod"@, "+x"@, c.exec_start],
            )
            &&& transition(d4, DeployEvent::Status(true)).action == ActionModel::WriteFile(
                "/tmp/"@ + name,
                content,
            )
            &&& transition(d5, DeployEvent::Written).action == ActionModel::Run(
                seq!["sudo"@, "cp"@, "/tmp/"@ + name, "/etc/systemd/system/"@ + name],
            )
            &&& transition(d6, DeployEvent::Status(true)).action == ActionModel::Run(
                seq!["sudo"@, "systemctl"@, "daemon-reload"@],
            )
            &&& transition(d7, DeployEvent::Status(true)).action == ActionModel::Finished(
                Ok(
                    "--> Creating directory: "@ + c.working_dir + "\n"@ + "--> Copying binary "@
                        + c.source_binary_path + " -> "@ + c.exec_start + "\n"@
                        + "--> Deploying systemd unit file to "@ + "/etc/systemd/system/"@ + name
                        + "\n"@
                        + "--> Reloading systemd manager configuration (sudo systemctl daemon-reload)...\n"@
                        + "--> systemd manager configuration reloaded.\n"@
                        + "\nSUCCESS! Systemd unit deployed.\nTo start service, run:\n  sudo systemctl enable --now "@
                        + name + "\n  sudo systemctl status "@ + name + "\n"@,
                ),
            )
        }),
{
    let name = service_file_name(InitSystem::Systemd, c);
    let d0 = new_deployment(InitSystem::Systemd, c, content);
    let d1 = stepped(d0, DeployEvent::Begin);
    let d2 = stepped(d1, DeployEvent::Status(true));
    let d3 = stepped(d2, DeployEvent::Exists(true));
    let d4 = stepped(d3, DeployEvent::Status(true));
    let d5 = stepped(d4, DeployEvent::Status(true));
    let d6 = stepped(d5, DeployEvent::Written);
    let d7 = stepped(d6, DeployEvent::Status(true));
    assert(d7.logs + transition(d7, DeployEvent::Status(true)).log =~= "--> Creating directory: "@
        + c.working_dir + "\n"@ + "--> Copying binary "@ + c.source_binary_path + " -> "@
        + c.exec_start + "\n"@ + "--> Deploying systemd unit file to "@ + "/etc/systemd/system/"@
        + name + "\n"@
        + "--> Reloading systemd manager configuration (sudo systemctl daemon-reload)...\n"@
        + "--> systemd manager configuration reloaded.\n"@
        + "\nSUCCESS! Systemd unit deployed.\nTo start service, run:\n  sudo systemctl enable --now "@
        + name + "\n  sudo systemctl status "@ + name + "\n"@);
}

/// An OpenRC deployment in which every step succeeds creates
/// `<working_dir>`, copies the binary to `<exec_start>` and makes it
/// executable, stages the script under `/tmp`, copies it to
/// `/etc/init.d/<app_name>` and makes it executable, adds the service to the
/// default runlevel and reports the whole log, in that order.
#[verifier::rlimit(50)]
pub proof fn lemma_openrc_deployment_succeeds(c: ServiceModel, content: Seq<char>)
    ensures
        ({
            let d0 = new_deployment(InitSystem::OpenRC, c, content);
            let d1 = stepped(d0, DeployEvent::Begin);
            let d2 = stepped(d1, DeployEvent::Status(true));
            let d3 = stepped(d2, DeployEvent::Exists(true));
            let d4 = stepped(d3, DeployEvent::Status(true));
            let d5 = stepped(d4, DeployEvent::Status(true));
            let d6 = stepped(d5, DeployEvent::Written);
            let d7 = stepped(d6, DeployEvent::Status(true));
            let d8 = stepped(d7, DeployEvent::Status(true));
            let script = "/etc/init.d/"@ + c.app_name;
            &&& transition(d0, DeployEvent::Begin).action == ActionModel::Run(
                seq!["sudo"@, "mkdir"@, "-p"@, c.working_dir],
            )
            &&& transition(d1, DeployEvent::Status(true)).action == ActionModel::CheckExists(
                c.source_binary_path,
            )
            &&& transition(d2, DeployEvent::Exists(true)).action == ActionModel::Run(
                seq!["sudo"@, "cp"@, c.source_binary_path, c.exec_start],
            )
            &&& transition(d3, DeployEvent::Status(true)).action == ActionModel::Run(
                seq!["sudo"@, "chmod"@, "+x"@, c.exec_start],
            )
            &&& transition(d4, DeployEvent::Status(true)).action == ActionModel::WriteFile(
                "/tmp/"@ + c.app_name,
                content,
            )
            &&& transition(d5, DeployEvent::Written).action == ActionModel::Run(
                seq!["sudo"@, "cp"@, "/tmp/"@ + c.app_name, script],
            )
            &&& transition(d6, DeployEvent::Status(true)).action == ActionModel::Run(
                seq!["sudo"@, "chmod"@, "+x"@, script],
            )
            &&& transition(d7, DeployEvent::Status(true)).action == ActionModel::Run(
                seq!["sudo"@, "rc-update"@, "add"@, c.app_name, "default"@],
            )
            &&& transition(d8, DeployEvent::Status(true)).action == ActionModel::Finished(
                Ok(
                    "--> Creating directory: "@ + c.working_dir + "\n"@ + "--> Copying binary "@
                        + c.source_binary_path + " -> "@ + c.exec_start + "\n"@
                        + "--> Deploying OpenRC init script to "@ + "/etc/init.d/"@ + c.app_name
                        + "\n"@
                        + "--> Enabling service in default runlevel (sudo rc-update add "@
                        + c.app_name + " default)...\n"@
                        + "--> Service added to default runlevel successfully!\n"@
                        + "\nSUCCESS! OpenRC init script deployed.\nTo start service, run:\n  sudo rc-service "@
                        + c.app_name + " start\n  sudo rc-service "@ + c.app_name + " status\n"@,
                ),
            )
        }),
{
    let d0 = new_deployment(InitSystem::OpenRC, c, content);
    let d1 = stepped(d0, DeployEvent::Begin);
    let d2 = stepped(d1, DeployEvent::Status(true));
    let d3 = stepped(d2, DeployEvent::Exists(true));
    let d4 = stepped(d3, DeployEvent::Status(true));
    let d5 = stepped(d4, DeployEvent::Status(true));
    let d6 = stepped(d5, DeployEvent::Written);
    let d7 = stepped(d6, DeployEvent::Status(true));
    let d8 = stepped(d7, DeployEvent::Status(true));
    assert(d8.logs + transition(d8, DeployEvent::Status(true)).log =~= "--> Creating directory: "@
        + c.working_dir + "\n"@ + "--> Copying binary "@ + c.source_binary_path + " -> "@ + c.exec_start + "\n"@
        + "--> Deploying OpenRC init script to "@ + "/etc/init.d/"@ + c.app_name
        + "\n"@
        + "--> Enabling service in default runlevel (sudo rc-update add "@
        + c.app_name + " default)...\n"@
        + "--> Service added to default runlevel successfully!\n"@
        + "\nSUCCESS! OpenRC init script deployed.\nTo start service, run:\n  sudo rc-service "@
        + c.app_name + " start\n  sudo rc-service "@ + c.app_name + " status\n"@);
}

/// When the source binary is missing, a deployment skips copying it: it
/// logs a warning and goes straight on to staging the service file.
pub proof fn lemma_missing_binary_is_skipped(d: DeployModel)
    requires
        d.stage == DeployStage::CheckSource,
    ensures
        transition(d, DeployEvent::Exists(false)).stage == DeployStage::WriteScript,
        transition(d, DeployEvent::Exists(false)).action == ActionModel::WriteFile(
            "/tmp/"@ + d.file_name,
            d.content,
        ),
        transition(d, DeployEvent::Exists(false)).log == "--> Warning: Source binary file "@
            + d.source_path + " not found locally. Skipping binary copy.\n"@,
{
}

fn words3(a: &str, b: &str, c: &str) -> (v: Vec<String>)
    ensures
        words_view(v@) == seq![a@, b@, c@],
{
    let mut v: Vec<String> = Vec::new();
    v.push(owned(a));
    v.push(owned(b));
    v.push(owned(c));
    assert(words_view(v@) =~= seq![a@, b@, c@]);
    v
}

fn words4(a: &str, b: &str, c: &str, d: &str) -> (v: Vec<String>)
    ensures
        words_view(v@) == seq![a@, b@, c@, d@],
{
    let mut v: Vec<String> = Vec::new();
    v.push(owned(a));
    v.push(owned(b));
    v.push(owned(c));
    v.push(owned(d));
    assert(words_view(v@) =~= seq![a@, b@, c@, d@]);
    v
}

fn words5(a: &str, b: &str, c: &str, d: &str, e: &str) -> (v: Vec<String>)
    ensures
        words_view(v@) == seq![a@, b@, c@, d@, e@],
{
    let mut v: Vec<String> = Vec::new();
    v.push(owned(a));
    v.push(owned(b));
    v.push(owned(c));
    v.push(owned(d));
    v.push(owned(e));
    assert(words_view(v@) =~= seq![a@, b@, c@, d@, e@]);
    v
}

fn cat2(a: &str, b: &str) -> (s: String)
    ensures
        s@ == a@ + b@,
{
    let mut s = owned(a);
    push_str(&mut s, b);
    s
}

fn cat3(a: &str, b: &str, c: &str) -> (s: String)
    ensures
        s@ == a@ + b@ + c@,
{
    let mut s = cat2(a, b);
    push_str(&mut s, c);
    s
}

fn cat4(a: &str, b: &str, c: &str, d: &str) -> (s: String)
    ensures
        s@ == a@ + b@ + c@ + d@,
{
    let mut s = cat3(a, b, c);
    push_str(&mut s, d);
    s
}

fn cat5(a: &str, b: &str, c: &str, d: &str, e: &str) -> (s: String)
    ensures
        s@ == a@ + b@ + c@ + d@ + e@,
{
    let mut s = cat4(a, b, c, d);
    push_str(&mut s, e);
    s
}

impl Deployment {
    /// A deployment of `content` for the given service, not yet begun.
    pub fn new(init: InitSystem, config: &ServiceConfig, content: &str) -> (d: Deployment)
        ensures
            d@ == new_deployment(init, config@, content@),
    {
        Deployment {
            init,
            app_name: owned(config.app_name.as_str()),
            file_name: local_file_name(init, config),
            working_dir: owned(config.working_dir.as_str()),
            exec_start: owned(config.exec_start.as_str()),
            source_path: owned(config.source_binary_path.as_str()),
            content: owned(content),
            stage: DeployStage::Start,
            logs: String::new(),
        }
    }

    fn staging(&self) -> (p: String)
        ensures
            p@ == staging_path(self@),
    {
        cat2("/tmp/", self.file_name.as_str())
    }

    fn target(&self) -> (p: String)
        ensures
            p@ == target_path(self@),
    {
        match self.init {
            InitSystem::OpenRC => cat2("/etc/init.d/", self.file_name.as_str()),
            InitSystem::Systemd => cat2("/etc/systemd/system/", self.file_name.as_str()),
        }
    }

    fn register(&self) -> (v: Vec<String>)
        ensures
            words_view(v@) == register_command(self@),
    {
        match self.init {
            InitSystem::OpenRC => words5("sudo", "rc-update", "add", self.app_name.as_str(), "default"),
            InitSystem::Systemd => words3("sudo", "systemctl", "daemon-reload"),
        }
    }

    fn register_note(&self) -> (s: String)
        ensures
            s@ == register_log(self@),
    {
        match self.init {
            InitSystem::OpenRC => cat3(
                "--> Enabling service in default runlevel (sudo rc-update add ",
                self.app_name.as_str(),
                " default)...\n",
            ),
            InitSystem::Systemd => owned(
                "--> Reloading systemd manager configuration (sudo systemctl daemon-reload)...\n",
            ),
        }
    }

    fn finish_log(&self, ok: bool) -> (s: String)
        ensures
            s@ == registered_log(self@, ok) + success_log(self@),
    {
        let mut s = match self.init {
            InitSystem::OpenRC => if ok {
                owned("--> Service added to default runlevel successfully!\n")
            } else {
                owned("--> Note: Could not run 'rc-update add' automatically.\n")
            },
            InitSystem::Systemd => if ok {
                owned("--> systemd manager configuration reloaded.\n")
            } else {
                owned("--> Note: Could not run 'systemctl daemon-reload' automatically.\n")
            },
        };
        let tail = match self.init {
            InitSystem::OpenRC => cat5(
                "\nSUCCESS! OpenRC init script deployed.\nTo start service, run:\n  sudo rc-service ",
                self.app_name.as_str(),
                " start\n  sudo rc-service ",
                self.app_name.as_str(),
                " status\n",
            ),
            InitSystem::Systemd => cat5(
                "\nSUCCESS! Systemd unit deployed.\nTo start service, run:\n  sudo systemctl enable --now ",
                self.file_name.as_str(),
                "\n  sudo systemctl status ",
                self.file_name.as_str(),
                "\n",
            ),
        };
        push_str(&mut s, tail.as_str());
        s
    }

    fn fail(&mut self, msg: String) -> (a: DeployAction)
        ensures
            final(self)@ == (DeployModel { stage: DeployStage::Done, ..old(self)@ }),
            action_model(a) == ActionModel::Finished(Err(msg@)),
    {
        self.stage = DeployStage::Done;
        DeployAction::Finished(Err(msg))
    }

    /// Whether the deployment, at its present stage, takes this event.
    pub fn accepts(&self, event: &DeployEvent) -> (b: bool)
        ensures
            b == expects(self.stage, *event),
    {
        match self.stage {
            DeployStage::Start => matches!(event, DeployEvent::Begin),
            DeployStage::CheckSource => matches!(event, DeployEvent::Exists(_)),
            DeployStage::WriteScript => matches!(event, DeployEvent::Written | DeployEvent::Error(_)),
            DeployStage::Done => false,
            _ => matches!(event, DeployEvent::Status(_) | DeployEvent::Error(_)),
        }
    }

    /// Takes the outcome of the last action and gives the next one.
    pub fn advance(&mut self, event: DeployEvent) -> (a: DeployAction)
        requires
            expects(old(self).stage, event),
        ensures
            final(self)@ == stepped(old(self)@, event),
            action_model(a) == transition(old(self)@, event).action,
    {
        let ghost t = transition(self@, event);
        match self.stage {
            DeployStage::Start => {
                let line = cat3("--> Creating directory: ", self.working_dir.as_str(), "\n");
                push_str(&mut self.logs, line.as_str());
                self.stage = DeployStage::MakeDir;
                DeployAction::Run(words4("sudo", "mkdir", "-p", self.working_dir.as_str()))
            },
            DeployStage::MakeDir => match event {
                DeployEvent::Status(true) => {
                    assert(t.log =~= Seq::<char>::empty());
                    self.stage = DeployStage::CheckSource;
                    DeployAction::CheckExists(owned(self.source_path.as_str()))
                },
                DeployEvent::Status(false) => {
                    let msg = cat3("Failed to execute 'sudo mkdir -p ", self.working_dir.as_str(), "'");
                    assert(t.log =~= Seq::<char>::empty());
                    self.fail(msg)
                },
                DeployEvent::Error(msg) => {
                    assert(t.log =~= Seq::<char>::empty());
                    self.fail(msg)
                },
                _ => self.fail(String::new()),
            },
            DeployStage::CheckSource => match event {
                DeployEvent::Exists(true) => {
                    let line = cat5(
                        "--> Copying binary ",
                        self.source_path.as_str(),
                        " -> ",
                        self.exec_start.as_str(),
                        "\n",
                    );
                    push_str(&mut self.logs, line.as_str());
                    self.stage = DeployStage::CopyBinary;
                    DeployAction::Run(
                        words4("sudo", "cp", self.source_path.as_str(), self.exec_start.as_str()),
                    )
                },
                _ => {
                    let line = cat3(
                        "--> Warning: Source binary file ",
                        self.source_path.as_str(),
                        " not found locally. Skipping binary copy.\n",
                    );
                    push_str(&mut self.logs, line.as_str());
                    self.stage = DeployStage::WriteScript;
                    DeployAction::WriteFile {
                        path: self.staging(),
                        content: owned(self.content.as_str()),
                    }
                },
            },
            DeployStage::CopyBinary => match event {
                DeployEvent::Status(true) => {
                    assert(t.log =~= Seq::<char>::empty());
                    self.stage = DeployStage::ChmodBinary;
                    DeployAction::Run(words4("sudo", "chmod", "+x", self.exec_start.as_str()))
                },
                DeployEvent::Status(false) => {
                    let msg = cat2("Failed to copy binary to ", self.exec_start.as_str());
                    assert(t.log =~= Seq::<char>::empty());
                    self.fail(msg)
                },
                DeployEvent::Error(msg) => {
                    assert(t.log =~= Seq::<char>::empty());
                    self.fail(msg)
                },
                _ => self.fail(String::new()),
            },
            DeployStage::ChmodBinary => match event {
                DeployEvent::Status(true) => {
                    assert(t.log =~= Seq::<char>::empty());
                    self.stage = DeployStage::WriteScript;
                    DeployAction::WriteFile {
                        path: self.staging(),
                        content: owned(self.content.as_str()),
                    }
                },
                DeployEvent::Status(false) => {
                    let msg = cat2("Failed to set execute permissions on ", self.exec_start.as_str());
                    assert(t.log =~= Seq::<char>::empty());
                    self.fail(msg)
                },
                DeployEvent::Error(msg) => {
                    assert(t.log =~= Seq::<char>::empty());
                    self.fail(msg)
                },
                _ => self.fail(String::new()),
            },
            DeployStage::WriteScript => match event {
                DeployEvent::Written => {
                    let target = self.target();
                    let line = match self.init {
                        InitSystem::OpenRC => cat3(
                            "--> Deploying OpenRC init script to ",
                            target.as_str(),
                            "\n",
                        ),
                        InitSystem::Systemd => cat3(
                            "--> Deploying systemd unit file to ",
                            target.as_str(),
                            "\n",
                        ),
                    };
                    push_str(&mut self.logs, line.as_str());
                    self.stage = DeployStage::CopyScript;
                    let staging = self.staging();
                    DeployAction::Run(words4("sudo", "cp", staging.as_str(), target.as_str()))
                },
                DeployEvent::Error(msg) => {
                    assert(t.log =~= Seq::<char>::empty());
                    self.fail(msg)
                },
                _ => self.fail(String::new()),
            },
            DeployStage::CopyScript => match event {
                DeployEvent::Status(true) => match self.init {
                    InitSystem::OpenRC => {
                        assert(t.log =~= Seq::<char>::empty());
                        let target = self.target();
                        self.stage = DeployStage::ChmodScript;
                        DeployAction::Run(words4("sudo", "chmod", "+x", target.as_str()))
                    },
                    InitSystem::Systemd => {
                        let line = self.register_note();
                        let cmd = self.register();
                        push_str(&mut self.logs, line.as_str());
                        self.stage = DeployStage::Reload;
                        DeployAction::Run(cmd)
                    },
                },
                DeployEvent::Status(false) => {
                    let target = self.target();
                    let msg = match self.init {
                        InitSystem::OpenRC => cat2("Failed to copy init script to ", target.as_str()),
                        InitSystem::Systemd => cat2("Failed to copy unit file to ", target.as_str()),
                    };
                    assert(t.log =~= Seq::<char>::empty());
                    self.fail(msg)
                },
                DeployEvent::Error(msg) => {
                    assert(t.log =~= Seq::<char>::empty());
                    self.fail(msg)
                },
                _ => self.fail(String::new()),
            },
            DeployStage::ChmodScript => match event {
                DeployEvent::Status(true) => {
                    let line = self.register_note();
                    let cmd = self.register();
                    push_str(&mut self.logs, line.as_str());
                    self.stage = DeployStage::Reload;
                    DeployAction::Run(cmd)
                },
                DeployEvent::Status(false) => {
                    let target = self.target();
                    let msg = cat2("Failed to set executable permissions on ", target.as_str());
                    assert(t.log =~= Seq::<char>::empty());
                    self.fail(msg)
                },
                DeployEvent::Error(msg) => {
                    assert(t.log =~= Seq::<char>::empty());
                    self.fail(msg)
                },
                _ => self.fail(String::new()),
            },
            DeployStage::Reload => match event {
                DeployEvent::Status(ok) => {
                    let line = self.finish_log(ok);
                    push_str(&mut self.logs, line.as_str());
                    self.stage = DeployStage::Done;
                    DeployAction::Finished(Ok(owned(self.logs.as_str())))
                },
                DeployEvent::Error(msg) => {
                    assert(t.log =~= Seq::<char>::empty());
                    self.fail(msg)
                },
                _ => self.fail(String::new()),
            },
            DeployStage::Done => self.fail(String::new()),
        }
    }
}

} // verus!
