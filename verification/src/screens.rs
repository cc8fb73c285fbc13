//! The text the screens choose by state: badges, labels, titles and hints.

use vstd::prelude::*;
use crate::app::{ActiveStep, ConfigField};
use crate::device::{init_system_name, InitSystem};
use crate::text::push_str;

verus! {

/// Which tab of the header is highlighted on a screen (the status log
/// belongs to the third step).
pub open spec fn step_tab(step: ActiveStep) -> int {
    match step {
        ActiveStep::BinaryPicker => 0,
        ActiveStep::ServiceConfig => 1,
        ActiveStep::PreviewDeploy | ActiveStep::StatusModal => 2,
    }
}

pub fn step_tab_index(step: ActiveStep) -> (i: usize)
    ensures
        i == step_tab(step),
{
    match step {
        ActiveStep::BinaryPicker => 0,
        ActiveStep::ServiceConfig => 1,
        ActiveStep::PreviewDeploy | ActiveStep::StatusModal => 2,
    }
}

/// The init-system badge: the target's name, marked as auto-detected when it
/// is the one the machine runs and as manual otherwise.
pub open spec fn init_badge_text(target: InitSystem, detected: InitSystem) -> Seq<char> {
    init_system_name(target) + if target == detected {
        " (Auto-detected)"@
    } else {
        " (Manual)"@
    }
}

pub fn init_badge(target: InitSystem, detected: InitSystem) -> (s: String)
    ensures
        s@ == init_badge_text(target, detected),
{
    let mut s = String::new();
    push_str(&mut s, target.as_str());
    if target == detected {
        push_str(&mut s, " (Auto-detected)");
    } else {
        push_str(&mut s, " (Manual)");
    }
    s
}

/// The marker shown after the source binary's path.
pub fn existence_label(found: bool) -> (s: &'static str)
    ensures
        s@ == if found {
            " [FOUND ON DISK]"@
        } else {
            " [NOT FOUND / PENDING]"@
        },
{
    if found {
        " [FOUND ON DISK]"
    } else {
        " [NOT FOUND / PENDING]"
    }
}

/// The label of a configuration field's box.
pub fn field_label(f: ConfigField) -> (s: &'static str)
    ensures
        s@ == match f {
            ConfigField::UnitName => "Service Unit Name"@,
            ConfigField::Description => "Description"@,
            ConfigField::ExecStart => "ExecStart Path"@,
            ConfigField::WorkingDirectory => "Working Directory"@,
            ConfigField::User => "System User"@,
            ConfigField::Group => "System Group"@,
            ConfigField::RestartPolicy => "Restart Policy (always/on-failure/no)"@,
            ConfigField::ExtraFlags => "Extra CLI Arguments"@,
            ConfigField::Environment => "Environment Variables (KEY=VAL)"@,
        },
{
    match f {
        ConfigField::UnitName => "Service Unit Name",
        ConfigField::Description => "Description",
        ConfigField::ExecStart => "ExecStart Path",
        ConfigField::WorkingDirectory => "Working Directory",
        ConfigField::User => "System User",
        ConfigField::Group => "System Group",
        ConfigField::RestartPolicy => "Restart Policy (always/on-failure/no)",
        ConfigField::ExtraFlags => "Extra CLI Arguments",
        ConfigField::Environment => "Environment Variables (KEY=VAL)",
    }
}

/// The title of the preview pane.
pub fn preview_title(init: InitSystem) -> (s: &'static str)
    ensures
        s@ == match init {
            InitSystem::Systemd => " Generated Systemd .service Unit Content "@,
            InitSystem::OpenRC => " Generated OpenRC Init Script Content "@,
        },
{
    match init {
        InitSystem::Systemd => " Generated Systemd .service Unit Content ",
        InitSystem::OpenRC => " Generated OpenRC Init Script Content ",
    }
}

/// The labels of the two preview actions: save locally, deploy.
pub fn action_labels(init: InitSystem) -> (labels: (&'static str, &'static str))
    ensures
        labels.0@ == match init {
            InitSystem::Systemd => "\n [1] Save Unit File Locally "@,
            InitSystem::OpenRC => "\n [1] Save Init Script Locally "@,
        },
        labels.1@ == match init {
            InitSystem::Systemd => "\n [2] Copy to /etc/systemd/system & Deploy "@,
            InitSystem::OpenRC => "\n [2] Copy to /etc/init.d & Enable "@,
        },
{
    match init {
        InitSystem::Systemd => (
            "\n [1] Save Unit File Locally ",
            "\n [2] Copy to /etc/systemd/system & Deploy ",
        ),
        InitSystem::OpenRC => ("\n [1] Save Init Script Locally ", "\n [2] Copy to /etc/init.d & Enable "),
    }
}

/// The key hints in the footer of a screen.
pub fn footer_hint(step: ActiveStep) -> (s: &'static str)
    ensures
        s@ == match step {
            ActiveStep::BinaryPicker => " [Enter] Next Step | [i] Toggle Systemd/OpenRC | [Esc] Quit "@,
            ActiveStep::ServiceConfig => " [Tab / Up/Down] Select Field | [Enter] Next Step | [i] Toggle Systemd/OpenRC | [Esc] Back "@,
            ActiveStep::PreviewDeploy => " [Tab / Up/Down] Select Action | [Enter] Execute | [i] Toggle Systemd/OpenRC | [Esc] Back "@,
            ActiveStep::StatusModal => " [Enter / Esc] Close Log Modal "@,
        },
{
    match step {
        ActiveStep::BinaryPicker => " [Enter] Next Step | [i] Toggle Systemd/OpenRC | [Esc] Quit ",
        ActiveStep::ServiceConfig => " [Tab / Up/Down] Select Field | [Enter] Next Step | [i] Toggle Systemd/OpenRC | [Esc] Back ",
        ActiveStep::PreviewDeploy => " [Tab / Up/Down] Select Action | [Enter] Execute | [i] Toggle Systemd/OpenRC | [Esc] Back ",
        ActiveStep::StatusModal => " [Enter / Esc] Close Log Modal ",
    }
}

} // verus!
