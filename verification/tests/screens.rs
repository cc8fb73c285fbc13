use systemdfilegenerator::app::{ActiveStep, ConfigField};
use systemdfilegenerator::device::InitSystem;
use systemdfilegenerator::screens::{
    action_labels, existence_label, field_label, footer_hint, init_badge, preview_title,
    step_tab_index,
};

#[test]
fn badge_marks_detected_or_manual() {
    assert_eq!(init_badge(InitSystem::Systemd, InitSystem::Systemd), "Systemd (Auto-detected)");
    assert_eq!(init_badge(InitSystem::OpenRC, InitSystem::Systemd), "OpenRC (Manual)");
}

#[test]
fn labels_and_titles() {
    assert_eq!(existence_label(true), " [FOUND ON DISK]");
    assert_eq!(existence_label(false), " [NOT FOUND / PENDING]");
    assert_eq!(field_label(ConfigField::RestartPolicy), "Restart Policy (always/on-failure/no)");
    assert_eq!(preview_title(InitSystem::OpenRC), " Generated OpenRC Init Script Content ");
    assert_eq!(action_labels(InitSystem::Systemd).1, "\n [2] Copy to /etc/systemd/system & Deploy ");
    assert_eq!(action_labels(InitSystem::OpenRC).0, "\n [1] Save Init Script Locally ");
    assert_eq!(footer_hint(ActiveStep::StatusModal), " [Enter / Esc] Close Log Modal ");
    assert_eq!(step_tab_index(ActiveStep::StatusModal), 2);
    assert_eq!(step_tab_index(ActiveStep::BinaryPicker), 0);
}
