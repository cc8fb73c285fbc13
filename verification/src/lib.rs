//! Verified core of a service-file generator: path derivation for a
//! binary, service configuration, init-script rendering and the wizard
//! state machine that drives them.

pub mod device;
pub mod text;
pub mod picker;
pub mod generator;
pub mod openrc;
pub mod systemd;
pub mod deploy;
pub mod app;
pub mod screens;
