use vstd::prelude::*;
use crate::text::{chars_eq, chars_of, owned, trim_chars, trimmed};

verus! {

/// The init system that a service file is generated for.
#[derive(Debug, Clone, Copy, PartialEq, Eq, Structural)]
pub enum InitSystem {
    Systemd,
    OpenRC,
}

/// The display name of an init system.
pub open spec fn init_system_name(init: InitSystem) -> Seq<char> {
    match init {
        InitSystem::Systemd => "Systemd"@,
        InitSystem::OpenRC => "OpenRC"@,
    }
}

/// The other init system.
pub open spec fn toggled(init: InitSystem) -> InitSystem {
    match init {
        InitSystem::Systemd => InitSystem::OpenRC,
        InitSystem::OpenRC => InitSystem::Systemd,
    }
}

pub open spec fn opt_view(o: Option<&str>) -> Option<Seq<char>> {
    match o {
        Some(s) => Some(s@),
        None => None,
    }
}

/// The init system that the probes of a machine indicate.
pub open spec fn detected_init(systemd_run_dir: bool, openrc_marker: bool, pid1_name: Option<
    Seq<char>,
>) -> InitSystem {
    if systemd_run_dir {
        InitSystem::Systemd
    } else if openrc_marker {
        InitSystem::OpenRC
    } else {
        match pid1_name {
            Some(n) => {
                let t = trimmed(n);
                if t == "systemd"@ {
                    InitSystem::Systemd
                } else if t == "openrc-init"@ || t == "openrc"@ {
                    InitSystem::OpenRC
                } else {
                    InitSystem::Systemd
                }
            },
            None => InitSystem::Systemd,
        }
    }
}

impl InitSystem {
    pub fn as_str(&self) -> (s: &'static str)
        ensures
            s@ == init_system_name(*self),
    {
        match self {
            InitSystem::Systemd => "Systemd",
            InitSystem::OpenRC => "OpenRC",
        }
    }

    /// Decides the running init system from what the machine shows: a
    /// `/run/systemd/system` directory means systemd; otherwise an OpenRC
    /// marker (`/sbin/openrc` or `/run/openrc`) means OpenRC; otherwise the
    /// name of process 1, when readable, decides; systemd by default.
    pub fn from_probes(systemd_run_dir: bool, openrc_marker: bool, pid1_name: Option<&str>) -> (i:
        InitSystem)
        ensures
            i == detected_init(systemd_run_dir, openrc_marker, opt_view(pid1_name)),
    {
        if systemd_run_dir {
            return InitSystem::Systemd;
        }
        if openrc_marker {
            return InitSystem::OpenRC;
        }
        if let Some(comm) = pid1_name {
            let t = trim_chars(chars_of(comm).as_slice());
            if chars_eq(t.as_slice(), chars_of("systemd").as_slice()) {
                return InitSystem::Systemd;
            } else if chars_eq(t.as_slice(), chars_of("openrc-init").as_slice()) || chars_eq(
                t.as_slice(),
                chars_of("openrc").as_slice(),
            ) {
                return InitSystem::OpenRC;
            }
        }
        InitSystem::Systemd
    }

    pub fn toggle(&self) -> (t: InitSystem)
        ensures
            t == toggled(*self),
    {
        match self {
            InitSystem::Systemd => InitSystem::OpenRC,
            InitSystem::OpenRC => InitSystem::Systemd,
        }
    }
}

/// What is known of the machine that a service is generated for.
pub struct SystemInfo {
    pub hostname: String,
    pub os_name: String,
    pub os_version: String,
    pub kernel_version: String,
    pub cpu_arch: String,
    pub current_user: String,
    pub init_system: InitSystem,
}

/// The text fields of a `SystemInfo`, as character sequences.
pub struct SystemModel {
    pub hostname: Seq<char>,
    pub os_name: Seq<char>,
    pub os_version: Seq<char>,
    pub kernel_version: Seq<char>,
    pub cpu_arch: Seq<char>,
    pub current_user: Seq<char>,
    pub init_system: InitSystem,
}

impl View for SystemInfo {
    type V = SystemModel;

    open spec fn view(&self) -> SystemModel {
        SystemModel {
            hostname: self.hostname@,
            os_name: self.os_name@,
            os_version: self.os_version@,
            kernel_version: self.kernel_version@,
            cpu_arch: self.cpu_arch@,
            current_user: self.current_user@,
            init_system: self.init_system,
        }
    }
}

/// A value, or `fallback` when there is none.
pub open spec fn or_default(o: Option<String>, fallback: Seq<char>) -> Seq<char> {
    match o {
        Some(s) => s@,
        None => fallback,
    }
}

fn string_or(o: Option<String>, fallback: &str) -> (s: String)
    ensures
        s@ == or_default(o, fallback@),
{
    match o {
        Some(s) => s,
        None => owned(fallback),
    }
}

impl SystemInfo {
    /// Assembles what is known of the machine, with a stand-in for each part
    /// that could not be found out: `linux-node` for the host name, `Linux`
    /// for the OS, `Unknown` for versions, the architecture the program was
    /// built for when none is reported, and the `USER`, else the `LOGNAME`,
    /// else `root` for the user.
    pub fn from_probes(
        hostname: Option<String>,
        os_name: Option<String>,
        os_version: Option<String>,
        kernel_version: Option<String>,
        cpu_arch: String,
        build_arch: &str,
        user: Option<String>,
        logname: Option<String>,
        init_system: InitSystem,
    ) -> (info: SystemInfo)
        ensures
            info.hostname@ == or_default(hostname, "linux-node"@),
            info.os_name@ == or_default(os_name, "Linux"@),
            info.os_version@ == or_default(os_version, "Unknown"@),
            info.kernel_version@ == or_default(kernel_version, "Unknown"@),
            info.cpu_arch@ == (if cpu_arch@.len() == 0 {
                build_arch@
            } else {
                cpu_arch@
            }),
            info.current_user@ == (match user {
                Some(u) => u@,
                None => or_default(logname, "root"@),
            }),
            info.init_system == init_system,
    {
        let cpu_arch = if cpu_arch.as_str().is_empty() {
            owned(build_arch)
        } else {
            cpu_arch
        };
        let current_user = match user {
            Some(u) => u,
            None => string_or(logname, "root"),
        };
        SystemInfo {
            hostname: string_or(hostname, "linux-node"),
            os_name: string_or(os_name, "Linux"),
            os_version: string_or(os_version, "Unknown"),
            kernel_version: string_or(kernel_version, "Unknown"),
            cpu_arch,
            current_user,
            init_system,
        }
    }
}

/// The probes decide in order of trust: a systemd run directory means
/// systemd whatever else is seen; otherwise an OpenRC marker means OpenRC;
/// otherwise process 1 named `openrc` or `openrc-init` (surrounding
/// whitespace aside) means OpenRC, and any other name, or none, systemd.
pub proof fn lemma_detection_order(marker: bool, pid1: Option<Seq<char>>, name: Seq<char>)
    ensures
        detected_init(true, marker, pid1) == InitSystem::Systemd,
        detected_init(false, true, pid1) == InitSystem::OpenRC,
        detected_init(false, false, None) == InitSystem::Systemd,
        detected_init(false, false, Some(name)) == InitSystem::OpenRC <==> (trimmed(name)
            == "openrc"@ || trimmed(name) == "openrc-init"@),
{
    reveal_strlit("systemd");
    reveal_strlit("openrc");
    reveal_strlit("openrc-init");
    if trimmed(name) == "systemd"@ {
        assert("systemd"@ != "openrc"@) by {
            assert("systemd"@[0] != "openrc"@[0]);
        }
        assert("systemd"@.len() != "openrc-init"@.len());
    }
}

/// Toggling twice gives back the init system one started with, and a toggle
/// always changes it.
pub proof fn lemma_toggle_involution(init: InitSystem)
    ensures
        toggled(toggled(init)) == init,
        toggled(init) != init,
{
}

} // verus!
