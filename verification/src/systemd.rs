//! systemd unit files.

use vstd::prelude::*;
use crate::device::{SystemInfo, SystemModel};
use crate::generator::{effective_group, env_lines, push_env_lines, ServiceConfig, ServiceModel};
use crate::openrc::banner_rule;
use crate::text::{chars_of, has_infix, push_chars, push_str, trim_chars, trimmed};

verus! {

/// The comment block at the top of a unit file.
pub open spec fn systemd_header(c: ServiceModel, s: SystemModel) -> Seq<char> {
    banner_rule() + "# Auto-generated Systemd Unit File for "@ + c.app_name + "\n"@
        + "# Target System: "@ + s.hostname + " ("@ + s.os_name + "/"@ + s.cpu_arch + ")\n"@
        + "# Target Path: "@ + c.exec_start + "\n"@ + banner_rule() + "\n"@
}

/// The command line of the service: the binary, then the extra flags if any.
pub open spec fn systemd_exec(c: ServiceModel) -> Seq<char> {
    let flags = trimmed(c.extra_flags);
    if flags.len() > 0 {
        c.exec_start + " "@ + flags
    } else {
        c.exec_start
    }
}

/// The unit file of a service on a machine.
pub open spec fn systemd_unit(c: ServiceModel, s: SystemModel) -> Seq<char> {
    systemd_header(c, s) + "[Unit]\n"@ + "Description="@ + c.description + "\n"@
        + "After=network.target\n\n"@ + "[Service]\n"@ + "Type=simple\n"@ + "User="@ + c.user
        + "\n"@ + "Group="@ + effective_group(c) + "\n"@ + "WorkingDirectory="@ + c.working_dir
        + "\n"@ + "ExecStart="@ + systemd_exec(c) + "\n"@ + "Restart="@ + c.restart_policy
        + "\n"@ + "RestartSec=5\n"@ + env_lines(c.environment, "Environment=\""@, "\"\n"@)
        + "\n[Install]\n"@ + "WantedBy=multi-user.target\n"@
}

/// The unit starts the configured command, followed by the extra flags
/// (trimmed) when there are any.
#[verifier::rlimit(50)]
pub proof fn lemma_systemd_runs_configured_command(c: ServiceModel, s: SystemModel)
    ensures
        has_infix(
            systemd_unit(c, s),
            "ExecStart="@ + c.exec_start + (if trimmed(c.extra_flags).len() > 0 {
                " "@ + trimmed(c.extra_flags)
            } else {
                Seq::<char>::empty()
            }) + "\n"@,
        ),
{
    let pre = systemd_header(c, s) + "[Unit]\n"@ + "Description="@ + c.description + "\n"@
        + "After=network.target\n\n"@ + "[Service]\n"@ + "Type=simple\n"@ + "User="@ + c.user
        + "\n"@ + "Group="@ + effective_group(c) + "\n"@ + "WorkingDirectory="@ + c.working_dir
        + "\n"@;
    let line = "ExecStart="@ + systemd_exec(c) + "\n"@;
    let post = "Restart="@ + c.restart_policy + "\n"@ + "RestartSec=5\n"@
        + env_lines(c.environment, "Environment=\""@, "\"\n"@) + "\n[Install]\n"@
        + "WantedBy=multi-user.target\n"@;
    assert(line =~= "ExecStart="@ + c.exec_start + (if trimmed(c.extra_flags).len() > 0 {
        " "@ + trimmed(c.extra_flags)
    } else {
        Seq::<char>::empty()
    }) + "\n"@);
    assert(systemd_unit(c, s) =~= pre + line + post);
    let i = pre.len() as int;
    assert((pre + line + post).subrange(i, i + line.len()) =~= line);
}

/// The unit runs the service in the configured working directory.
#[verifier::rlimit(50)]
pub proof fn lemma_systemd_runs_in_working_dir(c: ServiceModel, s: SystemModel)
    ensures
        has_infix(systemd_unit(c, s), "WorkingDirectory="@ + c.working_dir + "\n"@),
{
    let pre = systemd_header(c, s) + "[Unit]\n"@ + "Description="@ + c.description + "\n"@
        + "After=network.target\n\n"@ + "[Service]\n"@ + "Type=simple\n"@ + "User="@ + c.user
        + "\n"@ + "Group="@ + effective_group(c) + "\n"@;
    let line = "WorkingDirectory="@ + c.working_dir + "\n"@;
    let post = "ExecStart="@ + systemd_exec(c) + "\n"@ + "Restart="@ + c.restart_policy + "\n"@
        + "RestartSec=5\n"@ + env_lines(c.environment, "Environment=\""@, "\"\n"@)
        + "\n[Install]\n"@ + "WantedBy=multi-user.target\n"@;
    assert(systemd_unit(c, s) =~= pre + line + post);
    let i = pre.len() as int;
    assert((pre + line + post).subrange(i, i + line.len()) =~= line);
}

/// The unit runs the service as the configured user.
#[verifier::rlimit(50)]
pub proof fn lemma_systemd_runs_as_user(c: ServiceModel, s: SystemModel)
    ensures
        has_infix(systemd_unit(c, s), "User="@ + c.user + "\n"@),
{
    let pre = systemd_header(c, s) + "[Unit]\n"@ + "Description="@ + c.description + "\n"@
        + "After=network.target\n\n"@ + "[Service]\n"@ + "Type=simple\n"@;
    let line = "User="@ + c.user + "\n"@;
    let post = "Group="@ + effective_group(c) + "\n"@ + "WorkingDirectory="@ + c.working_dir
        + "\n"@ + "ExecStart="@ + systemd_exec(c) + "\n"@ + "Restart="@ + c.restart_policy
        + "\n"@ + "RestartSec=5\n"@ + env_lines(c.environment, "Environment=\""@, "\"\n"@)
        + "\n[Install]\n"@ + "WantedBy=multi-user.target\n"@;
    assert(systemd_unit(c, s) =~= pre + line + post);
    let i = pre.len() as int;
    assert((pre + line + post).subrange(i, i + line.len()) =~= line);
}

/// The unit runs the service in the configured group or, when none is
/// configured, in the user's own group.
#[verifier::rlimit(50)]
pub proof fn lemma_systemd_runs_in_group(c: ServiceModel, s: SystemModel)
    ensures
        has_infix(systemd_unit(c, s), "Group="@
            + (if c.group.len() == 0 { c.user } else { c.group }) + "\n"@),
{
    let pre = systemd_header(c, s) + "[Unit]\n"@ + "Description="@ + c.description + "\n"@
        + "After=network.target\n\n"@ + "[Service]\n"@ + "Type=simple\n"@ + "User="@ + c.user
        + "\n"@;
    let line = "Group="@ + effective_group(c) + "\n"@;
    let post = "WorkingDirectory="@ + c.working_dir + "\n"@ + "ExecStart="@ + systemd_exec(c)
        + "\n"@ + "Restart="@ + c.restart_policy + "\n"@ + "RestartSec=5\n"@
        + env_lines(c.environment, "Environment=\""@, "\"\n"@) + "\n[Install]\n"@
        + "WantedBy=multi-user.target\n"@;
    assert(line =~= "Group="@ + (if c.group.len() == 0 { c.user } else { c.group }) + "\n"@);
    assert(systemd_unit(c, s) =~= pre + line + post);
    let i = pre.len() as int;
    assert((pre + line + post).subrange(i, i + line.len()) =~= line);
}

/// The unit restarts the service by the configured policy.
#[verifier::rlimit(50)]
pub proof fn lemma_systemd_restart_policy(c: ServiceModel, s: SystemModel)
    ensures
        has_infix(systemd_unit(c, s), "Restart="@ + c.restart_policy + "\n"@),
{
    let pre = systemd_header(c, s) + "[Unit]\n"@ + "Description="@ + c.description + "\n"@
        + "After=network.target\n\n"@ + "[Service]\n"@ + "Type=simple\n"@ + "User="@ + c.user
        + "\n"@ + "Group="@ + effective_group(c) + "\n"@ + "WorkingDirectory="@ + c.working_dir
        + "\n"@ + "ExecStart="@ + systemd_exec(c) + "\n"@;
    let line = "Restart="@ + c.restart_policy + "\n"@;
    let post = "RestartSec=5\n"@ + env_lines(c.environment, "Environment=\""@, "\"\n"@)
        + "\n[Install]\n"@ + "WantedBy=multi-user.target\n"@;
    assert(systemd_unit(c, s) =~= pre + line + post);
    let i = pre.len() as int;
    assert((pre + line + post).subrange(i, i + line.len()) =~= line);
}

/// The unit carries the configured description.
#[verifier::rlimit(50)]
pub proof fn lemma_systemd_describes_service(c: ServiceModel, s: SystemModel)
    ensures
        has_infix(systemd_unit(c, s), "Description="@ + c.description + "\n"@),
{
    let pre = systemd_header(c, s) + "[Unit]\n"@;
    let line = "Description="@ + c.description + "\n"@;
    let post = "After=network.target\n\n"@ + "[Service]\n"@ + "Type=simple\n"@ + "User="@
        + c.user + "\n"@ + "Group="@ + effective_group(c) + "\n"@ + "WorkingDirectory="@
        + c.working_dir + "\n"@ + "ExecStart="@ + systemd_exec(c) + "\n"@ + "Restart="@
        + c.restart_policy + "\n"@ + "RestartSec=5\n"@
        + env_lines(c.environment, "Environment=\""@, "\"\n"@) + "\n[Install]\n"@
        + "WantedBy=multi-user.target\n"@;
    assert(systemd_unit(c, s) =~= pre + line + post);
    let i = pre.len() as int;
    assert((pre + line + post).subrange(i, i + line.len()) =~= line);
}

/// The unit sets each non-blank line of the configured environment as an
/// `Environment="<line>"` entry.
#[verifier::rlimit(50)]
pub proof fn lemma_systemd_sets_environment(c: ServiceModel, s: SystemModel)
    ensures
        has_infix(systemd_unit(c, s), env_lines(c.environment, "Environment=\""@, "\"\n"@)),
{
    let pre = systemd_header(c, s) + "[Unit]\n"@ + "Description="@ + c.description + "\n"@
        + "After=network.target\n\n"@ + "[Service]\n"@ + "Type=simple\n"@ + "User="@ + c.user
        + "\n"@ + "Group="@ + effective_group(c) + "\n"@ + "WorkingDirectory="@ + c.working_dir
        + "\n"@ + "ExecStart="@ + systemd_exec(c) + "\n"@ + "Restart="@ + c.restart_policy
        + "\n"@ + "RestartSec=5\n"@;
    let line = env_lines(c.environment, "Environment=\""@, "\"\n"@);
    let post = "\n[Install]\n"@ + "WantedBy=multi-user.target\n"@;
    assert(systemd_unit(c, s) =~= pre + line + post);
    let i = pre.len() as int;
    assert((pre + line + post).subrange(i, i + line.len()) =~= line);
}

/// Renders the systemd unit file of a service.
pub fn render_systemd_unit(config: &ServiceConfig, sys: &SystemInfo) -> (out: String)
    ensures
        out@ == systemd_unit(config@, sys@),
{
    let c = config;
    let mut out = String::new();
    push_str(&mut out, "# ========================================================\n");
    push_str(&mut out, "# Auto-generated Systemd Unit File for ");
    push_str(&mut out, c.app_name.as_str());
    push_str(&mut out, "\n");
    push_str(&mut out, "# Target System: ");
    push_str(&mut out, sys.hostname.as_str());
    push_str(&mut out, " (");
    push_str(&mut out, sys.os_name.as_str());
    push_str(&mut out, "/");
    push_str(&mut out, sys.cpu_arch.as_str());
    push_str(&mut out, ")\n");
    push_str(&mut out, "# Target Path: ");
    push_str(&mut out, c.exec_start.as_str());
    push_str(&mut out, "\n");
    push_str(&mut out, "# ========================================================\n");
    push_str(&mut out, "\n");
    assert(out@ == systemd_header(config@, sys@));
    push_str(&mut out, "[Unit]\n");
    push_str(&mut out, "Description=");
    push_str(&mut out, c.description.as_str());
    push_str(&mut out, "\n");
    push_str(&mut out, "After=network.target\n\n");
    push_str(&mut out, "[Service]\n");
    push_str(&mut out, "Type=simple\n");
    push_str(&mut out, "User=");
    push_str(&mut out, c.user.as_str());
    push_str(&mut out, "\n");
    push_str(&mut out, "Group=");
    if c.group.as_str().is_empty() {
        push_str(&mut out, c.user.as_str());
    } else {
        push_str(&mut out, c.group.as_str());
    }
    push_str(&mut out, "\n");
    push_str(&mut out, "WorkingDirectory=");
    push_str(&mut out, c.working_dir.as_str());
    push_str(&mut out, "\n");
    push_str(&mut out, "ExecStart=");
    let ghost before_exec = out@;
    push_str(&mut out, c.exec_start.as_str());
    let flags = trim_chars(chars_of(c.extra_flags.as_str()).as_slice());
    if flags.len() > 0 {
        push_str(&mut out, " ");
        push_chars(&mut out, flags.as_slice());
    }
    assert(out@ == before_exec + systemd_exec(config@));
    push_str(&mut out, "\n");
    push_str(&mut out, "Restart=");
    push_str(&mut out, c.restart_policy.as_str());
    push_str(&mut out, "\n");
    push_str(&mut out, "RestartSec=5\n");
    push_env_lines(&mut out, c.environment.as_str(), "Environment=\"", "\"\n");
    push_str(&mut out, "\n[Install]\n");
    push_str(&mut out, "WantedBy=multi-user.target\n");
    out
}

} // verus!
