//! OpenRC init scripts.

use vstd::prelude::*;
use crate::device::{SystemInfo, SystemModel};
use crate::generator::{
    effective_group, env_lines, has_content, push_env_lines, ServiceConfig, ServiceModel,
};
use crate::text::{chars_of, has_infix, push_chars, push_str, trim_chars, trimmed};

verus! {

/// The ruled line that frames the comment block at the top of a generated file.
pub open spec fn banner_rule() -> Seq<char> {
    "# ========================================================\n"@
}

/// The comment block at the top of an OpenRC init script.
pub open spec fn openrc_header(c: ServiceModel, s: SystemModel) -> Seq<char> {
    "#!/sbin/openrc-run\n"@ + banner_rule() + "# Auto-generated OpenRC Init Script for "@
        + c.app_name + "\n"@ + "# Target System: "@ + s.hostname + " ("@ + s.os_name + "/"@
        + s.cpu_arch + ")\n"@ + "# Target Path: "@ + c.exec_start + "\n"@ + banner_rule() + "\n"@
}

/// The `command_args` line, present when there are extra flags.
pub open spec fn openrc_args(c: ServiceModel) -> Seq<char> {
    let flags = trimmed(c.extra_flags);
    if flags.len() > 0 {
        "command_args=\""@ + flags + "\"\n"@
    } else {
        Seq::empty()
    }
}

/// The exported environment, present when the environment is not blank.
pub open spec fn openrc_env(c: ServiceModel) -> Seq<char> {
    if trimmed(c.environment).len() > 0 {
        "\n# Environment Variables\n"@ + env_lines(c.environment, "export "@, "\n"@)
    } else {
        Seq::empty()
    }
}

/// The OpenRC init script for a service on a machine.
pub open spec fn openrc_script(c: ServiceModel, s: SystemModel) -> Seq<char> {
    openrc_header(c, s) + "name=\""@ + c.app_name + "\"\n"@ + "description=\""@ + c.description
        + "\"\n\n"@ + "command=\""@ + c.exec_start + "\"\n"@ + openrc_args(c)
        + "command_background=\"true\"\n"@ + "pidfile=\"/run/${RC_SVCNAME}.pid\"\n"@
        + "directory=\""@ + c.working_dir + "\"\n"@ + "command_user=\""@ + c.user + ":"@
        + effective_group(c) + "\"\n"@ + openrc_env(c) + "\ndepend() {\n"@ + "    need net\n"@
        + "    use dns logger\n"@ + "}\n"@
}

/// The script runs exactly the configured command: it holds the line
/// `command="<exec_start>"` for every configuration and machine.
#[verifier::rlimit(50)]
pub proof fn lemma_openrc_runs_configured_command(c: ServiceModel, s: SystemModel)
    ensures
        has_infix(openrc_script(c, s), "command=\""@ + c.exec_start + "\"\n"@),
{
    let line = "command=\""@ + c.exec_start + "\"\n"@;
    let pre = openrc_header(c, s) + "name=\""@ + c.app_name + "\"\n"@ + "description=\""@
        + c.description + "\"\n\n"@;
    let q = pre + "command=\""@ + c.exec_start + "\"\n"@;
    let rest = openrc_args(c) + "command_background=\"true\"\n"@
        + "pidfile=\"/run/${RC_SVCNAME}.pid\"\n"@ + "directory=\""@ + c.working_dir + "\"\n"@
        + "command_user=\""@ + c.user + ":"@ + effective_group(c) + "\"\n"@ + openrc_env(c)
        + "\ndepend() {\n"@ + "    need net\n"@ + "    use dns logger\n"@ + "}\n"@;
    assert(openrc_script(c, s) =~= q + rest);
    assert(q.subrange(pre.len() as int, q.len() as int) =~= line);
    let i = pre.len() as int;
    assert((q + rest).subrange(i, i + line.len()) =~= line);
}

/// The script names the service after the application.
#[verifier::rlimit(50)]
pub proof fn lemma_openrc_names_service(c: ServiceModel, s: SystemModel)
    ensures
        has_infix(openrc_script(c, s), "name=\""@ + c.app_name + "\"\n"@),
{
    reveal_strlit("\"\n\n");
    reveal_strlit("\"\n");
    reveal_strlit("\n");
    assert("\"\n\n"@ =~= "\"\n"@ + "\n"@);
    let pre = openrc_header(c, s);
    let line = "name=\""@ + c.app_name + "\"\n"@;
    let post = "description=\""@ + c.description + "\"\n"@ + "\n"@ + "command=\""@
        + c.exec_start + "\"\n"@ + openrc_args(c) + "command_background=\"true\"\n"@
        + "pidfile=\"/run/${RC_SVCNAME}.pid\"\n"@ + "directory=\""@ + c.working_dir + "\"\n"@
        + "command_user=\""@ + c.user + ":"@ + effective_group(c) + "\"\n"@ + openrc_env(c)
        + "\ndepend() {\n"@ + "    need net\n"@ + "    use dns logger\n"@ + "}\n"@;
    assert(openrc_script(c, s) =~= pre + line + post);
    let i = pre.len() as int;
    assert((pre + line + post).subrange(i, i + line.len()) =~= line);
}

/// The script carries the configured description.
#[verifier::rlimit(50)]
pub proof fn lemma_openrc_describes_service(c: ServiceModel, s: SystemModel)
    ensures
        has_infix(openrc_script(c, s), "description=\""@ + c.description + "\"\n"@),
{
    reveal_strlit("\"\n\n");
    reveal_strlit("\"\n");
    reveal_strlit("\n");
    assert("\"\n\n"@ =~= "\"\n"@ + "\n"@);
    let pre = openrc_header(c, s) + "name=\""@ + c.app_name + "\"\n"@;
    let line = "description=\""@ + c.description + "\"\n"@;
    let post = "\n"@ + "command=\""@ + c.exec_start + "\"\n"@ + openrc_args(c)
        + "command_background=\"true\"\n"@ + "pidfile=\"/run/${RC_SVCNAME}.pid\"\n"@
        + "directory=\""@ + c.working_dir + "\"\n"@ + "command_user=\""@ + c.user + ":"@
        + effective_group(c) + "\"\n"@ + openrc_env(c) + "\ndepend() {\n"@ + "    need net\n"@
        + "    use dns logger\n"@ + "}\n"@;
    assert(openrc_script(c, s) =~= pre + line + post);
    let i = pre.len() as int;
    assert((pre + line + post).subrange(i, i + line.len()) =~= line);
}

/// The script runs the service in the configured working directory.
#[verifier::rlimit(50)]
pub proof fn lemma_openrc_runs_in_working_dir(c: ServiceModel, s: SystemModel)
    ensures
        has_infix(openrc_script(c, s), "directory=\""@ + c.working_dir + "\"\n"@),
{
    reveal_strlit("\"\n\n");
    reveal_strlit("\"\n");
    reveal_strlit("\n");
    assert("\"\n\n"@ =~= "\"\n"@ + "\n"@);
    let pre = openrc_header(c, s) + "name=\""@ + c.app_name + "\"\n"@ + "description=\""@
        + c.description + "\"\n"@ + "\n"@ + "command=\""@ + c.exec_start + "\"\n"@
        + openrc_args(c) + "command_background=\"true\"\n"@
        + "pidfile=\"/run/${RC_SVCNAME}.pid\"\n"@;
    let line = "directory=\""@ + c.working_dir + "\"\n"@;
    let post = "command_user=\""@ + c.user + ":"@ + effective_group(c) + "\"\n"@ + openrc_env(c)
        + "\ndepend() {\n"@ + "    need net\n"@ + "    use dns logger\n"@ + "}\n"@;
    assert(openrc_script(c, s) =~= pre + line + post);
    let i = pre.len() as int;
    assert((pre + line + post).subrange(i, i + line.len()) =~= line);
}

/// The script runs the service as the configured user, in the configured
/// group or, when none is configured, in the user's own group.
#[verifier::rlimit(50)]
pub proof fn lemma_openrc_runs_as_user_and_group(c: ServiceModel, s: SystemModel)
    ensures
        has_infix(openrc_script(c, s), "command_user=\""@ + c.user + ":"@
            + (if c.group.len() == 0 { c.user } else { c.group }) + "\"\n"@),
{
    reveal_strlit("\"\n\n");
    reveal_strlit("\"\n");
    reveal_strlit("\n");
    assert("\"\n\n"@ =~= "\"\n"@ + "\n"@);
    let pre = openrc_header(c, s) + "name=\""@ + c.app_name + "\"\n"@ + "description=\""@
        + c.description + "\"\n"@ + "\n"@ + "command=\""@ + c.exec_start + "\"\n"@
        + openrc_args(c) + "command_background=\"true\"\n"@
        + "pidfile=\"/run/${RC_SVCNAME}.pid\"\n"@ + "directory=\""@ + c.working_dir + "\"\n"@;
    let line = "command_user=\""@ + c.user + ":"@ + effective_group(c) + "\"\n"@;
    let post = openrc_env(c) + "\ndepend() {\n"@ + "    need net\n"@ + "    use dns logger\n"@
        + "}\n"@;
    assert(line =~= "command_user=\""@ + c.user + ":"@
        + (if c.group.len() == 0 { c.user } else { c.group }) + "\"\n"@);
    assert(openrc_script(c, s) =~= pre + line + post);
    let i = pre.len() as int;
    assert((pre + line + post).subrange(i, i + line.len()) =~= line);
}

/// When the environment is not blank, the script exports each of its
/// non-blank lines as `export <line>`.
#[verifier::rlimit(50)]
pub proof fn lemma_openrc_exports_environment(c: ServiceModel, s: SystemModel)
    requires
        trimmed(c.environment).len() > 0,
    ensures
        has_infix(openrc_script(c, s), env_lines(c.environment, "export "@, "\n"@)),
{
    let pre = openrc_header(c, s) + "name=\""@ + c.app_name + "\"\n"@ + "description=\""@
        + c.description + "\"\n\n"@ + "command=\""@ + c.exec_start + "\"\n"@ + openrc_args(c)
        + "command_background=\"true\"\n"@ + "pidfile=\"/run/${RC_SVCNAME}.pid\"\n"@
        + "directory=\""@ + c.working_dir + "\"\n"@ + "command_user=\""@ + c.user + ":"@
        + effective_group(c) + "\"\n"@ + "\n# Environment Variables\n"@;
    let line = env_lines(c.environment, "export "@, "\n"@);
    let post = "\ndepend() {\n"@ + "    need net\n"@ + "    use dns logger\n"@ + "}\n"@;
    assert(openrc_script(c, s) =~= pre + line + post);
    let i = pre.len() as int;
    assert((pre + line + post).subrange(i, i + line.len()) =~= line);
}

/// When there are extra flags, the script passes them, trimmed, as
/// `command_args`.
#[verifier::rlimit(50)]
pub proof fn lemma_openrc_passes_flags(c: ServiceModel, s: SystemModel)
    requires
        trimmed(c.extra_flags).len() > 0,
    ensures
        has_infix(openrc_script(c, s), "command_args=\""@ + trimmed(c.extra_flags) + "\"\n"@),
{
    let pre = openrc_header(c, s) + "name=\""@ + c.app_name + "\"\n"@ + "description=\""@
        + c.description + "\"\n\n"@ + "command=\""@ + c.exec_start + "\"\n"@;
    let line = "command_args=\""@ + trimmed(c.extra_flags) + "\"\n"@;
    assert(openrc_args(c) == line);
    let post = "command_background=\"true\"\n"@ + "pidfile=\"/run/${RC_SVCNAME}.pid\"\n"@
        + "directory=\""@ + c.working_dir + "\"\n"@ + "command_user=\""@ + c.user + ":"@
        + effective_group(c) + "\"\n"@ + openrc_env(c) + "\ndepend() {\n"@ + "    need net\n"@
        + "    use dns logger\n"@ + "}\n"@;
    assert(openrc_script(c, s) =~= pre + line + post);
    let i = pre.len() as int;
    assert((pre + line + post).subrange(i, i + line.len()) =~= line);
}

/// Renders the OpenRC init script of a service.
pub fn render_openrc_file(config: &ServiceConfig, sys: &SystemInfo) -> (out: String)
    ensures
        out@ == openrc_script(config@, sys@),
{
    let c = config;
    let mut out = String::new();
    push_str(&mut out, "#!/sbin/openrc-run\n");
    push_str(&mut out, "# ========================================================\n");
    push_str(&mut out, "# Auto-generated OpenRC Init Script for ");
    push_str(&mut out, c.app_name.as_str());
    push_str(&mut out, "\n");
    push_str(&mut out, "# Target System: ");
    push_str(&mut out, sys.hostname.as_str());
    push_str(&mut out, " (");
    push_str(&mut out, sys.os_name.as_str());
    push_str(&mut out, "/");
    push_str(&mut out, sys.cpu_arch.as_str());
    push_str(&mut out, ")\n");
    push_str(&mut out, "# Target Path: ");
    push_str(&mut out, c.exec_start.as_str());
    push_str(&mut out, "\n");
    push_str(&mut out, "# ========================================================\n");
    push_str(&mut out, "\n");
    assert(out@ == openrc_header(config@, sys@));
    push_str(&mut out, "name=\"");
    push_str(&mut out, c.app_name.as_str());
    push_str(&mut out, "\"\n");
    push_str(&mut out, "description=\"");
    push_str(&mut out, c.description.as_str());
    push_str(&mut out, "\"\n\n");
    push_str(&mut out, "command=\"");
    push_str(&mut out, c.exec_start.as_str());
    push_str(&mut out, "\"\n");
    let ghost before_args = out@;
    let flags = trim_chars(chars_of(c.extra_flags.as_str()).as_slice());
    if flags.len() > 0 {
        push_str(&mut out, "command_args=\"");
        push_chars(&mut out, flags.as_slice());
        push_str(&mut out, "\"\n");
    }
    assert(out@ == before_args + openrc_args(config@));
    push_str(&mut out, "command_background=\"true\"\n");
    push_str(&mut out, "pidfile=\"/run/${RC_SVCNAME}.pid\"\n");
    push_str(&mut out, "directory=\"");
    push_str(&mut out, c.working_dir.as_str());
    push_str(&mut out, "\"\n");
    push_str(&mut out, "command_user=\"");
    push_str(&mut out, c.user.as_str());
    push_str(&mut out, ":");
    if c.group.as_str().is_empty() {
        push_str(&mut out, c.user.as_str());
    } else {
        push_str(&mut out, c.group.as_str());
    }
    push_str(&mut out, "\"\n");
    let ghost before_env = out@;
    if has_content(c.environment.as_str()) {
        push_str(&mut out, "\n# Environment Variables\n");
        push_env_lines(&mut out, c.environment.as_str(), "export ", "\n");
    }
    assert(out@ == before_env + openrc_env(config@));
    push_str(&mut out, "\ndepend() {\n");
    push_str(&mut out, "    need net\n");
    push_str(&mut out, "    use dns logger\n");
    push_str(&mut out, "}\n");
    out
}

} // verus!
