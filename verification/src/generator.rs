//! The service configuration that the wizard edits, and what is common to
//! the files generated from it.

use vstd::prelude::*;
use crate::device::{InitSystem, SystemInfo, SystemModel};
use crate::openrc::{openrc_script, render_openrc_file};
use crate::systemd::{render_systemd_unit, systemd_unit};
use crate::text::{
    chars_of, ends_with, lemma_split_join, lemma_split_single, push_chars, push_str, split_chars,
    split_on, string_of, trim_chars, trimmed,
};

verus! {

/// The settings of a service that is to be installed under `/opt`.
pub struct ServiceConfig {
    pub app_name: String,
    pub binary_name: String,
    pub source_binary_path: String,
    pub unit_name: String,
    pub description: String,
    pub exec_start: String,
    pub working_dir: String,
    pub user: String,
    pub group: String,
    pub restart_policy: String,
    pub extra_flags: String,
    pub environment: String,
}

/// The fields of a `ServiceConfig`, as character sequences.
pub struct ServiceModel {
    pub app_name: Seq<char>,
    pub binary_name: Seq<char>,
    pub source_binary_path: Seq<char>,
    pub unit_name: Seq<char>,
    pub description: Seq<char>,
    pub exec_start: Seq<char>,
    pub working_dir: Seq<char>,
    pub user: Seq<char>,
    pub group: Seq<char>,
    pub restart_policy: Seq<char>,
    pub extra_flags: Seq<char>,
    pub environment: Seq<char>,
}

impl View for ServiceConfig {
    type V = ServiceModel;

    open spec fn view(&self) -> ServiceModel {
        ServiceModel {
            app_name: self.app_name@,
            binary_name: self.binary_name@,
            source_binary_path: self.source_binary_path@,
            unit_name: self.unit_name@,
            description: self.description@,
            exec_start: self.exec_start@,
            working_dir: self.working_dir@,
            user: self.user@,
            group: self.group@,
            restart_policy: self.restart_policy@,
            extra_flags: self.extra_flags@,
            environment: self.environment@,
        }
    }
}

/// The installation directory of an application.
pub open spec fn opt_dir_of(app_name: Seq<char>) -> Seq<char> {
    "/opt/"@ + app_name
}

/// The configuration a new service starts from: unit named after the
/// application, binary installed as `/opt/<app_name>/<binary_name>` and run
/// from `/opt/<app_name>` as `user`, in `user`'s group, restarted always.
pub open spec fn default_service(
    app_name: Seq<char>,
    binary_name: Seq<char>,
    source_path: Seq<char>,
    user: Seq<char>,
) -> ServiceModel {
    ServiceModel {
        app_name,
        binary_name,
        source_binary_path: source_path,
        unit_name: app_name,
        description: app_name + " Service"@,
        exec_start: opt_dir_of(app_name) + "/"@ + binary_name,
        working_dir: opt_dir_of(app_name),
        user,
        group: user,
        restart_policy: "always"@,
        extra_flags: Seq::empty(),
        environment: Seq::empty(),
    }
}

/// The group a service runs as: the configured one, or the user's own
/// group when none is configured.
pub open spec fn effective_group(c: ServiceModel) -> Seq<char> {
    if c.group.len() == 0 {
        c.user
    } else {
        c.group
    }
}

/// One line per non-blank line of `pieces`, each trimmed and put between
/// `prefix` and `suffix`.
pub open spec fn wrapped_lines(pieces: Seq<Seq<char>>, prefix: Seq<char>, suffix: Seq<char>) -> Seq<
    char,
>
    decreases pieces.len(),
{
    if pieces.len() == 0 {
        Seq::empty()
    } else {
        let t = trimmed(pieces.last());
        let before = wrapped_lines(pieces.drop_last(), prefix, suffix);
        if t.len() > 0 {
            before + prefix + t + suffix
        } else {
            before
        }
    }
}

/// The non-blank lines of an environment block, each trimmed and wrapped.
pub open spec fn env_lines(env: Seq<char>, prefix: Seq<char>, suffix: Seq<char>) -> Seq<char> {
    wrapped_lines(split_on(env, '\n'), prefix, suffix)
}

impl ServiceConfig {
    pub fn new(app_name: String, binary_name: String, source_path: String, user: String) -> (c:
        ServiceConfig)
        ensures
            c@ == default_service(app_name@, binary_name@, source_path@, user@),
    {
        let mut working_dir = String::new();
        push_str(&mut working_dir, "/opt/");
        push_str(&mut working_dir, app_name.as_str());
        let mut exec_start = string_of(chars_of(working_dir.as_str()).as_slice());
        push_str(&mut exec_start, "/");
        push_str(&mut exec_start, binary_name.as_str());
        let mut description = string_of(chars_of(app_name.as_str()).as_slice());
        push_str(&mut description, " Service");
        let unit_name = string_of(chars_of(app_name.as_str()).as_slice());
        let group = string_of(chars_of(user.as_str()).as_slice());
        let mut restart_policy = String::new();
        push_str(&mut restart_policy, "always");
        ServiceConfig {
            app_name,
            binary_name,
            source_binary_path: source_path,
            unit_name,
            description,
            exec_start,
            working_dir,
            user,
            group,
            restart_policy,
            extra_flags: String::new(),
            environment: String::new(),
        }
    }
}

/// Appends, for each non-blank line of `env`, the trimmed line between
/// `prefix` and `suffix`.
pub fn push_env_lines(out: &mut String, env: &str, prefix: &str, suffix: &str)
    ensures
        final(out)@ == old(out)@ + env_lines(env@, prefix@, suffix@),
{
    let chars = chars_of(env);
    let pieces = split_chars(chars.as_slice(), '\n');
    let ghost pv = split_on(env@, '\n');
    let mut i: usize = 0;
    while i < pieces.len()
        invariant
            chars@ == env@,
            pieces@.len() == pv.len(),
            forall|k: int| 0 <= k < pieces@.len() ==> #[trigger] pieces@[k]@ == pv[k],
            i <= pieces@.len(),
            out@ == old(out)@ + wrapped_lines(pv.subrange(0, i as int), prefix@, suffix@),
        decreases pieces.len() - i,
    {
        assert(pv.subrange(0, i + 1).drop_last() == pv.subrange(0, i as int));
        assert(pieces@[i as int]@ == pv[i as int]);
        let t = trim_chars(pieces[i].as_slice());
        let ghost before = out@;
        if t.len() > 0 {
            push_str(out, prefix);
            push_chars(out, t.as_slice());
            push_str(out, suffix);
            assert(out@ == old(out)@ + (wrapped_lines(pv.subrange(0, i as int), prefix@, suffix@)
                + prefix@ + t@ + suffix@));
        }
        i = i + 1;
    }
    assert(pv.subrange(0, pieces@.len() as int) == pv);
}

proof fn lemma_wrapped_lines_join(x: Seq<Seq<char>>, y: Seq<Seq<char>>, p: Seq<char>, s: Seq<char>)
    ensures
        wrapped_lines(x + y, p, s) == wrapped_lines(x, p, s) + wrapped_lines(y, p, s),
    decreases y.len(),
{
    if y.len() == 0 {
        assert(x + y =~= x);
        assert(wrapped_lines(x, p, s) + wrapped_lines(y, p, s) =~= wrapped_lines(x, p, s));
    } else {
        lemma_wrapped_lines_join(x, y.drop_last(), p, s);
        assert((x + y).drop_last() =~= x + y.drop_last());
        assert((x + y).last() == y.last());
        let t = trimmed(y.last());
        if t.len() > 0 {
            assert(wrapped_lines(x, p, s) + wrapped_lines(y.drop_last(), p, s) + p + t + s
                =~= wrapped_lines(x, p, s) + (wrapped_lines(y.drop_last(), p, s) + p + t + s));
        }
    }
}

/// The environment is rendered line by line: a block without a line break
/// gives its trimmed text between `prefix` and `suffix`, or nothing when it
/// is blank, and two blocks joined by a line break give the lines of the
/// first followed by the lines of the second.
pub proof fn lemma_env_lines_by_line(
    a: Seq<char>,
    b: Seq<char>,
    prefix: Seq<char>,
    suffix: Seq<char>,
)
    ensures
        !a.contains('\n') ==> env_lines(a, prefix, suffix) == if trimmed(a).len() > 0 {
            prefix + trimmed(a) + suffix
        } else {
            Seq::<char>::empty()
        },
        env_lines(a + "\n"@ + b, prefix, suffix) == env_lines(a, prefix, suffix) + env_lines(
            b,
            prefix,
            suffix,
        ),
{
    reveal_strlit("\n");
    assert("\n"@ =~= seq!['\n']);
    lemma_split_join(a, b, '\n');
    lemma_wrapped_lines_join(split_on(a, '\n'), split_on(b, '\n'), prefix, suffix);
    if !a.contains('\n') {
        lemma_split_single(a, '\n');
        let one = seq![a];
        assert(one.drop_last() =~= Seq::<Seq<char>>::empty());
        assert(one.last() == a);
        assert(wrapped_lines(one.drop_last(), prefix, suffix) == Seq::<char>::empty());
        assert(env_lines(a, prefix, suffix) == wrapped_lines(one, prefix, suffix));
        assert(Seq::<char>::empty() + prefix + trimmed(a) + suffix =~= prefix + trimmed(a)
            + suffix);
    }
}

/// Whether a text has anything but whitespace in it.
pub fn has_content(s: &str) -> (b: bool)
    ensures
        b == (trimmed(s@).len() > 0),
{
    let t = trim_chars(chars_of(s).as_slice());
    t.len() > 0
}

/// The file generated for a service under an init system.
pub open spec fn service_file(init: InitSystem, c: ServiceModel, s: SystemModel) -> Seq<char> {
    match init {
        InitSystem::Systemd => systemd_unit(c, s),
        InitSystem::OpenRC => openrc_script(c, s),
    }
}

/// Renders the file for a service under the given init system.
pub fn render_service_by_type(init: InitSystem, config: &ServiceConfig, sys: &SystemInfo) -> (out:
    String)
    ensures
        out@ == service_file(init, config@, sys@),
{
    match init {
        InitSystem::Systemd => render_systemd_unit(config, sys),
        InitSystem::OpenRC => render_openrc_file(config, sys),
    }
}

/// The name of the file a service is saved as locally: the unit name with a
/// `.service` suffix for systemd (added unless already there), the
/// application name for OpenRC.
pub open spec fn service_file_name(init: InitSystem, c: ServiceModel) -> Seq<char> {
    match init {
        InitSystem::Systemd => {
            let suffix = ".service"@;
            if suffix.len() <= c.unit_name.len() && c.unit_name.subrange(
                c.unit_name.len() - suffix.len(),
                c.unit_name.len() as int,
            ) == suffix {
                c.unit_name
            } else {
                c.unit_name + suffix
            }
        },
        InitSystem::OpenRC => c.app_name,
    }
}

/// The local file name of a systemd unit is made from the unit name alone:
/// it starts with the unit name, ends in `.service`, adds nothing when the
/// unit name already ends in `.service` and adds exactly `.service`
/// otherwise; two configurations with the same unit name get the same file
/// name.  An OpenRC script is saved under the application name.
pub proof fn lemma_systemd_file_name_from_unit_name(c: ServiceModel, other: ServiceModel)
    ensures
        ({
            let name = service_file_name(InitSystem::Systemd, c);
            &&& c.unit_name.len() <= name.len()
            &&& name.subrange(0, c.unit_name.len() as int) == c.unit_name
            &&& name.len() >= 8
            &&& name.subrange(name.len() - 8, name.len() as int) == ".service"@
            &&& name.len() == c.unit_name.len() || name == c.unit_name + ".service"@
        }),
        other.unit_name == c.unit_name ==> service_file_name(InitSystem::Systemd, other)
            == service_file_name(InitSystem::Systemd, c),
        service_file_name(InitSystem::OpenRC, c) == c.app_name,
{
    reveal_strlit(".service");
    let name = service_file_name(InitSystem::Systemd, c);
    let u = c.unit_name;
    let suffix = ".service"@;
    if suffix.len() <= u.len() && u.subrange(u.len() - suffix.len(), u.len() as int) == suffix {
        assert(name == u);
        assert(u.subrange(0, u.len() as int) =~= u);
    } else {
        assert(name == u + suffix);
        assert(name.subrange(0, u.len() as int) =~= u);
        assert(name.subrange(name.len() - 8, name.len() as int) =~= suffix);
    }
}

/// The name of the file a service is saved as locally.
pub fn local_file_name(init: InitSystem, config: &ServiceConfig) -> (name: String)
    ensures
        name@ == service_file_name(init, config@),
{
    match init {
        InitSystem::Systemd => {
            let unit = chars_of(config.unit_name.as_str());
            let mut name = string_of(unit.as_slice());
            if !ends_with(unit.as_slice(), chars_of(".service").as_slice()) {
                push_str(&mut name, ".service");
            }
            name
        },
        InitSystem::OpenRC => string_of(chars_of(config.app_name.as_str()).as_slice()),
    }
}

} // verus!
