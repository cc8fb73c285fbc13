//! Deriving where a binary goes: the raw path the user typed is cleaned of
//! quotes and whitespace, `~` is expanded, and the binary's file name and the
//! application name (the nearest enclosing directory that is not a build
//! output directory) give `/opt/<app_name>/<binary_name>`.

use vstd::prelude::*;
use crate::text::{
    chars_eq, chars_of, contains_infix, has_infix, lemma_split_join, lemma_split_single, push_char,
    push_chars, push_str, split_chars, split_on, string_of, trim_chars, trimmed,
};

verus! {

/// Where a binary comes from and where it is installed.
pub struct BinaryLocationInfo {
    pub source_path: String,
    pub app_name: String,
    pub binary_name: String,
    pub opt_dir: String,
    pub opt_binary_path: String,
    /// Whether a file exists at `source_path`, as the caller found out.
    pub exists: bool,
}

/// The paths of a `BinaryLocationInfo`, as character sequences.
pub struct LocationModel {
    pub source_path: Seq<char>,
    pub app_name: Seq<char>,
    pub binary_name: Seq<char>,
    pub opt_dir: Seq<char>,
    pub opt_binary_path: Seq<char>,
}

impl BinaryLocationInfo {
    pub open spec fn model(&self) -> LocationModel {
        LocationModel {
            source_path: self.source_path@,
            app_name: self.app_name@,
            binary_name: self.binary_name@,
            opt_dir: self.opt_dir@,
            opt_binary_path: self.opt_binary_path@,
        }
    }
}

/// The view of an optional string slice.
pub open spec fn opt_str_view(o: Option<&str>) -> Option<Seq<char>> {
    match o {
        Some(s) => Some(s@),
        None => None,
    }
}

/// A trimmed path wrapped in a matching pair of single or double quotes.
pub open spec fn quoted(s: Seq<char>) -> bool {
    &&& s.len() >= 2
    &&& (s[0] == '\'' && s.last() == '\'') || (s[0] == '"' && s.last() == '"')
}

/// The raw input with surrounding whitespace removed, then one pair of
/// matching surrounding quotes, then whitespace again.
pub open spec fn cleaned_path(raw: Seq<char>) -> Seq<char> {
    let s = trimmed(raw);
    if quoted(s) {
        trimmed(s.subrange(1, s.len() - 1))
    } else {
        trimmed(s)
    }
}

/// `rest` appended to `base` as `PathBuf::push` does on Unix: an absolute
/// `rest` replaces `base`; otherwise one `/` separates them unless `base` is
/// empty or already ends in one.
pub open spec fn pushed_path(base: Seq<char>, rest: Seq<char>) -> Seq<char> {
    if rest.len() > 0 && rest[0] == '/' {
        rest
    } else if base.len() == 0 || base.last() == '/' {
        base + rest
    } else {
        base + seq!['/'] + rest
    }
}

/// The cleaned path, with a leading `~` or `~/` replaced by the home
/// directory when one is known.
pub open spec fn expanded_path(raw: Seq<char>, home: Option<Seq<char>>) -> Seq<char> {
    let c = cleaned_path(raw);
    let tilde = (c.len() >= 2 && c[0] == '~' && c[1] == '/') || c == seq!['~'];
    if tilde && home is Some {
        if c.len() > 2 {
            pushed_path(home.unwrap(), c.subrange(2, c.len() as int))
        } else {
            home.unwrap()
        }
    } else {
        c
    }
}

/// A piece between slashes that names a directory or a file: not empty and
/// not `.` (which a path does not count as a component).
pub open spec fn is_name_piece(p: Seq<char>) -> bool {
    p.len() > 0 && p != seq!['.']
}

/// The pieces that name something, in order.
pub open spec fn keep_names(pieces: Seq<Seq<char>>) -> Seq<Seq<char>>
    decreases pieces.len(),
{
    if pieces.len() == 0 {
        Seq::empty()
    } else {
        let rest = keep_names(pieces.drop_last());
        if is_name_piece(pieces.last()) {
            rest.push(pieces.last())
        } else {
            rest
        }
    }
}

/// The components of a path other than the root and a leading `.`: normal
/// names and `..`.
pub open spec fn path_names(p: Seq<char>) -> Seq<Seq<char>> {
    keep_names(split_on(p, '/'))
}

/// A lower-cased directory name that marks compiler output.
pub open spec fn build_dir_pattern(lower: Seq<char>) -> bool {
    ||| lower == ""@
    ||| lower == "/"@
    ||| lower == "bin"@
    ||| lower == "target"@
    ||| lower == "release"@
    ||| lower == "debug"@
    ||| lower == "deps"@
    ||| lower == "build"@
    ||| lower == "out"@
    ||| lower == "dist"@
    ||| has_infix(lower, "unknown-linux"@)
    ||| has_infix(lower, "x86_64"@)
    ||| has_infix(lower, "aarch64"@)
    ||| has_infix(lower, "gnu"@)
    ||| has_infix(lower, "musl"@)
}

/// What `str::to_lowercase` returns for a string (Unicode lower-case mapping).
pub uninterp spec fn lowercase_of(s: Seq<char>) -> Seq<char>;

/// Text made of ASCII characters only.
pub open spec fn is_ascii_text(s: Seq<char>) -> bool {
    forall|i: int| 0 <= i < s.len() ==> s[i] <= '\u{7f}'
}

/// A character with `A`..`Z` mapped to `a`..`z`.
pub open spec fn ascii_lower_char(c: char) -> char {
    if 'A' <= c && c <= 'Z' {
        ((c as u32) + 32) as char
    } else {
        c
    }
}

/// Text with its ASCII upper-case letters lower-cased.
pub open spec fn ascii_lowered(s: Seq<char>) -> Seq<char> {
    Seq::new(s.len(), |i: int| ascii_lower_char(s[i]))
}

/// A directory name that is a common build output directory: its lower-case
/// form (for an ASCII name, the ASCII lower-case form) matches
/// `build_dir_pattern`.
pub open spec fn is_build_dir_name(name: Seq<char>) -> bool {
    if is_ascii_text(name) {
        build_dir_pattern(ascii_lowered(name))
    } else {
        build_dir_pattern(lowercase_of(name))
    }
}

/// The nearest directory, from the right, that is neither `..` nor a build
/// directory; `fallback` when there is none.
pub open spec fn app_dir_name(dirs: Seq<Seq<char>>, fallback: Seq<char>) -> Seq<char>
    decreases dirs.len(),
{
    if dirs.len() == 0 {
        fallback
    } else if dirs.last() != ".."@ && !is_build_dir_name(dirs.last()) {
        dirs.last()
    } else {
        app_dir_name(dirs.drop_last(), fallback)
    }
}

/// Where the binary named by `raw` comes from and goes, if `raw` names one.
pub open spec fn binary_location(raw: Seq<char>, home: Option<Seq<char>>) -> Option<LocationModel> {
    let c = cleaned_path(raw);
    if c.len() == 0 {
        None
    } else {
        let p = expanded_path(c, home);
        let names = path_names(p);
        if names.len() == 0 || names.last() == ".."@ {
            None
        } else {
            let bin = names.last();
            let app = app_dir_name(names.drop_last(), bin);
            Some(
                LocationModel {
                    source_path: p,
                    app_name: app,
                    binary_name: bin,
                    opt_dir: "/opt/"@ + app,
                    opt_binary_path: "/opt/"@ + app + "/"@ + bin,
                },
            )
        }
    }
}

proof fn lemma_split_pieces_lack_sep(s: Seq<char>, sep: char)
    ensures
        forall|k: int|
            0 <= k < split_on(s, sep).len() ==> !(#[trigger] split_on(s, sep)[k]).contains(sep),
    decreases s.len(),
{
    if s.len() > 0 {
        lemma_split_pieces_lack_sep(s.drop_last(), sep);
        crate::text::lemma_split_nonempty(s.drop_last(), sep);
        let pieces = split_on(s.drop_last(), sep);
        if s.last() != sep {
            let last = pieces.last();
            assert(!last.contains(sep));
            assert forall|i: int| 0 <= i < last.push(s.last()).len() implies last.push(
                s.last(),
            )[i] != sep by {
                if i < last.len() {
                    assert(last.push(s.last())[i] == last[i]);
                }
            }
        }
    }
}

proof fn lemma_names_are_components(pieces: Seq<Seq<char>>)
    requires
        forall|k: int| 0 <= k < pieces.len() ==> !(#[trigger] pieces[k]).contains('/'),
    ensures
        forall|k: int|
            0 <= k < keep_names(pieces).len() ==> is_name_piece(#[trigger] keep_names(pieces)[k])
                && !keep_names(pieces)[k].contains('/'),
    decreases pieces.len(),
{
    if pieces.len() > 0 {
        let init = pieces.drop_last();
        assert forall|k: int| 0 <= k < init.len() implies !(#[trigger] init[k]).contains('/') by {
            assert(init[k] == pieces[k]);
        }
        lemma_names_are_components(init);
        assert(pieces.last() == pieces[pieces.len() - 1]);
        let rest = keep_names(init);
        let out = keep_names(pieces);
        assert forall|k: int| 0 <= k < out.len() implies is_name_piece(#[trigger] out[k])
            && !out[k].contains('/') by {
            if k < rest.len() {
                assert(out[k] == rest[k]);
            }
        }
    }
}

proof fn lemma_app_dir_choice(dirs: Seq<Seq<char>>, fallback: Seq<char>)
    ensures
        app_dir_name(dirs, fallback) == fallback || (dirs.contains(app_dir_name(dirs, fallback))
            && app_dir_name(dirs, fallback) != ".."@ && !is_build_dir_name(
            app_dir_name(dirs, fallback),
        )),
    decreases dirs.len(),
{
    if dirs.len() > 0 {
        lemma_app_dir_choice(dirs.drop_last(), fallback);
        let r = app_dir_name(dirs.drop_last(), fallback);
        if dirs.drop_last().contains(r) {
            let i = choose|i: int| 0 <= i < dirs.drop_last().len() && dirs.drop_last()[i] == r;
            assert(dirs[i] == r);
        }
        assert(dirs[dirs.len() - 1] == dirs.last());
    }
}

/// A directory that cannot name the application: `..` or a build directory.
pub open spec fn skipped_dir(d: Seq<char>) -> bool {
    d == ".."@ || is_build_dir_name(d)
}

/// The directory chosen is the nearest one to the right that is not
/// skipped: it is not skipped and every directory after it is; when every
/// directory is skipped, the fallback is chosen.
pub proof fn lemma_app_dir_is_nearest(dirs: Seq<Seq<char>>, fallback: Seq<char>)
    ensures
        (exists|i: int|
            0 <= i < dirs.len() && #[trigger] dirs[i] == app_dir_name(dirs, fallback)
                && !skipped_dir(dirs[i]) && forall|j: int|
                i < j < dirs.len() ==> skipped_dir(#[trigger] dirs[j]))
            || (app_dir_name(dirs, fallback) == fallback && forall|j: int|
            0 <= j < dirs.len() ==> skipped_dir(#[trigger] dirs[j])),
    decreases dirs.len(),
{
    if dirs.len() > 0 {
        let init = dirs.drop_last();
        lemma_app_dir_is_nearest(init, fallback);
        let n = dirs.len() - 1;
        assert(dirs[n] == dirs.last());
        if !skipped_dir(dirs.last()) {
            assert(dirs[n] == app_dir_name(dirs, fallback));
        } else if exists|i: int|
            0 <= i < init.len() && #[trigger] init[i] == app_dir_name(init, fallback)
                && !skipped_dir(init[i]) && forall|j: int|
                i < j < init.len() ==> skipped_dir(#[trigger] init[j]) {
            let i = choose|i: int|
                0 <= i < init.len() && #[trigger] init[i] == app_dir_name(init, fallback)
                    && !skipped_dir(init[i]) && forall|j: int|
                    i < j < init.len() ==> skipped_dir(#[trigger] init[j]);
            assert(dirs[i] == init[i]);
            assert forall|j: int| i < j < dirs.len() implies skipped_dir(#[trigger] dirs[j]) by {
                if j < n {
                    assert(dirs[j] == init[j]);
                }
            }
        } else {
            assert forall|j: int| 0 <= j < dirs.len() implies skipped_dir(#[trigger] dirs[j]) by {
                if j < n {
                    assert(dirs[j] == init[j]);
                }
            }
        }
    }
}

/// The binary is the last component of the expanded path, and the
/// application is the nearest directory above it that is neither `..` nor a
/// build directory, or the binary's own name when there is none.
pub proof fn lemma_app_name_is_nearest_directory(raw: Seq<char>, home: Option<Seq<char>>)
    ensures
        binary_location(raw, home) matches Some(m) ==> {
            let names = path_names(m.source_path);
            let dirs = names.drop_last();
            &&& names.len() > 0 && m.binary_name == names.last()
            &&& (exists|i: int|
                0 <= i < dirs.len() && #[trigger] dirs[i] == m.app_name && !skipped_dir(dirs[i])
                    && forall|j: int| i < j < dirs.len() ==> skipped_dir(#[trigger] dirs[j]))
                || (m.app_name == m.binary_name && forall|j: int|
                0 <= j < dirs.len() ==> skipped_dir(#[trigger] dirs[j]))
        },
{
    let c = cleaned_path(raw);
    if c.len() > 0 {
        let p = expanded_path(c, home);
        let names = path_names(p);
        if names.len() > 0 && names.last() != ".."@ {
            lemma_app_dir_is_nearest(names.drop_last(), names.last());
        }
    }
}

/// A located binary is installed as `/opt/<app_name>/<binary_name>`, where the
/// binary name and the application name are single path components; the
/// application name is a directory of the path that is not a build output
/// directory, or else the binary name itself.
pub proof fn lemma_location_layout(raw: Seq<char>, home: Option<Seq<char>>)
    ensures
        binary_location(raw, home) matches Some(m) ==> {
            &&& m.opt_dir == "/opt/"@ + m.app_name
            &&& m.opt_binary_path == m.opt_dir + "/"@ + m.binary_name
            &&& m.binary_name.len() > 0 && !m.binary_name.contains('/') && m.binary_name != ".."@
            &&& m.app_name.len() > 0 && !m.app_name.contains('/')
            &&& m.app_name == m.binary_name || !is_build_dir_name(m.app_name)
            &&& m.source_path == expanded_path(cleaned_path(raw), home)
        },
{
    let c = cleaned_path(raw);
    if c.len() > 0 {
        let p = expanded_path(c, home);
        let names = path_names(p);
        if names.len() > 0 && names.last() != ".."@ {
            lemma_split_pieces_lack_sep(p, '/');
            lemma_names_are_components(split_on(p, '/'));
            let bin = names.last();
            assert(bin == names[names.len() - 1]);
            let dirs = names.drop_last();
            lemma_app_dir_choice(dirs, bin);
            let app = app_dir_name(dirs, bin);
            if app != bin {
                let i = choose|i: int| 0 <= i < dirs.len() && dirs[i] == app;
                assert(names[i] == app);
            }
        }
    }
}

proof fn lemma_ascii_lowered_fixed(s: Seq<char>)
    requires
        forall|i: int| 0 <= i < s.len() ==> 'a' <= #[trigger] s[i] <= 'z' || s[i] == '-' || s[i]
            == '_' || s[i] == '/' || ('0' <= s[i] <= '9'),
    ensures
        is_ascii_text(s),
        ascii_lowered(s) == s,
{
    assert(ascii_lowered(s) =~= s);
}

/// The names of common build output directories are recognised, in any
/// case for ASCII names, and so is every ASCII name that contains a target
/// triple part (`unknown-linux`, `x86_64`, `aarch64`, `gnu`, `musl`).
pub proof fn lemma_build_dirs_recognised(n: Seq<char>)
    ensures
        is_build_dir_name(""@),
        is_build_dir_name("/"@),
        is_build_dir_name("bin"@),
        is_build_dir_name("target"@),
        is_build_dir_name("release"@),
        is_build_dir_name("debug"@),
        is_build_dir_name("deps"@),
        is_build_dir_name("build"@),
        is_build_dir_name("out"@),
        is_build_dir_name("dist"@),
        is_ascii_text(n) && (has_infix(ascii_lowered(n), "unknown-linux"@) || has_infix(
            ascii_lowered(n),
            "x86_64"@,
        ) || has_infix(ascii_lowered(n), "aarch64"@) || has_infix(ascii_lowered(n), "gnu"@)
            || has_infix(ascii_lowered(n), "musl"@)) ==> is_build_dir_name(n),
{
    reveal_strlit("");
    reveal_strlit("/");
    reveal_strlit("bin");
    reveal_strlit("target");
    reveal_strlit("release");
    reveal_strlit("debug");
    reveal_strlit("deps");
    reveal_strlit("build");
    reveal_strlit("out");
    reveal_strlit("dist");
    lemma_ascii_lowered_fixed(""@);
    lemma_ascii_lowered_fixed("/"@);
    lemma_ascii_lowered_fixed("bin"@);
    lemma_ascii_lowered_fixed("target"@);
    lemma_ascii_lowered_fixed("release"@);
    lemma_ascii_lowered_fixed("debug"@);
    lemma_ascii_lowered_fixed("deps"@);
    lemma_ascii_lowered_fixed("build"@);
    lemma_ascii_lowered_fixed("out"@);
    lemma_ascii_lowered_fixed("dist"@);
}

proof fn lemma_keep_names_join(a: Seq<Seq<char>>, b: Seq<Seq<char>>)
    ensures
        keep_names(a + b) == keep_names(a) + keep_names(b),
    decreases b.len(),
{
    if b.len() == 0 {
        assert(a + b =~= a);
        assert(keep_names(a) + keep_names(b) =~= keep_names(a));
    } else {
        lemma_keep_names_join(a, b.drop_last());
        assert((a + b).drop_last() =~= a + b.drop_last());
        assert((a + b).last() == b.last());
        if is_name_piece(b.last()) {
            assert((keep_names(a) + keep_names(b.drop_last())).push(b.last()) =~= keep_names(a)
                + keep_names(b.drop_last()).push(b.last()));
        }
    }
}

/// A binary built by cargo under `<dir>/target/debug/` (or any path whose
/// `target` and `debug` directories sit right above the binary) belongs to
/// the application `<dir>`, whenever `<dir>` is a plain directory name that
/// is not itself a build directory: it is installed as
/// `/opt/<dir>/<binary>`.
pub proof fn lemma_cargo_debug_binary_app_name(
    parent: Seq<char>,
    dir: Seq<char>,
    bin: Seq<char>,
    home: Option<Seq<char>>,
)
    requires
        parent.len() == 0 || parent[0] == '/',
        dir.len() > 0,
        !dir.contains('/'),
        dir != seq!['.'],
        dir != ".."@,
        !is_build_dir_name(dir),
        bin.len() > 0,
        !bin.contains('/'),
        bin != seq!['.'],
        bin != ".."@,
        !crate::text::is_ws(bin.last()),
    ensures
        ({
            let raw = parent + "/"@ + dir + "/target/debug/"@ + bin;
            &&& binary_location(raw, home) is Some
            &&& binary_location(raw, home).unwrap().app_name == dir
            &&& binary_location(raw, home).unwrap().binary_name == bin
            &&& binary_location(raw, home).unwrap().opt_dir == "/opt/"@ + dir
            &&& binary_location(raw, home).unwrap().opt_binary_path == "/opt/"@ + dir + "/"@ + bin
        }),
{
    reveal_strlit("/");
    reveal_strlit("/target/debug/");
    reveal_strlit("target");
    reveal_strlit("debug");
    reveal_strlit("..");
    let raw = parent + "/"@ + dir + "/target/debug/"@ + bin;
    let sl = seq!['/'];
    let t = "target"@;
    let g = "debug"@;
    assert(raw =~= parent + sl + (dir + sl + (t + sl + (g + sl + bin))));
    // cleaning and expansion leave the path as it is
    assert(raw[0] == '/');
    assert(raw.last() == bin.last());
    lemma_trim_keeps_solid_ends(raw);
    assert(cleaned_path(raw) == raw);
    assert(expanded_path(raw, home) == raw);
    // its components
    assert(!t.contains('/'));
    assert(!g.contains('/'));
    lemma_split_single(dir, '/');
    lemma_split_single(t, '/');
    lemma_split_single(g, '/');
    lemma_split_single(bin, '/');
    lemma_split_join(g, bin, '/');
    lemma_split_join(t, g + sl + bin, '/');
    lemma_split_join(dir, t + sl + (g + sl + bin), '/');
    lemma_split_join(parent, dir + sl + (t + sl + (g + sl + bin)), '/');
    let k = split_on(parent, '/');
    let tail = seq![dir, t, g, bin];
    assert(split_on(raw, '/') =~= k + tail);
    lemma_keep_names_join(k, tail);
    assert(tail.drop_last().drop_last().drop_last().drop_last() =~= Seq::<Seq<char>>::empty());
    assert(keep_names(tail) =~= tail) by {
        assert(t.len() == 6 && g.len() == 5);
        assert(t != seq!['.']);
        assert(g != seq!['.']);
        let s0 = Seq::<Seq<char>>::empty();
        let s1 = seq![dir];
        let s2 = seq![dir, t];
        let s3 = seq![dir, t, g];
        assert(s1.drop_last() =~= s0);
        assert(keep_names(s0) == s0);
        assert(keep_names(s1) =~= s0.push(dir));
        assert(s2.drop_last() =~= s1);
        assert(keep_names(s2) =~= s1.push(t));
        assert(s3.drop_last() =~= s2);
        assert(keep_names(s3) =~= s2.push(g));
        assert(tail.drop_last() =~= s3);
        assert(keep_names(tail) =~= s3.push(bin));
    }
    let names = path_names(raw);
    let kn = keep_names(k);
    assert(names =~= kn + tail);
    assert(names.last() == bin);
    // the directories above the binary, from the right: debug, target, dir
    lemma_build_dirs_recognised(dir);
    assert(g != ".."@);
    assert(t != ".."@);
    let dirs = names.drop_last();
    assert(dirs =~= kn + seq![dir, t, g]);
    assert(dirs.drop_last() =~= kn + seq![dir, t]);
    assert(dirs.drop_last().drop_last() =~= kn + seq![dir]);
    assert(app_dir_name(dirs, bin) == app_dir_name(dirs.drop_last(), bin));
    assert(app_dir_name(dirs.drop_last(), bin) == app_dir_name(dirs.drop_last().drop_last(), bin));
    assert(app_dir_name(dirs.drop_last().drop_last(), bin) == dir);
}

proof fn lemma_trim_keeps_solid_ends(s: Seq<char>)
    requires
        s.len() > 0,
        !crate::text::is_ws(s[0]),
        !crate::text::is_ws(s.last()),
    ensures
        trimmed(s) == s,
{
}

/// A path written as `~/<rest>` is expanded to the home directory, one `/`
/// and `<rest>`, and `~` alone to the home directory; without a known home
/// directory the path is kept as it is.
pub proof fn lemma_tilde_expanded(rest: Seq<char>, home: Seq<char>)
    requires
        rest.len() > 0,
        rest[0] != '/',
        !crate::text::is_ws(rest.last()),
        home.len() > 0,
        home.last() != '/',
    ensures
        expanded_path("~/"@ + rest, Some(home)) == home + "/"@ + rest,
        expanded_path("~"@, Some(home)) == home,
        expanded_path("~/"@ + rest, None) == "~/"@ + rest,
{
    reveal_strlit("~/");
    reveal_strlit("~");
    reveal_strlit("/");
    let raw = "~/"@ + rest;
    assert(raw[0] == '~');
    assert(raw.last() == rest.last());
    lemma_trim_keeps_solid_ends(raw);
    assert(cleaned_path(raw) == raw);
    assert(raw.subrange(2, raw.len() as int) =~= rest);
    assert(home + seq!['/'] + rest =~= home + "/"@ + rest);
    assert("~"@ =~= seq!['~']);
    lemma_trim_keeps_solid_ends("~"@);
}

/// A path that carries no surrounding whitespace or quotes and does not
/// start with `~` is used as it is.
pub proof fn lemma_plain_path_kept(p: Seq<char>, home: Option<Seq<char>>)
    requires
        p.len() > 0,
        p[0] != '~' && p[0] != '\'' && p[0] != '"',
        !crate::text::is_ws(p[0]),
        !crate::text::is_ws(p.last()),
    ensures
        expanded_path(p, home) == p,
{
    lemma_trim_keeps_solid_ends(p);
}

/// A path wrapped in single or double quotes is cleaned to the path itself
/// without its surrounding whitespace.
pub proof fn lemma_quotes_stripped(x: Seq<char>)
    ensures
        cleaned_path(seq!['\''] + x + seq!['\'']) == trimmed(x),
        cleaned_path(seq!['"'] + x + seq!['"']) == trimmed(x),
{
    let s1 = seq!['\''] + x + seq!['\''];
    let s2 = seq!['"'] + x + seq!['"'];
    lemma_trim_keeps_solid_ends(s1);
    lemma_trim_keeps_solid_ends(s2);
    assert(s1.subrange(1, s1.len() - 1) =~= x);
    assert(s2.subrange(1, s2.len() - 1) =~= x);
}

/// Clean raw input path by removing surrounding single/double quotes and whitespace.
pub fn clean_path_input(raw_path: &str) -> (r: String)
    ensures
        r@ == cleaned_path(raw_path@),
{
    let v = chars_of(raw_path);
    let s = trim_chars(v.as_slice());
    let n = s.len();
    if n >= 2 && ((s[0] == '\'' && s[n - 1] == '\'') || (s[0] == '"' && s[n - 1] == '"')) {
        let mut inner: Vec<char> = Vec::new();
        let mut i: usize = 1;
        while i < n - 1
            invariant
                n == s@.len(),
                n >= 2,
                1 <= i <= n - 1,
                inner@ == s@.subrange(1, i as int),
            decreases n - 1 - i,
        {
            inner.push(s[i]);
            i = i + 1;
        }
        string_of(trim_chars(inner.as_slice()).as_slice())
    } else {
        string_of(trim_chars(s.as_slice()).as_slice())
    }
}

/// Expand tilde `~` to the home directory, when one is given.
pub fn expand_path(raw_path: &str, home: Option<&str>) -> (r: String)
    ensures
        r@ == expanded_path(raw_path@, opt_str_view(home)),
{
    let cleaned = clean_path_input(raw_path);
    let c = chars_of(cleaned.as_str());
    let n = c.len();
    let tilde = (n >= 2 && c[0] == '~' && c[1] == '/') || (n == 1 && c[0] == '~');
    proof {
        if n == 1 && c@[0] == '~' {
            assert(c@ =~= seq!['~']);
        }
    }
    match home {
        Some(h) if tilde => {
            if n > 2 {
                let mut rest: Vec<char> = Vec::new();
                let mut i: usize = 2;
                while i < n
                    invariant
                        n == c@.len(),
                        2 <= i <= n,
                        rest@ == c@.subrange(2, i as int),
                    decreases n - i,
                {
                    rest.push(c[i]);
                    i = i + 1;
                }
                if rest[0] == '/' {
                    string_of(rest.as_slice())
                } else {
                    let base = chars_of(h);
                    let mut out = string_of(base.as_slice());
                    if base.len() > 0 && base[base.len() - 1] != '/' {
                        push_char(&mut out, '/');
                    }
                    push_chars(&mut out, rest.as_slice());
                    out
                }
            } else {
                string_of(chars_of(h).as_slice())
            }
        },
        _ => cleaned,
    }
}

/// Converts a string to lower case (`str::to_lowercase`): the Unicode
/// lower-case mapping, named `lowercase_of`; on ASCII text that mapping
/// lower-cases `A`..`Z` and keeps every other character.
#[verifier::external_body]
fn to_lowercase(s: &str) -> (r: String)
    ensures
        r@ == lowercase_of(s@),
        is_ascii_text(s@) ==> r@ == ascii_lowered(s@),
{
    s.to_lowercase()
}

/// Whether an already lower-cased directory name marks compiler output.
pub fn is_build_dir_lowercase(lower: &[char]) -> (r: bool)
    ensures
        r == build_dir_pattern(lower@),
{
    let exact = lower.len() == 0 || chars_eq(lower, chars_of("/").as_slice()) || chars_eq(
        lower,
        chars_of("bin").as_slice(),
    ) || chars_eq(lower, chars_of("target").as_slice()) || chars_eq(
        lower,
        chars_of("release").as_slice(),
    ) || chars_eq(lower, chars_of("debug").as_slice()) || chars_eq(
        lower,
        chars_of("deps").as_slice(),
    ) || chars_eq(lower, chars_of("build").as_slice()) || chars_eq(
        lower,
        chars_of("out").as_slice(),
    ) || chars_eq(lower, chars_of("dist").as_slice());
    proof {
        reveal_strlit("");
        if lower@.len() == 0 {
            assert(lower@ =~= ""@);
        }
    }
    exact || contains_infix(lower, chars_of("unknown-linux").as_slice()) || contains_infix(
        lower,
        chars_of("x86_64").as_slice(),
    ) || contains_infix(lower, chars_of("aarch64").as_slice()) || contains_infix(
        lower,
        chars_of("gnu").as_slice(),
    ) || contains_infix(lower, chars_of("musl").as_slice())
}

/// Checks if a folder name is a common compiler / build output directory.
pub fn is_build_dir(name: &str) -> (r: bool)
    ensures
        r == is_build_dir_name(name@),
        is_ascii_text(name@) ==> r == build_dir_pattern(ascii_lowered(name@)),
{
    let lower = to_lowercase(name);
    let chars = chars_of(lower.as_str());
    is_build_dir_lowercase(chars.as_slice())
}

/// The components of a path other than the root and a leading `.`.
fn names_of_path(p: &[char]) -> (names: Vec<Vec<char>>)
    ensures
        names@.len() == path_names(p@).len(),
        forall|k: int| 0 <= k < names@.len() ==> #[trigger] names@[k]@ == path_names(p@)[k],
{
    let pieces = split_chars(p, '/');
    let ghost pv = split_on(p@, '/');
    let dot = chars_of(".");
    proof {
        reveal_strlit(".");
    }
    let mut names: Vec<Vec<char>> = Vec::new();
    let mut i: usize = 0;
    while i < pieces.len()
        invariant
            pieces@.len() == pv.len(),
            forall|k: int| 0 <= k < pieces@.len() ==> #[trigger] pieces@[k]@ == pv[k],
            dot@ == seq!['.'],
            i <= pieces@.len(),
            names@.len() == keep_names(pv.subrange(0, i as int)).len(),
            forall|k: int|
                0 <= k < names@.len() ==> #[trigger] names@[k]@ == keep_names(
                    pv.subrange(0, i as int),
                )[k],
        decreases pieces.len() - i,
    {
        assert(pv.subrange(0, i + 1).drop_last() == pv.subrange(0, i as int));
        assert(pieces@[i as int]@ == pv[i as int]);
        let piece = &pieces[i];
        if piece.len() > 0 && !chars_eq(piece.as_slice(), dot.as_slice()) {
            names.push(piece.clone());
        }
        i = i + 1;
    }
    assert(pv.subrange(0, pieces@.len() as int) == pv);
    names
}

/// Derive `/opt/<app_name>/<binary_file>` consistent paths.  `source_exists`
/// is whether a file exists at the expanded path (`expand_path` of the cleaned
/// input), as the caller found out.
pub fn resolve_binary_info(raw_path: &str, home: Option<&str>, source_exists: bool) -> (r: Option<
    BinaryLocationInfo,
>)
    ensures
        r is None <==> binary_location(raw_path@, opt_str_view(home)) is None,
        r matches Some(info) ==> info.model() == binary_location(
            raw_path@,
            opt_str_view(home),
        ).unwrap() && info.exists == source_exists,
{
    let cleaned = clean_path_input(raw_path);
    if cleaned.as_str().is_empty() {
        return None;
    }
    let expanded = expand_path(cleaned.as_str(), home);
    let p = chars_of(expanded.as_str());
    let names = names_of_path(p.as_slice());
    let ghost nv = path_names(p@);
    let n = names.len();
    if n == 0 {
        return None;
    }
    assert(names@[n - 1]@ == nv.last());
    if chars_eq(names[n - 1].as_slice(), chars_of("..").as_slice()) {
        return None;
    }
    let bin = &names[n - 1];
    let ghost dirs = nv.drop_last();
    let mut app: Vec<char> = bin.clone();
    let mut k: usize = n - 1;
    assert(dirs.subrange(0, k as int) == dirs);
    while k > 0
        invariant_except_break
            n == nv.len(),
            names@.len() == n,
            forall|j: int| 0 <= j < n ==> #[trigger] names@[j]@ == nv[j],
            dirs == nv.drop_last(),
            k <= n - 1,
            app_dir_name(dirs, nv.last()) == app_dir_name(dirs.subrange(0, k as int), nv.last()),
            app@ == nv.last(),
        ensures
            app@ == app_dir_name(dirs, nv.last()),
        decreases k,
    {
        let d = &names[k - 1];
        assert(d@ == nv[k - 1]);
        assert(dirs.subrange(0, k as int).last() == nv[k - 1]);
        assert(dirs.subrange(0, k as int).drop_last() == dirs.subrange(0, k - 1));
        let dname = string_of(d.as_slice());
        if !chars_eq(d.as_slice(), chars_of("..").as_slice()) && !is_build_dir(dname.as_str()) {
            app = d.clone();
            break;
        }
        k = k - 1;
    }
    assert(dirs.subrange(0, 0) == Seq::<Seq<char>>::empty());
    let app_name = string_of(app.as_slice());
    let binary_name = string_of(bin.as_slice());
    let mut opt_dir = String::new();
    push_str(&mut opt_dir, "/opt/");
    push_chars(&mut opt_dir, app.as_slice());
    let mut opt_binary_path = string_of(chars_of(opt_dir.as_str()).as_slice());
    push_str(&mut opt_binary_path, "/");
    push_chars(&mut opt_binary_path, bin.as_slice());
    Some(
        BinaryLocationInfo {
            source_path: expanded,
            app_name,
            binary_name,
            opt_dir,
            opt_binary_path,
            exists: source_exists,
        },
    )
}

} // verus!
