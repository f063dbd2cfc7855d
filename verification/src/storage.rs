//! Where the application keeps its settings file and its default outputs.

use vstd::prelude::*;
use crate::text::{cat, cat3, owned};

verus! {

pub open spec fn settings_file_name() -> Seq<char> {
    "settings.json"@
}

pub open spec fn app_data_dir_name() -> Seq<char> {
    "rms-ai-recorder"@
}

/// A Windows verbatim path, which starts with `\\?\`; in it only `\`
/// separates components.
pub open spec fn is_verbatim(base: Seq<char>) -> bool {
    base.len() >= 4 && base[0] == '\\' && base[1] == '\\' && base[2] == '?' && base[3] == '\\'
}

/// An ASCII letter, as a drive letter is.
pub open spec fn is_drive_letter(c: char) -> bool {
    65 <= (c as int) <= 90 || 97 <= (c as int) <= 122
}

/// A bare drive such as `D:`, which Windows paths join without a separator.
pub open spec fn is_bare_drive(base: Seq<char>) -> bool {
    base.len() == 2 && is_drive_letter(base[0]) && base[1] == ':'
}

/// Whether `base` already ends with a separator, on a platform whose main
/// separator is `sep`; `/` separates on every platform.
pub open spec fn ends_with_sep(base: Seq<char>, sep: char) -> bool {
    base.len() > 0 && (base.last() == sep || base.last() == '/')
}

/// A name that joins as one plain component: not empty, not `.` or `..`, and
/// free of separators and of `:`, so that no platform reads a root, a drive
/// or a parent in it. Every name this library joins is one.
pub open spec fn plain_name(name: Seq<char>) -> bool {
    &&& name.len() > 0
    &&& !(name.len() == 1 && name[0] == '.')
    &&& !(name.len() == 2 && name[0] == '.' && name[1] == '.')
    &&& forall|i: int| 0 <= i < name.len() ==> name[i] != '/' && name[i] != '\\' && name[i] != ':'
}

/// The first index at or after `from` where `s` holds `\`, or `s.len()`.
pub open spec fn next_backslash(s: Seq<char>, from: int) -> int
    decreases s.len() - from,
{
    if from >= s.len() {
        s.len() as int
    } else if s[from] == '\\' {
        from
    } else {
        next_backslash(s, from + 1)
    }
}

/// The length of the prefix of a verbatim path: `\\?\UNC\server\share`
/// (the share where it is not empty), or else `\\?\` and the component up to
/// the next `\` (a drive such as `C:` among them).
pub open spec fn verbatim_prefix_len(base: Seq<char>) -> int {
    if base.len() >= 8 && base[4] == 'U' && base[5] == 'N' && base[6] == 'C' && base[7] == '\\' {
        let server_end = next_backslash(base, 8);
        if server_end >= base.len() {
            base.len() as int
        } else {
            let share_end = next_backslash(base, server_end + 1);
            if share_end > server_end + 1 { share_end } else { server_end }
        }
    } else {
        next_backslash(base, 4)
    }
}

/// The components of `s` from index `i` on, split at `\` with empty ones
/// dropped, each followed by `\`.
pub open spec fn dirs_from(s: Seq<char>, i: int) -> Seq<char>
    decreases s.len() - i,
{
    if i >= s.len() {
        seq![]
    } else if s[i] == '\\' {
        dirs_from(s, i + 1)
    } else if i + 1 == s.len() || s[i + 1] == '\\' {
        seq![s[i], '\\'] + dirs_from(s, i + 1)
    } else {
        seq![s[i]] + dirs_from(s, i + 1)
    }
}

/// A verbatim `base` joined with a plain `name` on Windows: `Path::join`
/// rebuilds the path from its components, so the prefix is followed by `\`,
/// then each component of the rest and `\`, then the name.
pub open spec fn verbatim_join_spec(base: Seq<char>, name: Seq<char>) -> Seq<char> {
    let p = verbatim_prefix_len(base);
    base.subrange(0, p) + seq!['\\'] + dirs_from(base, p) + name
}

/// `base` joined with the plain component `name`, as `Path::join` does on a
/// platform whose main separator is `sep`. A verbatim base on Windows is
/// rebuilt from its components; otherwise a separator is put between them
/// unless `base` is empty, already ends with one, or (where the separator is
/// `\`) is a bare drive such as `D:`, which gives the drive-relative `D:name`.
pub open spec fn join_spec(base: Seq<char>, name: Seq<char>, sep: char) -> Seq<char> {
    if sep == '\\' && is_verbatim(base) {
        verbatim_join_spec(base, name)
    } else if base.len() == 0 || ends_with_sep(base, sep) || (sep == '\\' && is_bare_drive(base)) {
        base + name
    } else {
        base.push(sep) + name
    }
}

/// The names this library joins to folders are plain components.
pub proof fn lemma_joined_names_are_plain()
    ensures
        plain_name("rms-ai-recorder"@),
        plain_name("settings.json"@),
        plain_name("outputs"@),
        plain_name("audio"@),
        plain_name("transcripts"@),
        plain_name("transcript_log.txt"@),
        plain_name("record.wav"@),
        plain_name("transcript_whisper.txt"@),
        plain_name("transcript_assemblyai.txt"@),
        plain_name("summary.txt"@),
{
    assert(plain_name("rms-ai-recorder"@)) by {
        reveal_strlit("rms-ai-recorder");
    }
    assert(plain_name("settings.json"@)) by {
        reveal_strlit("settings.json");
    }
    assert(plain_name("outputs"@)) by {
        reveal_strlit("outputs");
    }
    assert(plain_name("audio"@)) by {
        reveal_strlit("audio");
    }
    assert(plain_name("transcripts"@)) by {
        reveal_strlit("transcripts");
    }
    assert(plain_name("transcript_log.txt"@)) by {
        reveal_strlit("transcript_log.txt");
    }
    assert(plain_name("record.wav"@)) by {
        reveal_strlit("record.wav");
    }
    assert(plain_name("transcript_whisper.txt"@)) by {
        reveal_strlit("transcript_whisper.txt");
    }
    assert(plain_name("transcript_assemblyai.txt"@)) by {
        reveal_strlit("transcript_assemblyai.txt");
    }
    assert(plain_name("summary.txt"@)) by {
        reveal_strlit("summary.txt");
    }
}

/// The main separator of this platform (`std::path::MAIN_SEPARATOR`).
#[verifier::external_body]
fn main_separator() -> (c: char)
    ensures
        c == '/' || c == '\\',
{
    std::path::MAIN_SEPARATOR
}

/// The user's local data directory, when the platform has one
/// (`directories::BaseDirs::new` and `BaseDirs::data_local_dir`). It depends on the
/// environment, so nothing is stated of it; a path that is not valid Unicode is
/// rendered lossily, as `Path::display` renders it.
#[verifier::external_body]
fn local_data_dir() -> Option<String> {
    directories::BaseDirs::new().map(|dirs| dirs.data_local_dir().to_string_lossy().to_string())
}

/// The main path separator of this platform.
pub fn platform_separator() -> (c: char)
    ensures
        some_platform_sep(c),
{
    main_separator()
}

fn is_drive_letter_exec(c: char) -> (b: bool)
    ensures
        b == is_drive_letter(c),
{
    ('A' <= c && c <= 'Z') || ('a' <= c && c <= 'z')
}

fn next_backslash_exec(v: &Vec<char>, from: usize) -> (r: usize)
    requires
        from <= v@.len(),
    ensures
        r as int == next_backslash(v@, from as int),
        from <= r <= v@.len(),
{
    let mut i = from;
    while i < v.len() && v[i] != '\\'
        invariant
            from <= i <= v@.len(),
            next_backslash(v@, from as int) == next_backslash(v@, i as int),
        decreases v@.len() - i,
    {
        i = i + 1;
    }
    i
}

fn verbatim_prefix_len_exec(v: &Vec<char>) -> (r: usize)
    requires
        is_verbatim(v@),
    ensures
        r as int == verbatim_prefix_len(v@),
        4 <= r <= v@.len(),
{
    let n = v.len();
    if n >= 8 && v[4] == 'U' && v[5] == 'N' && v[6] == 'C' && v[7] == '\\' {
        let server_end = next_backslash_exec(v, 8);
        if server_end >= n {
            n
        } else {
            let share_end = next_backslash_exec(v, server_end + 1);
            if share_end > server_end + 1 { share_end } else { server_end }
        }
    } else {
        next_backslash_exec(v, 4)
    }
}

fn verbatim_join(base: &str, name: &str) -> (r: String)
    requires
        is_verbatim(base@),
    ensures
        r@ == verbatim_join_spec(base@, name@),
{
    let v = crate::text::chars_of(base);
    let p = verbatim_prefix_len_exec(&v);
    let mut r = crate::text::string_from_range(&v, 0, p);
    crate::text::push_char(&mut r, '\\');
    let ghost target = v@.subrange(0, p as int) + seq!['\\'] + dirs_from(v@, p as int);
    let mut i = p;
    while i < v.len()
        invariant
            p <= i <= v@.len(),
            r@ + dirs_from(v@, i as int) == target,
        decreases v@.len() - i,
    {
        let c = v[i];
        if c == '\\' {
        } else if i + 1 == v.len() || v[i + 1] == '\\' {
            let ghost before = r@;
            crate::text::push_char(&mut r, c);
            crate::text::push_char(&mut r, '\\');
            assert(r@ =~= before + seq![c, '\\']);
            assert(r@ + dirs_from(v@, i + 1) =~= before + (seq![c, '\\'] + dirs_from(v@, i + 1)));
        } else {
            let ghost before = r@;
            crate::text::push_char(&mut r, c);
            assert(r@ + dirs_from(v@, i + 1) =~= before + (seq![c] + dirs_from(v@, i + 1)));
        }
        i = i + 1;
    }
    assert(r@ =~= target);
    r.append(name);
    r
}

/// Joins the plain component `name` to `base` with the separator `sep`.
pub fn join_with(base: &str, name: &str, sep: char) -> (r: String)
    requires
        plain_name(name@),
    ensures
        r@ == join_spec(base@, name@, sep),
{
    let n = base.unicode_len();
    if n == 0 {
        return owned(name);
    }
    let verbatim = n >= 4 && base.get_char(0) == '\\' && base.get_char(1) == '\\' && base.get_char(2) == '?'
        && base.get_char(3) == '\\';
    if sep == '\\' && verbatim {
        return verbatim_join(base, name);
    }
    let last = base.get_char(n - 1);
    let bare_drive = sep == '\\' && n == 2 && last == ':' && is_drive_letter_exec(base.get_char(0));
    let ends_sep = last == sep || last == '/';
    if ends_sep || bare_drive {
        cat(base, name)
    } else {
        let mut r = owned(base);
        crate::text::push_char(&mut r, sep);
        r.append(name);
        r
    }
}

/// The application's data directory under `data_dir`, joined with `sep`.
pub open spec fn app_data_dir_in_spec(data_dir: Seq<char>, sep: char) -> Seq<char> {
    join_spec(data_dir, app_data_dir_name(), sep)
}

/// The settings file under the data directory `config_dir`, joined with `sep`.
pub open spec fn settings_file_path_in_spec(config_dir: Seq<char>, sep: char) -> Seq<char> {
    join_spec(app_data_dir_in_spec(config_dir, sep), settings_file_name(), sep)
}

/// The default output folder under the data directory `data_dir`, joined with `sep`.
pub open spec fn default_output_dir_in_spec(data_dir: Seq<char>, sep: char) -> Seq<char> {
    join_spec(app_data_dir_in_spec(data_dir, sep), "outputs"@, sep)
}

/// Whether `r` is `f(sep)` for the separator of some platform.
pub open spec fn some_platform_sep(sep: char) -> bool {
    sep == '/' || sep == '\\'
}

/// The application's data directory under `data_dir`, joined with `sep`.
pub fn app_data_dir_in_with(data_dir: &str, sep: char) -> (r: String)
    ensures
        r@ == app_data_dir_in_spec(data_dir@, sep),
{
    proof {
        lemma_joined_names_are_plain();
    }
    join_with(data_dir, "rms-ai-recorder", sep)
}

/// The settings file under the data directory `config_dir`, joined with `sep`.
pub fn settings_file_path_in_with(config_dir: &str, sep: char) -> (r: String)
    ensures
        r@ == settings_file_path_in_spec(config_dir@, sep),
{
    let dir = app_data_dir_in_with(config_dir, sep);
    proof {
        lemma_joined_names_are_plain();
    }
    join_with(&dir, "settings.json", sep)
}

/// The default output folder under the data directory `data_dir`, joined with `sep`.
pub fn default_output_dir_in_with(data_dir: &str, sep: char) -> (r: String)
    ensures
        r@ == default_output_dir_in_spec(data_dir@, sep),
{
    let dir = app_data_dir_in_with(data_dir, sep);
    proof {
        lemma_joined_names_are_plain();
    }
    join_with(&dir, "outputs", sep)
}

/// The folder for recorded audio inside `output_dir`, joined with `sep`.
pub fn output_audio_dir_with(output_dir: &str, sep: char) -> (r: String)
    ensures
        r@ == join_spec(output_dir@, "audio"@, sep),
{
    proof {
        lemma_joined_names_are_plain();
    }
    join_with(output_dir, "audio", sep)
}

/// The folder for transcripts and summaries inside `output_dir`, joined with `sep`.
pub fn output_transcripts_dir_with(output_dir: &str, sep: char) -> (r: String)
    ensures
        r@ == join_spec(output_dir@, "transcripts"@, sep),
{
    proof {
        lemma_joined_names_are_plain();
    }
    join_with(output_dir, "transcripts", sep)
}

/// The application's data directory under `data_dir`.
pub fn app_data_dir_in(data_dir: &str) -> (r: String)
    ensures
        exists|sep: char| some_platform_sep(sep) && r@ == app_data_dir_in_spec(data_dir@, sep),
{
    let sep = main_separator();
    let r = app_data_dir_in_with(data_dir, sep);
    assert(some_platform_sep(sep) && r@ == app_data_dir_in_spec(data_dir@, sep));
    r
}

/// The settings file under the data directory `config_dir`.
pub fn settings_file_path_in(config_dir: &str) -> (r: String)
    ensures
        exists|sep: char|
            some_platform_sep(sep) && r@ == settings_file_path_in_spec(config_dir@, sep),
{
    let sep = main_separator();
    let r = settings_file_path_in_with(config_dir, sep);
    assert(some_platform_sep(sep) && r@ == settings_file_path_in_spec(config_dir@, sep));
    r
}

/// The default output folder under the data directory `data_dir`.
pub fn default_output_dir_in(data_dir: &str) -> (r: String)
    ensures
        exists|sep: char|
            some_platform_sep(sep) && r@ == default_output_dir_in_spec(data_dir@, sep),
{
    let sep = main_separator();
    let r = default_output_dir_in_with(data_dir, sep);
    assert(some_platform_sep(sep) && r@ == default_output_dir_in_spec(data_dir@, sep));
    r
}

/// The folder for recorded audio inside `output_dir`.
pub fn output_audio_dir(output_dir: &str) -> (r: String)
    ensures
        exists|sep: char| some_platform_sep(sep) && r@ == join_spec(output_dir@, "audio"@, sep),
{
    let sep = main_separator();
    let r = output_audio_dir_with(output_dir, sep);
    assert(some_platform_sep(sep) && r@ == join_spec(output_dir@, "audio"@, sep));
    r
}

/// The folder for transcripts and summaries inside `output_dir`.
pub fn output_transcripts_dir(output_dir: &str) -> (r: String)
    ensures
        exists|sep: char|
            some_platform_sep(sep) && r@ == join_spec(output_dir@, "transcripts"@, sep),
{
    let sep = main_separator();
    let r = output_transcripts_dir_with(output_dir, sep);
    assert(some_platform_sep(sep) && r@ == join_spec(output_dir@, "transcripts"@, sep));
    r
}

/// The application's data directory: under the user's local data directory, or
/// the bare folder name relative to the working directory where there is none.
pub fn app_data_dir() -> (r: String)
    ensures
        r@ == app_data_dir_name() || exists|base: Seq<char>, sep: char|
            some_platform_sep(sep) && r@ == app_data_dir_in_spec(base, sep),
{
    match local_data_dir() {
        Some(dir) => app_data_dir_in(&dir),
        None => owned("rms-ai-recorder"),
    }
}

/// The settings file of this user.
pub fn settings_file_path() -> (r: String)
    ensures
        exists|base: Seq<char>, sep: char|
            some_platform_sep(sep) && r@ == join_spec(base, settings_file_name(), sep),
{
    let base = app_data_dir();
    let sep = main_separator();
    proof {
        lemma_joined_names_are_plain();
    }
    let r = join_with(&base, "settings.json", sep);
    assert(some_platform_sep(sep) && r@ == join_spec(base@, settings_file_name(), sep));
    r
}

/// The default output folder of this user.
pub fn default_output_dir() -> (r: String)
    ensures
        exists|base: Seq<char>, sep: char|
            some_platform_sep(sep) && r@ == join_spec(base, "outputs"@, sep),
{
    let base = app_data_dir();
    let sep = main_separator();
    proof {
        lemma_joined_names_are_plain();
    }
    let r = join_with(&base, "outputs", sep);
    assert(some_platform_sep(sep) && r@ == join_spec(base@, "outputs"@, sep));
    r
}

} // verus!
