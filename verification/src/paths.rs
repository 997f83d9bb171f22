//! The directories and files of the application.

use vstd::prelude::*;
use vstd::utf8::*;

use std::path::{Path, PathBuf};

verus! {

/// The directory of this application, below those of the user.
pub const APP_DIR: &'static str = "rizzo-pii";

/// The file that keeps host and port, in the configuration directory.
pub const CONFIG_FILE: &'static str = "config.json";

/// The file that the diagnostic log goes to.
pub const LOG_FILE: &'static str = "tauri.log";

/// The directory of the backend, among the resources of the application.
pub const BACKEND_DIR: &'static str = "backend";

/// The directory that the backend was packed into.
pub const BUNDLE_DIR: &'static str = "pii-backend";

/// The executable of the backend.
pub const BACKEND_EXE: &'static str = "pii-backend.exe";

/// An outside type: an owned path of the standard library.
#[verifier::external_type_specification]
#[verifier::external_body]
pub struct ExPathBuf(std::path::PathBuf);

/// An outside type: a borrowed path of the standard library.
#[verifier::external_type_specification]
#[verifier::external_body]
pub struct ExPath(std::path::Path);

/// The path that `Path::join` makes of `base` and `part`.
pub uninterp spec fn joined_path(base: &Path, part: Seq<char>) -> PathBuf;

/// The path that `PathBuf::from` makes of `text`.
pub uninterp spec fn path_from(text: Seq<char>) -> PathBuf;

/// The path that `PathBuf::as_path` lends out of `buf`.
pub uninterp spec fn lent_path(buf: &PathBuf) -> &Path;

/// The components of a path, one by one, as `Path::iter` gives them out: the encoded
/// bytes of each.
pub uninterp spec fn path_parts(path: &Path) -> Seq<Seq<u8>>;

/// The encoded bytes of a whole path, by `OsStr::as_encoded_bytes`.
pub uninterp spec fn path_bytes(path: &Path) -> Seq<u8>;

/// The separators of components on any platform: slash and backslash.
pub open spec fn is_separator(byte: u8) -> bool {
    byte == 47 || byte == 92
}

/// The bytes from `from` to `to` are a name: at least one byte, and no separator.
pub open spec fn is_name(bytes: Seq<u8>, from: int, to: int) -> bool {
    &&& 0 <= from < to <= bytes.len()
    &&& forall|i: int| from <= i < to ==> !is_separator(#[trigger] bytes[i])
}

/// The bytes begin with two separators.
pub open spec fn begins_doubled(bytes: Seq<u8>) -> bool {
    bytes.len() >= 2 && is_separator(bytes[0]) && is_separator(bytes[1])
}

/// The bytes begin with three separators or more, or with fewer than two. A lone
/// backslash is left out: on Unix it is a name, and a slash behind it would make it look
/// like two separators.
pub open spec fn is_ordinary(bytes: Seq<u8>) -> bool {
    &&& begins_doubled(bytes) ==> bytes.len() >= 3 && is_separator(bytes[2])
    &&& bytes != seq![92u8]
}

/// The bytes begin with two separators, the name of a server, a separator and a name: on
/// Windows a share, such as `\\server\share`. A server named by a dot or a question mark
/// alone is left out: there these stand for devices and verbatim paths.
pub open spec fn names_share(bytes: Seq<u8>) -> bool {
    &&& begins_doubled(bytes)
    &&& exists|k: int| #[trigger]
        is_name(bytes, 2, k) && is_separator(bytes[k]) && is_name(bytes, k + 1, k + 2) && !(k
            == 3 && (bytes[2] == 46 || bytes[2] == 63))
}

/// The bytes begin with `\\?\`: on Windows, a verbatim path.
pub open spec fn begins_verbatim(bytes: Seq<u8>) -> bool {
    bytes.len() >= 4 && bytes[0] == 92 && bytes[1] == 92 && bytes[2] == 63 && bytes[3] == 92
}

/// A verbatim path of a drive with its root, such as `\\?\C:\`.
pub open spec fn names_verbatim_drive(bytes: Seq<u8>) -> bool {
    &&& begins_verbatim(bytes)
    &&& bytes.len() >= 7
    &&& 65 <= bytes[4] <= 90 || 97 <= bytes[4] <= 122
    &&& bytes[5] == 58
    &&& bytes[6] == 92
}

/// A verbatim path of a share with its root, such as `\\?\UNC\server\share\`.
pub open spec fn names_verbatim_share(bytes: Seq<u8>) -> bool {
    &&& begins_verbatim(bytes)
    &&& bytes.len() >= 8
    &&& bytes[4] == 85 && bytes[5] == 78 && bytes[6] == 67 && bytes[7] == 92
    &&& exists|k: int, m: int|
        #![trigger is_name(bytes, 8, k), is_name(bytes, k + 1, m)]
        is_name(bytes, 8, k) && k < bytes.len() && bytes[k] == 92 && is_name(bytes, k + 1, m)
            && m < bytes.len() && bytes[m] == 92
}

/// No part is a dot or two dots.
pub open spec fn without_dots(parts: Seq<Seq<u8>>) -> bool {
    forall|i: int| 0 <= i < parts.len() ==> #[trigger] parts[i] != seq![46u8] && parts[i] != seq![
        46u8,
        46u8,
    ]
}

/// What is joined to a path with these bytes and components becomes a component behind
/// them. This is left open of other paths: on Windows the name of a server without a
/// share, of a device, or a verbatim path without a root, where what is joined may become
/// part of that first name, and verbatim paths with dots, which a join takes out.
pub open spec fn grows_by_components(bytes: Seq<u8>, parts: Seq<Seq<u8>>) -> bool {
    ||| is_ordinary(bytes)
    ||| names_share(bytes)
    ||| (names_verbatim_drive(bytes) || names_verbatim_share(bytes)) && without_dots(parts)
}

/// A text that is one ordinary component on any platform: not empty, not a dot or two,
/// without separators and without a colon.
pub open spec fn is_plain_part(part: Seq<char>) -> bool {
    &&& part.len() > 0
    &&& part != seq!['.']
    &&& part != seq!['.', '.']
    &&& forall|i: int|
        0 <= i < part.len() ==> #[trigger] part[i] != '/' && part[i] != '\\' && part[i] != ':'
}

/// `path` lies below `base`, and `tail` leads there: it has the components of `base`
/// and then those of `tail`. This is said where `base` grows by components; then `path`
/// does too.
pub open spec fn lies_below(path: PathBuf, base: &Path, tail: Seq<Seq<char>>) -> bool {
    grows_by_components(path_bytes(base), path_parts(base)) ==> {
        &&& grows_by_components(path_bytes(lent_path(&path)), path_parts(lent_path(&path)))
        &&& path_parts(lent_path(&path)) == path_parts(base) + encoded(tail)
    }
}

/// The encoded bytes of texts.
pub open spec fn encoded(texts: Seq<Seq<char>>) -> Seq<Seq<u8>> {
    texts.map_values(|text: Seq<char>| encode_utf8(text))
}

/// Adjoins `part` to `base` with `Path::join`. The path is a function of both. Where
/// `base` grows by components and `part` is a plain part, the path has the components of
/// `base` and then `part`, and grows by components in its turn. Which separator stands
/// between them is a matter of the platform and is left unsaid, as is what becomes of
/// other paths.
#[verifier::external_body]
fn join_path(base: &Path, part: &str) -> (path: PathBuf)
    ensures
        path == joined_path(base, part@),
        grows_by_components(path_bytes(base), path_parts(base)) && is_plain_part(part@) ==> {
            &&& grows_by_components(path_bytes(lent_path(&path)), path_parts(lent_path(&path)))
            &&& path_parts(lent_path(&path)) == path_parts(base).push(encode_utf8(part@))
        },
{
    base.join(part)
}

/// Makes a path of a text with `PathBuf::from`. The path is a function of the text, and
/// its bytes are those of the text.
#[verifier::external_body]
fn path_of_text(text: &str) -> (path: PathBuf)
    ensures
        path == path_from(text@),
        path_bytes(lent_path(&path)) == encode_utf8(text@),
{
    PathBuf::from(text)
}

/// `PathBuf::as_path` lends the path that the buffer holds.
pub assume_specification[ PathBuf::as_path ](buf: &PathBuf) -> (path: &Path)
    ensures
        path == lent_path(buf),
;

/// The local data directory of the user, by `dirs::data_local_dir`. It depends on
/// the environment: nothing is claimed of it, not even that there is one.
#[verifier::external_body]
pub(crate) fn local_data_dir() -> (dir: Option<PathBuf>) {
    dirs::data_local_dir()
}

/// The home directory of the user, by `dirs::home_dir`. It depends on the
/// environment: nothing is claimed of it, not even that there is one.
#[verifier::external_body]
pub(crate) fn user_home_dir() -> (dir: Option<PathBuf>) {
    dirs::home_dir()
}

/// `dir` is what `local_data_dir` answers: the local data directory of the user, or that
/// there is none. No value answers for it but one that it gave.
pub closed spec fn is_local_data_dir(dir: Option<PathBuf>) -> bool {
    call_ensures(local_data_dir, (), dir)
}

/// `dir` is what `user_home_dir` answers: the home directory of the user, or that there is
/// none. No value answers for it but one that it gave.
pub closed spec fn is_home_dir(dir: Option<PathBuf>) -> bool {
    call_ensures(user_home_dir, (), dir)
}

/// Calls `ask`, and keeps that the answer is one of its own.
pub(crate) fn answer_of<T, F: Fn() -> T>(ask: F) -> (answer: T)
    requires
        call_requires(ask, ()),
    ensures
        call_ensures(ask, (), answer),
{
    ask()
}

/// The local data directory of the user, if there is one.
pub(crate) fn found_data_dir() -> (dir: Option<PathBuf>)
    ensures
        is_local_data_dir(dir),
{
    answer_of(local_data_dir)
}

/// The home directory of the user, if there is one.
pub(crate) fn found_home_dir() -> (dir: Option<PathBuf>)
    ensures
        is_home_dir(dir),
{
    answer_of(user_home_dir)
}

/// What the configuration directory stands below: `base`, or the current directory.
pub open spec fn config_base(base: Option<PathBuf>) -> PathBuf {
    match base {
        Some(b) => b,
        None => path_from("."@),
    }
}

/// The configuration directory below `base`, or below the current directory.
pub open spec fn config_dir_of(base: Option<PathBuf>) -> PathBuf {
    joined_path(lent_path(&config_base(base)), APP_DIR@)
}

/// The configuration file in the directory `dir`.
pub open spec fn config_file_of(dir: PathBuf) -> PathBuf {
    joined_path(lent_path(&dir), CONFIG_FILE@)
}

/// What the log directory stands below: `home`, or the empty path.
pub open spec fn log_base(home: Option<PathBuf>) -> PathBuf {
    match home {
        Some(h) => h,
        None => path_from(""@),
    }
}

/// The log directory below `home`, or below the empty path.
pub open spec fn log_dir_of(home: Option<PathBuf>) -> PathBuf {
    joined_path(lent_path(&log_base(home)), APP_DIR@)
}

/// What lies below `path` has its components and then its own, without exception.
pub open spec fn has_plain_start(path: PathBuf) -> bool {
    grows_by_components(path_bytes(lent_path(&path)), path_parts(lent_path(&path)))
}

/// The log file in the directory `dir`.
pub open spec fn log_file_of(dir: PathBuf) -> PathBuf {
    joined_path(lent_path(&dir), LOG_FILE@)
}

/// The executable of the backend, below the resources of the application.
pub open spec fn sidecar_exe_of(resource_dir: &Path) -> PathBuf {
    let backend = joined_path(resource_dir, BACKEND_DIR@);
    let bundle = joined_path(lent_path(&backend), BUNDLE_DIR@);
    joined_path(lent_path(&bundle), BACKEND_EXE@)
}

/// What leads from the resources of the application to the executable of the backend.
pub open spec fn sidecar_tail() -> Seq<Seq<char>> {
    seq![BACKEND_DIR@, BUNDLE_DIR@, BACKEND_EXE@]
}

/// The names that this application gives to its directories and files.
pub open spec fn is_own_name(name: Seq<char>) -> bool {
    ||| name == APP_DIR@
    ||| name == CONFIG_FILE@
    ||| name == LOG_FILE@
    ||| name == BACKEND_DIR@
    ||| name == BUNDLE_DIR@
    ||| name == BACKEND_EXE@
}

proof fn lemma_own_names_are_plain(name: Seq<char>)
    requires
        is_own_name(name),
    ensures
        is_plain_part(name),
{
    reveal_strlit("rizzo-pii");
    reveal_strlit("config.json");
    reveal_strlit("tauri.log");
    reveal_strlit("backend");
    reveal_strlit("pii-backend");
    reveal_strlit("pii-backend.exe");
    assert(name.len() > 2);
}

/// Adjoins one of the names of this application to `base`.
fn join_below(base: &Path, name: &str) -> (path: PathBuf)
    requires
        is_own_name(name@),
    ensures
        path == joined_path(base, name@),
        lies_below(path, base, seq![name@]),
{
    proof {
        lemma_own_names_are_plain(name@);
        assert(encoded(seq![name@]) =~= seq![encode_utf8(name@)]);
        assert(path_parts(base) + seq![encode_utf8(name@)] =~= path_parts(base).push(
            encode_utf8(name@),
        ));
    }
    join_path(base, name)
}

/// The configuration directory below `base`, or below the current directory.
pub fn config_dir_in(base: Option<PathBuf>) -> (dir: PathBuf)
    ensures
        dir == config_dir_of(base),
        lies_below(dir, lent_path(&config_base(base)), seq![APP_DIR@]),
        base is None ==> has_plain_start(config_base(base)),
{
    let base = match base {
        Some(b) => b,
        None => {
            proof {
                reveal_strlit(".");
                is_ascii_chars_encode_utf8("."@);
            }
            path_of_text(".")
        },
    };
    join_below(base.as_path(), APP_DIR)
}

/// The configuration directory of the application: below the local data directory
/// of the user, or below the current directory where there is none.
///
/// - Windows: `%LOCALAPPDATA%\rizzo-pii`
/// - Linux: `~/.local/share/rizzo-pii`
/// - macOS: `~/Library/Application Support/rizzo-pii`
pub fn config_dir() -> (dir: PathBuf)
    ensures
        exists|base: Option<PathBuf>|
            is_local_data_dir(base) && dir == #[trigger] config_dir_of(base),
{
    config_dir_in(found_data_dir())
}

/// The configuration file in the directory `dir`.
pub fn config_file(dir: &PathBuf) -> (file: PathBuf)
    ensures
        file == config_file_of(*dir),
        lies_below(file, lent_path(dir), seq![CONFIG_FILE@]),
{
    join_below(dir.as_path(), CONFIG_FILE)
}

/// The log directory below `home`, or below the empty path.
pub fn log_dir_in(home: Option<PathBuf>) -> (dir: PathBuf)
    ensures
        dir == log_dir_of(home),
        lies_below(dir, lent_path(&log_base(home)), seq![APP_DIR@]),
        home is None ==> has_plain_start(log_base(home)),
{
    let home = match home {
        Some(h) => h,
        None => {
            proof {
                reveal_strlit("");
                is_ascii_chars_encode_utf8(""@);
            }
            path_of_text("")
        },
    };
    join_below(home.as_path(), APP_DIR)
}

/// The log file in the directory `dir`.
pub fn log_file(dir: &PathBuf) -> (file: PathBuf)
    ensures
        file == log_file_of(*dir),
        lies_below(file, lent_path(dir), seq![LOG_FILE@]),
{
    join_below(dir.as_path(), LOG_FILE)
}

/// The executable of the backend, below the resources of the application. The
/// application runs on Windows only, so its name does not vary.
pub fn sidecar_exe(resource_dir: &Path) -> (exe: PathBuf)
    ensures
        exe == sidecar_exe_of(resource_dir),
        lies_below(exe, resource_dir, sidecar_tail()),
{
    let backend = join_below(resource_dir, BACKEND_DIR);
    let bundle = join_below(backend.as_path(), BUNDLE_DIR);
    let exe = join_below(bundle.as_path(), BACKEND_EXE);
    assert(encoded(sidecar_tail()) =~= encoded(seq![BACKEND_DIR@]) + encoded(seq![BUNDLE_DIR@])
        + encoded(seq![BACKEND_EXE@]));
    assert(path_parts(resource_dir) + encoded(sidecar_tail()) =~= path_parts(resource_dir)
        + encoded(seq![BACKEND_DIR@]) + encoded(seq![BUNDLE_DIR@]) + encoded(
        seq![BACKEND_EXE@],
    ));
    exe
}

/// Where a directory grows by components, as `sidecar_exe` says, its executable leads back
/// to it: three components up stands the directory, and what leads down again is the same
/// for every directory. So two such directories, with the components `a` and `b`, have the
/// same executable exactly where they have the same components.
pub proof fn executable_fixes_its_directory(a: Seq<Seq<u8>>, b: Seq<Seq<u8>>)
    ensures
        (a + encoded(sidecar_tail())).take(a.len() as int) == a,
        (a + encoded(sidecar_tail())).skip(a.len() as int) == encoded(sidecar_tail()),
        (a + encoded(sidecar_tail())).len() == a.len() + 3,
        a + encoded(sidecar_tail()) == b + encoded(sidecar_tail()) <==> a == b,
{
    let tail = encoded(sidecar_tail());
    assert((a + tail).take(a.len() as int) =~= a);
    assert((a + tail).skip(a.len() as int) =~= tail);
    assert((b + tail).take(b.len() as int) =~= b);
    if a + tail == b + tail {
        assert((a + tail).len() == (b + tail).len());
    }
}

/// What is answered for the directories of the user is the answer of the functions that ask
/// the system, and of no other.
pub(crate) proof fn answers_come_from_the_system(dir: Option<PathBuf>)
    ensures
        is_local_data_dir(dir) <==> call_ensures(local_data_dir, (), dir),
        is_home_dir(dir) <==> call_ensures(user_home_dir, (), dir),
{
}

/// The configuration is `rizzo-pii/config.json` below the local data directory, or below
/// the current directory where there is none.
pub proof fn configuration_has_its_place(base: PathBuf, dir: PathBuf)
    ensures
        config_dir_of(Some(base)) == joined_path(lent_path(&base), "rizzo-pii"@),
        config_dir_of(None) == joined_path(lent_path(&path_from("."@)), "rizzo-pii"@),
        config_file_of(dir) == joined_path(lent_path(&dir), "config.json"@),
{
}

/// The log is `rizzo-pii/tauri.log` below the home directory, or below the empty path where
/// there is none.
pub proof fn log_has_its_place(home: PathBuf, dir: PathBuf)
    ensures
        log_dir_of(Some(home)) == joined_path(lent_path(&home), "rizzo-pii"@),
        log_dir_of(None) == joined_path(lent_path(&path_from(""@)), "rizzo-pii"@),
        log_file_of(dir) == joined_path(lent_path(&dir), "tauri.log"@),
{
}

/// The executable is `backend/pii-backend/pii-backend.exe` below the resources.
pub proof fn executable_has_its_place(resource_dir: &Path)
    ensures
        ({
            let backend = joined_path(resource_dir, "backend"@);
            let bundle = joined_path(lent_path(&backend), "pii-backend"@);
            sidecar_exe_of(resource_dir) == joined_path(lent_path(&bundle), "pii-backend.exe"@)
        }),
        sidecar_tail() == seq!["backend"@, "pii-backend"@, "pii-backend.exe"@],
{
}

} // verus!
