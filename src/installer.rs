//! Placement of the binary and the PATH records that make the installation
//! directory reachable: a line in a shell's configuration file on POSIX
//! systems, a segment of the user's persistent `PATH` value on Windows.
use vstd::prelude::*;

use crate::paths::{listed_path, path_listed};
use crate::platform::{Platform, Shell};
use crate::text::{
    contains_str, count_of, join_path, joined, lemma_count_concat, lemma_count_contains,
    lemma_split_concat, lemma_split_pieces_occur, lemma_split_single, lines, occurs_at, occurs_in,
    segment_present, split_on, str_eq,
};

verus! {

/// The shell statement that puts `dir` in front of `PATH`.
pub open spec fn export_line(shell: Shell, dir: Seq<char>) -> Seq<char> {
    match shell {
        Shell::Fish => "set -gx PATH \""@ + dir + "\" $PATH"@,
        _ => "export PATH=\""@ + dir + ":$PATH\""@,
    }
}

/// Whether `line` occurs anywhere in `content`.
pub open spec fn has_record(content: Seq<char>, line: Seq<char>) -> bool {
    occurs_in(content, line)
}

/// `content` with `line` added as a line of its own at the end.
pub open spec fn with_record(content: Seq<char>, line: Seq<char>) -> Seq<char> {
    if content.len() == 0 || content.last() == '\n' {
        content + line + seq!['\n']
    } else {
        content + seq!['\n'] + line + seq!['\n']
    }
}

/// The configuration text after the record has been ensured.
pub open spec fn updated_config(content: Seq<char>, line: Seq<char>) -> Seq<char> {
    if has_record(content, line) {
        content
    } else {
        with_record(content, line)
    }
}

/// Whether one of the `:`-separated entries of a `PATH` value names the
/// same location as `dir`, compared component by component.
pub open spec fn in_path_list(path_list: Seq<char>, dir: Seq<char>) -> bool {
    listed_path(path_list, ':', dir)
}

/// The user `PATH` value of Windows with `dir` in front, unless it is
/// already one of its `;`-separated entries.
pub open spec fn registry_path_after(user_path: Seq<char>, dir: Seq<char>) -> Option<Seq<char>> {
    if split_on(user_path, ';').contains(dir) {
        None
    } else if user_path.len() == 0 {
        Some(dir)
    } else {
        Some(dir + ";"@ + user_path)
    }
}

/// What ensuring the PATH record ended in.
#[derive(Clone, Copy, Debug, PartialEq, Eq, Structural)]
pub enum UpdateOutcome {
    /// The record was added.
    Success,
    /// The directory was already reachable; nothing was changed.
    AlreadyPresent,
    /// No known shell was detected: the user must add the directory by hand.
    NoShellDetected,
}

/// The change that a shell configuration file needs.
pub enum PathEdit {
    NoShellDetected,
    AlreadyPresent,
    /// Write this text back as the whole configuration file.
    Write(String),
}

impl PathEdit {
    /// The outcome reported once the edit has been carried out.
    pub fn outcome(&self) -> (r: UpdateOutcome)
        ensures
            r == match self {
                PathEdit::NoShellDetected => UpdateOutcome::NoShellDetected,
                PathEdit::AlreadyPresent => UpdateOutcome::AlreadyPresent,
                PathEdit::Write(_) => UpdateOutcome::Success,
            },
    {
        match self {
            PathEdit::NoShellDetected => UpdateOutcome::NoShellDetected,
            PathEdit::AlreadyPresent => UpdateOutcome::AlreadyPresent,
            PathEdit::Write(_) => UpdateOutcome::Success,
        }
    }
}

impl Shell {
    /// The statement of this shell that prepends `dir` to `PATH`.
    pub fn export_line(&self, dir: &str) -> (r: String)
        ensures
            r@ == export_line(*self, dir@),
    {
        match self {
            Shell::Fish => {
                let mut r = String::from_str("set -gx PATH \"");
                r.append(dir);
                r.append("\" $PATH");
                r
            },
            _ => {
                let mut r = String::from_str("export PATH=\"");
                r.append(dir);
                r.append(":$PATH\"");
                r
            },
        }
    }

    /// Whether an entry of the live `PATH` value names the same location as
    /// `install_dir`; repeated and trailing separators are not told apart.
    pub fn is_already_in_path(&self, live_path: &str, install_dir: &str) -> (r: bool)
        ensures
            r == in_path_list(live_path@, install_dir@),
    {
        path_listed(live_path, ':', install_dir)
    }

    /// The new configuration text that adds the export line for
    /// `install_dir` as a line of its own, or `None` when `content` already
    /// holds that export line.
    pub fn append_to_path(&self, content: &str, install_dir: &str) -> (r: Option<String>)
        ensures
            r is None <==> has_record(content@, export_line(*self, install_dir@)),
            r matches Some(c) ==> c@ == with_record(content@, export_line(*self, install_dir@)),
    {
        let line = self.export_line(install_dir);
        if contains_str(content, line.as_str()) {
            return None;
        }
        let n = content.unicode_len();
        let mut r = String::from_str(content);
        if n > 0 && content.get_char(n - 1) != '\n' {
            r.append("\n");
            proof {
                reveal_strlit("\n");
                assert(content@.last() == content@[n - 1]);
            }
        }
        r.append(line.as_str());
        r.append("\n");
        proof {
            reveal_strlit("\n");
        }
        Some(r)
    }
}

/// Installs into a directory whose PATH record lives in a shell
/// configuration file.
pub struct UnixInstaller {
    install_dir: String,
}

impl UnixInstaller {
    pub fn new(install_dir: String) -> (r: Self)
        ensures
            r.install_dir() == install_dir@,
    {
        UnixInstaller { install_dir }
    }

    pub closed spec fn install_dir(&self) -> Seq<char> {
        self.install_dir@
    }

    pub fn get_install_dir(&self) -> (r: &str)
        ensures
            r@ == self.install_dir(),
    {
        self.install_dir.as_str()
    }

    /// Decides how the configuration file of `shell` must change so that the
    /// installation directory is on `PATH` in future sessions, given the live
    /// `PATH` value and the file's current text (empty when it is missing).
    pub fn update_path(&self, shell: Option<Shell>, live_path: &str, content: &str) -> (r:
        PathEdit)
        ensures
            match r {
                PathEdit::NoShellDetected => shell is None,
                PathEdit::AlreadyPresent => shell is Some && (in_path_list(
                    live_path@,
                    self.install_dir(),
                ) || has_record(content@, export_line(shell->0, self.install_dir()))),
                PathEdit::Write(c) => shell is Some && !in_path_list(
                    live_path@,
                    self.install_dir(),
                ) && !has_record(content@, export_line(shell->0, self.install_dir())) && c@
                    == with_record(content@, export_line(shell->0, self.install_dir())),
            },
    {
        match shell {
            None => PathEdit::NoShellDetected,
            Some(sh) => {
                if sh.is_already_in_path(live_path, self.install_dir.as_str()) {
                    PathEdit::AlreadyPresent
                } else {
                    match sh.append_to_path(content, self.install_dir.as_str()) {
                        Some(c) => PathEdit::Write(c),
                        None => PathEdit::AlreadyPresent,
                    }
                }
            },
        }
    }
}

/// Installs into a directory whose PATH record is a segment of the user's
/// persistent `PATH` value.
pub struct WindowsInstaller {
    install_dir: String,
}

impl WindowsInstaller {
    pub fn new(install_dir: String) -> (r: Self)
        ensures
            r.install_dir() == install_dir@,
    {
        WindowsInstaller { install_dir }
    }

    pub closed spec fn install_dir(&self) -> Seq<char> {
        self.install_dir@
    }

    pub fn get_install_dir(&self) -> (r: &str)
        ensures
            r@ == self.install_dir(),
    {
        self.install_dir.as_str()
    }

    pub fn get_executable_name(&self) -> (r: &'static str)
        ensures
            r@ == "biome.exe"@,
    {
        "biome.exe"
    }

    /// The new user `PATH` value with the installation directory in front,
    /// or `None` when it already is one of its entries.
    pub fn update_path(&self, user_path: &str) -> (r: Option<String>)
        ensures
            r matches Some(p) ==> registry_path_after(user_path@, self.install_dir()) == Some(p@),
            r is None ==> registry_path_after(user_path@, self.install_dir()) is None,
    {
        if segment_present(user_path, ';', self.install_dir.as_str()) {
            return None;
        }
        let mut r = String::from_str(self.install_dir.as_str());
        if user_path.unicode_len() > 0 {
            r.append(";");
            r.append(user_path);
        }
        Some(r)
    }
}

} // verus!

verus! {

proof fn lemma_concat_lacks(a: Seq<char>, b: Seq<char>, x: char)
    requires
        !a.contains(x),
        !b.contains(x),
    ensures
        !(a + b).contains(x),
{
    if (a + b).contains(x) {
        let k = choose|k: int| 0 <= k < (a + b).len() && (a + b)[k] == x;
        if k < a.len() {
            assert(a[k] == x);
        } else {
            assert(b[k - a.len()] == x);
        }
    }
}

proof fn lemma_literal_lacks_newline()
    ensures
        !"set -gx PATH \""@.contains('\n'),
        !"\" $PATH"@.contains('\n'),
        !"export PATH=\""@.contains('\n'),
        !":$PATH\""@.contains('\n'),
{
    reveal_strlit("set -gx PATH \"");
    reveal_strlit("\" $PATH");
    reveal_strlit("export PATH=\"");
    reveal_strlit(":$PATH\"");
}

/// An export line for a directory without line feeds is one line.
pub proof fn lemma_export_line_single(shell: Shell, dir: Seq<char>)
    requires
        !dir.contains('\n'),
    ensures
        !export_line(shell, dir).contains('\n'),
        export_line(shell, dir).len() > 0,
{
    lemma_literal_lacks_newline();
    reveal_strlit("set -gx PATH \"");
    reveal_strlit("export PATH=\"");
    match shell {
        Shell::Fish => {
            lemma_concat_lacks("set -gx PATH \""@, dir, '\n');
            lemma_concat_lacks("set -gx PATH \""@ + dir, "\" $PATH"@, '\n');
        },
        _ => {
            lemma_concat_lacks("export PATH=\""@, dir, '\n');
            lemma_concat_lacks("export PATH=\""@ + dir, ":$PATH\""@, '\n');
        },
    }
}

proof fn lemma_count_push(ls: Seq<Seq<char>>, e: Seq<char>, x: Seq<char>)
    ensures
        count_of(ls.push(e), x) == count_of(ls, x) + if e == x {
            1nat
        } else {
            0nat
        },
{
    assert(ls.push(e).drop_last() == ls);
}

/// Adding a one-line record adds exactly one line equal to it.
proof fn lemma_with_record_count(content: Seq<char>, line: Seq<char>)
    requires
        !line.contains('\n'),
        line.len() > 0,
    ensures
        count_of(lines(with_record(content, line)), line) == count_of(lines(content), line) + 1,
{
    let e = Seq::<char>::empty();
    lemma_split_single(line, '\n');
    lemma_split_single(e, '\n');
    lemma_split_concat(line, e, '\n');
    assert(line + seq!['\n'] + e == line + seq!['\n']);
    assert(lines(line + seq!['\n']) == seq![line, e]);
    let none = Seq::<Seq<char>>::empty();
    assert(count_of(seq![line, e], line) == 1) by {
        lemma_count_push(none, line, line);
        lemma_count_push(none.push(line), e, line);
        assert(none.push(line).push(e) == seq![line, e]);
        assert(line != e);
    }
    if content.len() == 0 {
        assert(content + line + seq!['\n'] == line + seq!['\n']);
        assert(lines(content) == seq![e]);
        assert(count_of(seq![e], line) == 0) by {
            lemma_count_push(none, e, line);
            assert(none.push(e) == seq![e]);
            assert(line != e);
        }
    } else if content.last() == '\n' {
        let c0 = content.drop_last();
        assert(content == c0 + seq!['\n'] + e);
        lemma_split_concat(c0, e, '\n');
        assert(content + line + seq!['\n'] == c0 + seq!['\n'] + (line + seq!['\n']));
        lemma_split_concat(c0, line + seq!['\n'], '\n');
        lemma_count_concat(lines(c0), seq![e], line);
        lemma_count_concat(lines(c0), seq![line, e], line);
        assert(count_of(seq![e], line) == 0) by {
            lemma_count_push(none, e, line);
            assert(none.push(e) == seq![e]);
            assert(line != e);
        }
    } else {
        assert(content + seq!['\n'] + line + seq!['\n'] == content + seq!['\n'] + (line + seq![
            '\n',
        ]));
        lemma_split_concat(content, line + seq!['\n'], '\n');
        lemma_count_concat(lines(content), seq![line, e], line);
    }
}

/// The text with the record added holds the record.
proof fn lemma_with_record_holds(content: Seq<char>, line: Seq<char>)
    ensures
        has_record(with_record(content, line), line),
{
    let n = content.len() as int;
    let r = with_record(content, line);
    if n == 0 || content.last() == '\n' {
        assert(r.subrange(n, n + line.len()) =~= line);
        assert(occurs_at(r, line, n));
    } else {
        assert(r.subrange(n + 1, n + 1 + line.len()) =~= line);
        assert(occurs_at(r, line, n + 1));
    }
}

/// Ensuring the PATH record of a shell configuration file is idempotent:
/// the result always holds the record and a second application changes
/// nothing. When the directory name holds no line feed, a file that did
/// not hold the record ends up with exactly one line equal to it.
pub proof fn lemma_append_to_path_idempotent(shell: Shell, content: Seq<char>, dir: Seq<char>)
    ensures
        has_record(updated_config(content, export_line(shell, dir)), export_line(shell, dir)),
        updated_config(updated_config(content, export_line(shell, dir)), export_line(shell, dir))
            == updated_config(content, export_line(shell, dir)),
        !has_record(content, export_line(shell, dir)) && !dir.contains('\n') ==> count_of(
            lines(updated_config(content, export_line(shell, dir))),
            export_line(shell, dir),
        ) == 1,
{
    let line = export_line(shell, dir);
    if !has_record(content, line) {
        lemma_with_record_holds(content, line);
        if !dir.contains('\n') {
            lemma_export_line_single(shell, dir);
            lemma_split_pieces_occur(content, '\n');
            lemma_count_contains(lines(content), line);
            if lines(content).contains(line) {
                let k = choose|k: int| 0 <= k < lines(content).len() && lines(content)[k] == line;
                assert(occurs_in(content, lines(content)[k]));
            }
            lemma_with_record_count(content, line);
        }
    }
}

} // verus!

verus! {

/// The path separator of `os`.
pub open spec fn path_separator(os: Seq<char>) -> char {
    if os == "windows"@ {
        '\\'
    } else {
        '/'
    }
}

/// Places the downloaded binary into the installation directory.
pub struct Installer {
    platform: Platform,
    install_dir: String,
}

impl Installer {
    pub fn new(platform: Platform, install_dir: String) -> (r: Self)
        ensures
            r.install_dir() == install_dir@,
            r.os() == platform.os@,
            r.extension() == platform.extension@,
    {
        Installer { platform, install_dir }
    }

    pub closed spec fn install_dir(&self) -> Seq<char> {
        self.install_dir@
    }

    pub closed spec fn os(&self) -> Seq<char> {
        self.platform.os@
    }

    pub closed spec fn extension(&self) -> Seq<char> {
        self.platform.extension@
    }

    pub fn get_install_dir(&self) -> (r: &str)
        ensures
            r@ == self.install_dir(),
    {
        self.install_dir.as_str()
    }

    /// The file name of the installed binary: `biome` with the platform's
    /// executable extension.
    pub fn executable_name(&self) -> (r: String)
        ensures
            r@ == "biome"@ + self.extension(),
    {
        let mut r = String::from_str("biome");
        r.append(self.platform.extension.as_str());
        r
    }

    /// Where the binary is installed: the executable name inside the
    /// installation directory.
    pub fn binary_path(&self) -> (r: String)
        ensures
            r@ == joined(self.install_dir(), path_separator(self.os()), "biome"@ + self.extension()),
    {
        let name = self.executable_name();
        proof {
            reveal_strlit("\\");
            reveal_strlit("/");
        }
        if str_eq(self.platform.os.as_str(), "windows") {
            join_path(self.install_dir.as_str(), "\\", name.as_str())
        } else {
            join_path(self.install_dir.as_str(), "/", name.as_str())
        }
    }
}

/// The install target and the PATH state that the PATH manager works on.
pub enum PathTarget {
    /// A POSIX system: the detected shell, the live `PATH` value and the
    /// current text of the shell's configuration file (empty when missing).
    RcFile { shell: Option<Shell>, live_path: String, config: String },
    /// Windows: the user's persistent `PATH` value.
    Registry { user_path: String },
}

/// What to do about `PATH` once the binary is installed.
pub enum PathPlan {
    /// The user asked not to touch `PATH`.
    OptedOut,
    /// The user declined, or could not be asked: print the directory to add.
    Manual,
    /// No known shell: print the directory to add.
    NoShellDetected,
    /// The directory is already reachable; nothing to write.
    AlreadyPresent,
    /// Write this text as the whole shell configuration file.
    WriteConfig(String),
    /// Store this value as the user's persistent `PATH`.
    WriteRegistry(String),
}

/// Whether `plan` is what the PATH manager owes for the directory `dir` and
/// the PATH state `target`: no shell means no automation; a directory that
/// is already reachable is left alone; otherwise the record is added.
pub open spec fn records(dir: Seq<char>, target: PathTarget, plan: PathPlan) -> bool {
    match plan {
        PathPlan::NoShellDetected => target matches PathTarget::RcFile { shell: None, .. },
        PathPlan::AlreadyPresent => match target {
            PathTarget::RcFile { shell, live_path, config } => shell matches Some(s) && (
            in_path_list(live_path@, dir) || has_record(config@, export_line(s, dir))),
            PathTarget::Registry { user_path } => registry_path_after(user_path@, dir) is None,
        },
        PathPlan::WriteConfig(c) => target matches PathTarget::RcFile {
            shell: Some(s),
            live_path,
            config,
        } && !in_path_list(live_path@, dir) && !has_record(config@, export_line(s, dir)) && c@
            == with_record(config@, export_line(s, dir)),
        PathPlan::WriteRegistry(p) => target matches PathTarget::Registry { user_path }
            && registry_path_after(user_path@, dir) == Some(p@),
        _ => false,
    }
}

impl Installer {
    /// The change that makes the installation directory reachable on `PATH`
    /// in future sessions, for the PATH state `target`.
    pub fn prepend_install_dir_to_path(&self, target: &PathTarget) -> (r: PathPlan)
        ensures
            records(self.install_dir(), *target, r),
            (*target matches PathTarget::RcFile { live_path, .. } && in_path_list(
                live_path@,
                self.install_dir(),
            )) ==> (r is AlreadyPresent || r is NoShellDetected),
    {
        match target {
            PathTarget::RcFile { shell, live_path, config } => {
                let unix = UnixInstaller::new(self.install_dir.clone());
                match unix.update_path(*shell, live_path.as_str(), config.as_str()) {
                    PathEdit::NoShellDetected => PathPlan::NoShellDetected,
                    PathEdit::AlreadyPresent => PathPlan::AlreadyPresent,
                    PathEdit::Write(c) => PathPlan::WriteConfig(c),
                }
            },
            PathTarget::Registry { user_path } => {
                let windows = WindowsInstaller::new(self.install_dir.clone());
                match windows.update_path(user_path.as_str()) {
                    Some(p) => PathPlan::WriteRegistry(p),
                    None => PathPlan::AlreadyPresent,
                }
            },
        }
    }
}

} // verus!
