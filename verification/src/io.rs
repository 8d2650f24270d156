//! Paths, and the directory a command writes into.
//!
//! A path is a string in which `/` separates the components. A path that
//! begins with `/` is absolute.

use vstd::prelude::*;
use crate::error::{CliError, CliErrorKind, CliErrorModel};
use crate::operation::{
    Action,
    ActionModel,
    Announcement,
    AnnouncementModel,
    Guard,
    Operation,
    OperationModel,
    Removal,
};
use crate::text::{
    chars_of,
    join2,
    join3,
    text_of_range,
    trim_end_matches,
    trimmed_end,
    trimmed_start,
};

verus! {

/// A path of the standard library. The library hands paths out in this form
/// and never looks inside one.
#[verifier::external_type_specification]
#[verifier::external_body]
pub struct ExPathBuf(std::path::PathBuf);

/// The path that `PathBuf::from` makes of a text.
pub uninterp spec fn text_path(text: Seq<char>) -> std::path::PathBuf;

/// Calls `PathBuf::from` on a string. The contract claims only that the
/// path is a function of the string's text.
#[verifier::external_body]
fn pathbuf_of(text: &String) -> (path: std::path::PathBuf)
    ensures
        path == text_path(text@),
{
    std::path::PathBuf::from(text)
}

/// Whether the path begins at the root.
pub open spec fn is_absolute(path: Seq<char>) -> bool {
    path.len() > 0 && path[0] == '/'
}

/// Whether the path ends with a separator.
pub open spec fn ends_with_separator(path: Seq<char>) -> bool {
    path.len() > 0 && path.last() == '/'
}

/// `name` seen from `base`: an absolute `name` stands for itself, and so
/// does any `name` seen from the empty path; otherwise `name` follows
/// `base`, with one separator between them unless `base` ends with one.
pub open spec fn joined(base: Seq<char>, name: Seq<char>) -> Seq<char> {
    if is_absolute(name) || base.len() == 0 {
        name
    } else if ends_with_separator(base) {
        base + name
    } else {
        base + "/"@ + name
    }
}

/// The component that the characters `current` make up, as a list: none
/// where there are no characters, and none for the component `.`.
pub open spec fn component_of(current: Seq<char>) -> Seq<Seq<char>> {
    if current.len() == 0 || (current.len() == 1 && current[0] == '.') {
        Seq::empty()
    } else {
        seq![current]
    }
}

/// The components of `current` followed by `path`, where `current` holds
/// the characters of a component that has begun.
pub open spec fn components_from(path: Seq<char>, current: Seq<char>) -> Seq<Seq<char>>
    decreases path.len(),
{
    if path.len() == 0 {
        component_of(current)
    } else if path[0] == '/' {
        component_of(current) + components_from(path.skip(1), Seq::empty())
    } else {
        components_from(path.skip(1), current.push(path[0]))
    }
}

/// The components of a path: what stands between its separators, from left
/// to right, without the empty components and without the components `.`.
/// A component `..` is kept.
pub open spec fn components(path: Seq<char>) -> Seq<Seq<char>> {
    components_from(path, Seq::empty())
}

/// The root that an absolute path begins at: two separators where the path
/// begins with exactly two, one otherwise.
pub open spec fn root_of(path: Seq<char>) -> Seq<char> {
    if path.len() >= 2 && path[0] == '/' && path[1] == '/' && (path.len() == 2 || path[2]
        != '/') {
        seq!['/', '/']
    } else {
        seq!['/']
    }
}

/// The names seen from `base`, one after the other.
pub open spec fn seen_from(base: Seq<char>, names: Seq<Seq<char>>) -> Seq<char>
    decreases names.len(),
{
    if names.len() == 0 {
        base
    } else {
        seen_from(joined(base, names[0]), names.skip(1))
    }
}

/// The absolute form of `path` for a process whose current directory is
/// `current_dir`: the components of the path, seen from the root where the
/// path is absolute and from the current directory where it is not. The
/// form holds no component `.`, no separator twice in a row behind its
/// start, and no separator at its end unless it is the root or the current
/// directory ends with one. Components `..` are not resolved.
pub open spec fn absolute_form(path: Seq<char>, current_dir: Seq<char>) -> Seq<char> {
    seen_from(
        if is_absolute(path) {
            root_of(path)
        } else {
            current_dir
        },
        components(path),
    )
}

/// The path with a leading `~` replaced by the home directory.
pub open spec fn home_expanded(path: Seq<char>, home: Seq<char>) -> Seq<char> {
    joined(home, trimmed_start(path.skip(1), '/'))
}

/// Whether the path ends with a separator or a dot.
pub open spec fn ends_with_separator_or_dot(path: Seq<char>) -> bool {
    path.len() > 0 && (path.last() == '/' || path.last() == '.')
}

/// The path without the separators and dots at its end: what is left ends
/// with neither.
pub open spec fn without_trailing_slashes(path: Seq<char>) -> Seq<char>
    decreases path.len(),
{
    if ends_with_separator_or_dot(path) {
        without_trailing_slashes(path.drop_last())
    } else {
        path
    }
}

/// The name of the environment variable that holds the home directory on a
/// family of operating systems: `USERPROFILE` on Windows, `HOME` elsewhere.
pub open spec fn spec_home_variable(os: Seq<char>) -> Seq<char> {
    if os == "windows"@ {
        "USERPROFILE"@
    } else {
        "HOME"@
    }
}

/// The name of the environment variable that holds the home directory.
pub fn home_variable(os: &str) -> (name: &'static str)
    ensures
        name@ == spec_home_variable(os@),
{
    if crate::text::same_text(os, "windows") {
        "USERPROFILE"
    } else {
        "HOME"
    }
}

/// `name` seen from `base`.
pub fn join_path(base: &str, name: &str) -> (path: String)
    ensures
        path@ == joined(base@, name@),
{
    let base_chars = chars_of(base);
    let name_chars = chars_of(name);
    if (name_chars.len() > 0 && name_chars[0] == '/') || base_chars.len() == 0 {
        name.to_owned()
    } else if base_chars[base_chars.len() - 1] == '/' {
        join2(base, name)
    } else {
        join3(base, "/", name)
    }
}

/// The components of a path.
pub fn components_of(path: &str) -> (names: Vec<String>)
    ensures
        names.deep_view() == components(path@),
{
    let chars = chars_of(path);
    let mut names: Vec<String> = Vec::new();
    let mut current: Vec<char> = Vec::new();
    let mut i: usize = 0;
    assert(chars@.skip(0) == chars@);
    assert(names.deep_view() =~= Seq::<Seq<char>>::empty());
    while i < chars.len()
        invariant
            i <= chars.len(),
            names.deep_view() + components_from(chars@.skip(i as int), current@) == components(
                chars@,
            ),
        decreases chars.len() - i,
    {
        let ghost before = names.deep_view();
        let ghost rest = chars@.skip(i as int);
        assert(rest[0] == chars@[i as int]);
        assert(rest.skip(1) == chars@.skip(i + 1));
        if chars[i] == '/' {
            if current.len() > 0 && !(current.len() == 1 && current[0] == '.') {
                names.push(crate::text::text_of(&current));
                assert(names.deep_view() =~= before + component_of(current@));
            }
            assert(names.deep_view() + components_from(rest.skip(1), Seq::empty()) == before + (
            component_of(current@) + components_from(rest.skip(1), Seq::empty())));
            current = Vec::new();
        } else {
            current.push(chars[i]);
        }
        i += 1;
    }
    let ghost before = names.deep_view();
    if current.len() > 0 && !(current.len() == 1 && current[0] == '.') {
        names.push(crate::text::text_of(&current));
        assert(names.deep_view() =~= before + component_of(current@));
    }
    names
}

/// The names seen from `base`, one after the other.
pub fn join_all(base: &str, names: &Vec<String>) -> (path: String)
    ensures
        path@ == seen_from(base@, names.deep_view()),
{
    let mut path = base.to_owned();
    let mut i: usize = 0;
    assert(names.deep_view().skip(0) == names.deep_view());
    while i < names.len()
        invariant
            i <= names.len(),
            seen_from(path@, names.deep_view().skip(i as int)) == seen_from(
                base@,
                names.deep_view(),
            ),
        decreases names.len() - i,
    {
        let ghost rest = names.deep_view().skip(i as int);
        assert(rest[0] == names@[i as int]@);
        assert(rest.skip(1) == names.deep_view().skip(i + 1));
        path = join_path(path.as_str(), names[i].as_str());
        i += 1;
    }
    path
}

/// The absolute form of `path` for a process whose current directory is
/// `current_dir`.
pub fn make_absolute(path: &str, current_dir: &str) -> (absolute: String)
    ensures
        absolute@ == absolute_form(path@, current_dir@),
{
    let chars = chars_of(path);
    let names = components_of(path);
    if chars.len() > 0 && chars[0] == '/' {
        let mut root: Vec<char> = Vec::new();
        root.push('/');
        if chars.len() >= 2 && chars[1] == '/' && (chars.len() == 2 || chars[2] != '/') {
            root.push('/');
            assert(root@ =~= seq!['/', '/']);
        } else {
            assert(root@ =~= seq!['/']);
        }
        let base = crate::text::text_of(&root);
        join_all(base.as_str(), &names)
    } else {
        join_all(current_dir, &names)
    }
}

/// The directory a command writes into.
#[derive(Clone, Debug, PartialEq)]
pub struct OutputDirectory {
    /// The directory's path.
    pub path: String,
}

impl View for OutputDirectory {
    type V = Seq<char>;

    open spec fn view(&self) -> Seq<char> {
        self.path@
    }
}

impl OutputDirectory {
    /// The output directory that is the current directory.
    pub fn from_current_dir(current_dir: &str) -> (directory: Self)
        ensures
            directory@ == current_dir@,
    {
        OutputDirectory { path: current_dir.to_owned() }
    }

    /// The output directory for a path given on the command line: its
    /// canonical form where the file system knows one, else its absolute
    /// form.
    pub fn from_os_string(canonical: Option<String>, absolute: String) -> (directory: Self)
        ensures
            directory@ == (match canonical {
                Some(path) => path@,
                None => absolute@,
            }),
    {
        match canonical {
            Some(path) => OutputDirectory { path },
            None => OutputDirectory { path: absolute },
        }
    }

    /// The directory's path as a `PathBuf`.
    pub fn as_pathbuf(&self) -> (path: std::path::PathBuf)
        ensures
            path == text_path(self@),
    {
        pathbuf_of(&self.path)
    }

    /// Replaces a leading `~` by the home directory, and returns the
    /// directory as it then is.
    ///
    /// `home` is the value of the home directory variable, None where the
    /// variable is not defined. A path that begins with `~` cannot be
    /// resolved without it: the directory is then left as it is and the
    /// error says that the operating system is not supported. A path that
    /// does not begin with `~` is left as it is.
    pub fn resolve_home_dir(&mut self, home: Option<&str>) -> (resolved: Result<
        OutputDirectory,
        CliError,
    >)
        ensures
            final(self)@ == (match home_resolved(old(self)@, home.deep_view()) {
                Some(path) => path,
                None => old(self)@,
            }),
            match resolved {
                Ok(directory) => home_resolved(old(self)@, home.deep_view()) == Some(directory@),
                Err(error) => home_resolved(old(self)@, home.deep_view()) is None && error@
                    == unsupported_operating_system(),
            },
    {
        let chars = chars_of(self.path.as_str());
        if chars.len() > 0 && chars[0] == '~' {
            match home {
                None => {
                    return Err(
                        CliError::new(
                            "The operating system is not supported.",
                            CliErrorKind::UnsupportedOperatingSystem,
                        ),
                    );
                },
                Some(home_dir) => {
                    let tail = text_of_range(&chars, 1, chars.len());
                    assert(chars@.subrange(1, chars@.len() as int) == chars@.skip(1));
                    let rest = crate::text::trim_start_matches(tail.as_str(), '/');
                    self.path = join_path(home_dir, rest.as_str());
                },
            }
        }
        Ok(OutputDirectory { path: self.path.clone() })
    }

    /// Removes the separators and dots at the end of the path, until
    /// neither is left there, and returns the directory as it then is. What
    /// is left ends with no separator and no dot, and trimming it again
    /// changes nothing. This never fails.
    pub fn trim_trailing_slashes(&mut self) -> (trimmed: Result<OutputDirectory, CliError>)
        ensures
            final(self)@ == without_trailing_slashes(old(self)@),
            !ends_with_separator_or_dot(final(self)@),
            without_trailing_slashes(final(self)@) == final(self)@,
            trimmed matches Ok(directory) && directory@ == final(self)@,
    {
        let chars = chars_of(self.path.as_str());
        let mut end: usize = chars.len();
        assert(chars@.take(end as int) == chars@);
        while end > 0 && (chars[end - 1] == '/' || chars[end - 1] == '.')
            invariant
                end <= chars.len(),
                without_trailing_slashes(chars@.take(end as int)) == without_trailing_slashes(
                    chars@,
                ),
            decreases end,
        {
            assert(chars@.take(end as int).drop_last() == chars@.take(end - 1));
            end -= 1;
        }
        self.path = text_of_range(&chars, 0, end);
        assert(chars@.subrange(0, end as int) == chars@.take(end as int));
        Ok(OutputDirectory { path: self.path.clone() })
    }

    /// Creates the directory if it does not exist.
    pub fn create_if_not_exists(&self) -> (operation: Operation)
        ensures
            operation@ == directory_ensured(self@),
    {
        Operation {
            announcement: Announcement::Silent,
            save_cursor: false,
            target: self.path.clone(),
            guard: Guard::IfAbsent,
            removal: Removal::File,
            action: Action::CreateDirectory,
        }
    }

    /// The absolute form of the directory's path for a process whose current
    /// directory is `current_dir`.
    pub fn to_absolute(&self, current_dir: &str) -> (absolute: String)
        ensures
            absolute@ == absolute_form(self@, current_dir@),
    {
        make_absolute(self.path.as_str(), current_dir)
    }

    /// The last component of the path, if it has one: what follows the last
    /// separator, unless that is empty, `.` or `..`.
    pub fn file_name(&self) -> (name: Option<String>)
        ensures
            match name {
                Some(text) => spec_file_name(self@) == Some(text@),
                None => spec_file_name(self@) is None,
            },
    {
        file_name(self.path.as_str())
    }
}

/// Whether the path begins with `~`.
pub open spec fn starts_with_tilde(path: Seq<char>) -> bool {
    path.len() > 0 && path[0] == '~'
}

/// The path once a leading `~` is resolved: the path itself where it does
/// not begin with `~`, the path below the home directory where it does and
/// the home directory is known, and None where it does and the home
/// directory is not known.
pub open spec fn home_resolved(path: Seq<char>, home: Option<Seq<char>>) -> Option<Seq<char>> {
    if starts_with_tilde(path) {
        match home {
            Some(home_dir) => Some(home_expanded(path, home_dir)),
            None => None,
        }
    } else {
        Some(path)
    }
}

/// The error of a path that begins with `~` where no home directory is
/// known.
pub open spec fn unsupported_operating_system() -> CliErrorModel {
    CliErrorModel {
        message: "The operating system is not supported."@,
        kind: CliErrorKind::UnsupportedOperatingSystem,
    }
}

/// The operation that makes the directory at `path`, without a word, if it
/// is not there.
pub open spec fn directory_ensured(path: Seq<char>) -> OperationModel {
    OperationModel {
        announcement: AnnouncementModel::Silent,
        save_cursor: false,
        target: path,
        guard: Guard::IfAbsent,
        removal: Removal::File,
        action: ActionModel::CreateDirectory,
    }
}

/// Where the last component of `path` begins: behind the last separator, or
/// at the start where there is none.
pub open spec fn last_component_start(path: Seq<char>) -> int
    decreases path.len(),
{
    if path.len() == 0 || path.last() == '/' {
        path.len() as int
    } else {
        last_component_start(path.drop_last())
    }
}

/// The last component of `path` once the separators at its end are set
/// aside, if it names a file or directory: None for the empty path, the
/// root, `.` and `..`.
pub open spec fn spec_file_name(path: Seq<char>) -> Option<Seq<char>> {
    let trimmed = trimmed_end(path, '/');
    let name = trimmed.skip(last_component_start(trimmed));
    if name.len() == 0 || name == "."@ || name == ".."@ {
        None
    } else {
        Some(name)
    }
}

/// The part of a file name before its extension: the whole name where it
/// has no dot behind its first character, else what stands before the last
/// dot.
pub open spec fn spec_file_stem(name: Seq<char>) -> Seq<char> {
    match last_dot(name) {
        Some(at) => name.take(at),
        None => name,
    }
}

/// The extension of a file name: what follows the last dot, where the name
/// has a dot behind its first character.
pub open spec fn spec_extension(name: Seq<char>) -> Option<Seq<char>> {
    match last_dot(name) {
        Some(at) => Some(name.skip(at + 1)),
        None => None,
    }
}

/// Whether `at` is the place of the last dot of `name`, the first character
/// aside.
pub open spec fn is_last_dot(name: Seq<char>, at: int) -> bool {
    &&& 0 < at < name.len()
    &&& name[at] == '.'
    &&& forall|j: int| at < j < name.len() ==> name[j] != '.'
}

/// The place of the last dot of `name`, the first character aside.
pub open spec fn last_dot(name: Seq<char>) -> Option<int> {
    if exists|at: int| is_last_dot(name, at) {
        Some(choose|at: int| is_last_dot(name, at))
    } else {
        None
    }
}

fn find_last_dot(name: &Vec<char>) -> (found: Option<usize>)
    ensures
        match found {
            Some(at) => last_dot(name@) == Some(at as int),
            None => last_dot(name@) is None,
        },
{
    let mut i: usize = name.len();
    while i > 1
        invariant
            i <= name.len(),
            forall|j: int| i <= j < name.len() ==> name@[j] != '.',
        decreases i,
    {
        i -= 1;
        if name[i] == '.' {
            proof {
                assert(is_last_dot(name@, i as int));
                let chosen = choose|at: int| is_last_dot(name@, at);
                if chosen < i {
                } else if i < chosen {
                }
            }
            return Some(i);
        }
    }
    assert forall|at: int| !is_last_dot(name@, at) by {
        if is_last_dot(name@, at) {
            assert(name@[at] == '.');
        }
    }
    None
}

/// The last component of `path`, if it names a file or directory.
pub fn file_name(path: &str) -> (name: Option<String>)
    ensures
        match name {
            Some(text) => spec_file_name(path@) == Some(text@),
            None => spec_file_name(path@) is None,
        },
{
    let trimmed = trim_end_matches(path, '/');
    let chars = chars_of(trimmed.as_str());
    let mut start: usize = chars.len();
    assert(chars@.take(chars@.len() as int) == chars@);
    while start > 0 && chars[start - 1] != '/'
        invariant
            start <= chars.len(),
            last_component_start(chars@.take(start as int)) == last_component_start(chars@),
        decreases start,
    {
        assert(chars@.take(start as int).drop_last() == chars@.take(start - 1));
        start -= 1;
    }
    assert(last_component_start(chars@) == start) by {
        let head = chars@.take(start as int);
        if start > 0 {
            assert(head.last() == '/');
        }
    }
    let name = text_of_range(&chars, start, chars.len());
    assert(chars@.subrange(start as int, chars@.len() as int) == chars@.skip(start as int));
    if name.as_str().unicode_len() == 0 || crate::text::same_text(name.as_str(), ".")
        || crate::text::same_text(name.as_str(), "..") {
        None
    } else {
        Some(name)
    }
}

/// The part of a file name before its extension.
pub fn file_stem(name: &str) -> (stem: String)
    ensures
        stem@ == spec_file_stem(name@),
{
    let chars = chars_of(name);
    match find_last_dot(&chars) {
        Some(at) => {
            let stem = text_of_range(&chars, 0, at);
            assert(chars@.subrange(0, at as int) == chars@.take(at as int));
            stem
        },
        None => name.to_owned(),
    }
}

/// The extension of a file name, if it has one.
pub fn extension(name: &str) -> (found: Option<String>)
    ensures
        match found {
            Some(text) => spec_extension(name@) == Some(text@),
            None => spec_extension(name@) is None,
        },
{
    let chars = chars_of(name);
    match find_last_dot(&chars) {
        Some(at) => {
            let text = text_of_range(&chars, at + 1, chars.len());
            assert(chars@.subrange(at + 1, chars@.len() as int) == chars@.skip(at + 1));
            Some(text)
        },
        None => None,
    }
}

/// The directory that holds the last component of `path`: what stands
/// before the last component, without the separators at its end; the root
/// for what lies directly below the root.
pub open spec fn parent(path: Seq<char>) -> Seq<char> {
    let trimmed = trimmed_end(path, '/');
    let head = trimmed.take(last_component_start(trimmed));
    if head.len() > 0 && trimmed_end(head, '/').len() == 0 {
        "/"@
    } else {
        trimmed_end(head, '/')
    }
}

/// `path` as seen from `base`, where `path` lies in or below `base`: what
/// follows `base` in `path`, without the separators at its start. None
/// where `path` does not begin with `base`, or goes on behind it within the
/// same component.
pub open spec fn relative_to(path: Seq<char>, base: Seq<char>) -> Option<Seq<char>> {
    if base.len() <= path.len() && path.take(base.len() as int) == base && (base.len()
        == path.len() || ends_with_separator(base) || path[base.len() as int] == '/') {
        Some(trimmed_start(path.skip(base.len() as int), '/'))
    } else {
        None
    }
}

/// The directory that holds the last component of `path`.
pub fn parent_of(path: &str) -> (directory: String)
    ensures
        directory@ == parent(path@),
{
    let trimmed = trim_end_matches(path, '/');
    let chars = chars_of(trimmed.as_str());
    let mut start: usize = chars.len();
    assert(chars@.take(chars@.len() as int) == chars@);
    while start > 0 && chars[start - 1] != '/'
        invariant
            start <= chars.len(),
            last_component_start(chars@.take(start as int)) == last_component_start(chars@),
        decreases start,
    {
        assert(chars@.take(start as int).drop_last() == chars@.take(start - 1));
        start -= 1;
    }
    assert(last_component_start(chars@) == start) by {
        let head = chars@.take(start as int);
        if start > 0 {
            assert(head.last() == '/');
        }
    }
    let head = text_of_range(&chars, 0, start);
    assert(chars@.subrange(0, start as int) == chars@.take(start as int));
    let directory = trim_end_matches(head.as_str(), '/');
    if start > 0 && directory.as_str().unicode_len() == 0 {
        "/".to_owned()
    } else {
        directory
    }
}

/// `path` as seen from `base`, where `path` lies in or below `base`.
pub fn strip_prefix(path: &str, base: &str) -> (relative: Option<String>)
    ensures
        match relative {
            Some(text) => relative_to(path@, base@) == Some(text@),
            None => relative_to(path@, base@) is None,
        },
{
    let path_chars = chars_of(path);
    let base_chars = chars_of(base);
    if base_chars.len() > path_chars.len() {
        return None;
    }
    if !crate::text::token_at(&path_chars, &base_chars, 0) {
        assert(path_chars@.subrange(0, base_chars@.len() as int) == path_chars@.take(
            base_chars@.len() as int,
        ));
        return None;
    }
    assert(path_chars@.subrange(0, base_chars@.len() as int) == path_chars@.take(
        base_chars@.len() as int,
    ));
    let whole = base_chars.len() == path_chars.len();
    let closed = base_chars.len() > 0 && base_chars[base_chars.len() - 1] == '/';
    if whole || closed || path_chars[base_chars.len()] == '/' {
        let tail = text_of_range(&path_chars, base_chars.len(), path_chars.len());
        assert(path_chars@.subrange(base_chars@.len() as int, path_chars@.len() as int)
            == path_chars@.skip(base_chars@.len() as int));
        Some(crate::text::trim_start_matches(tail.as_str(), '/'))
    } else {
        None
    }
}

/// Whether each of the names is a component: it is not empty, holds no
/// separator and is not `.`.
pub open spec fn are_names(names: Seq<Seq<char>>) -> bool {
    forall|i: int|
        0 <= i < names.len() ==> {
            &&& (#[trigger] names[i]).len() > 0
            &&& !names[i].contains('/')
            &&& !(names[i].len() == 1 && names[i][0] == '.')
        }
}

proof fn lemma_components_from_are_names(path: Seq<char>, current: Seq<char>)
    requires
        !current.contains('/'),
    ensures
        are_names(components_from(path, current)),
    decreases path.len(),
{
    if path.len() == 0 {
    } else if path[0] == '/' {
        lemma_components_from_are_names(path.skip(1), Seq::empty());
    } else {
        let longer = current.push(path[0]);
        assert forall|j: int| 0 <= j < longer.len() implies longer[j] != '/' by {
            if j < current.len() {
                assert(current.contains(current[j]));
            }
        }
        lemma_components_from_are_names(path.skip(1), longer);
    }
}

/// The components of a path are names: none is empty, none holds a
/// separator, none is `.`.
pub proof fn lemma_components_are_names(path: Seq<char>)
    ensures
        are_names(components(path)),
{
    lemma_components_from_are_names(path, Seq::empty());
}

proof fn lemma_components_from_last(path: Seq<char>, current: Seq<char>)
    requires
        path.len() > 0,
        !ends_with_separator_or_dot(path),
    ensures
        components_from(path, current).len() > 0,
    decreases path.len(),
{
    if path[0] == '/' {
        assert(path.len() > 1);
        assert(path.skip(1).last() == path.last());
        lemma_components_from_last(path.skip(1), Seq::empty());
    } else if path.len() == 1 {
        assert(path.skip(1).len() == 0);
        assert(current.push(path[0]).last() == path[0]);
    } else {
        assert(path.skip(1).last() == path.last());
        lemma_components_from_last(path.skip(1), current.push(path[0]));
    }
}

/// A path that ends with neither a separator nor a dot has a component.
pub proof fn lemma_components_of_trimmed(path: Seq<char>)
    requires
        path.len() > 0,
        !ends_with_separator_or_dot(path),
    ensures
        components(path).len() > 0,
{
    lemma_components_from_last(path, Seq::empty());
}

/// Names seen from an absolute path give an absolute path, and one that
/// ends with a separator only where there are no names and the path they
/// are seen from ends with one.
pub proof fn lemma_seen_from(base: Seq<char>, names: Seq<Seq<char>>)
    requires
        are_names(names),
    ensures
        is_absolute(base) ==> is_absolute(seen_from(base, names)),
        ends_with_separator(seen_from(base, names)) ==> names.len() == 0 && ends_with_separator(
            base,
        ),
    decreases names.len(),
{
    if names.len() > 0 {
        let name = names[0];
        let next = joined(base, name);
        assert(name.len() > 0);
        assert(name.contains(name[0]));
        assert(name.contains(name.last()));
        assert(next.last() == name.last());
        assert(is_absolute(base) ==> next[0] == base[0]);
        assert forall|i: int| 0 <= i < names.skip(1).len() implies {
            &&& (#[trigger] names.skip(1)[i]).len() > 0
            &&& !names.skip(1)[i].contains('/')
            &&& !(names.skip(1)[i].len() == 1 && names.skip(1)[i][0] == '.')
        } by {
            assert(names.skip(1)[i] == names[i + 1]);
        }
        lemma_seen_from(next, names.skip(1));
    }
}

/// An absolute current directory gives an absolute form.
pub proof fn lemma_absolute_form_is_absolute(path: Seq<char>, current_dir: Seq<char>)
    requires
        is_absolute(current_dir),
    ensures
        is_absolute(absolute_form(path, current_dir)),
{
    lemma_components_are_names(path);
    lemma_seen_from(root_of(path), components(path));
    lemma_seen_from(current_dir, components(path));
}

/// Trimming leaves a start of the path that ends with neither a separator
/// nor a dot, and that trimming leaves as it is.
pub proof fn lemma_without_trailing_slashes(path: Seq<char>)
    ensures
        without_trailing_slashes(path).len() <= path.len(),
        without_trailing_slashes(path) == path.take(without_trailing_slashes(path).len() as int),
        !ends_with_separator_or_dot(without_trailing_slashes(path)),
        !ends_with_separator(without_trailing_slashes(path)),
        without_trailing_slashes(without_trailing_slashes(path)) == without_trailing_slashes(path),
    decreases path.len(),
{
    if ends_with_separator_or_dot(path) {
        lemma_without_trailing_slashes(path.drop_last());
        let kept = without_trailing_slashes(path.drop_last());
        assert(path.drop_last().take(kept.len() as int) == path.take(kept.len() as int));
    } else {
        assert(path.take(path.len() as int) == path);
    }
}

/// Whether the path is a relative name that is not empty.
pub open spec fn is_name(name: Seq<char>) -> bool {
    name.len() > 0 && !is_absolute(name)
}

/// Seen from a path that is not empty, names that differ give paths that
/// differ, and none gives the path itself.
pub proof fn lemma_joined_names_differ(base: Seq<char>)
    requires
        base.len() > 0,
    ensures
        forall|first: Seq<char>, second: Seq<char>|
            is_name(first) && is_name(second) && first != second ==> #[trigger] joined(base, first)
                != #[trigger] joined(base, second),
        forall|name: Seq<char>| is_name(name) ==> #[trigger] joined(base, name) != base,
{
    assert forall|first: Seq<char>, second: Seq<char>|
        is_name(first) && is_name(second) && first != second implies #[trigger] joined(
        base,
        first,
    ) != #[trigger] joined(base, second) by {
        if joined(base, first) == joined(base, second) {
            lemma_joined_injective(base, first, second);
        }
    }
    assert forall|name: Seq<char>| is_name(name) implies #[trigger] joined(base, name)
        != base by {
        lemma_joined_below(base, name);
    }
}

/// A relative name that is not empty, seen from a path that is not empty,
/// gives a longer path that begins with that path.
pub proof fn lemma_joined_below(base: Seq<char>, name: Seq<char>)
    requires
        base.len() > 0,
        name.len() > 0,
        !is_absolute(name),
    ensures
        joined(base, name).len() > base.len(),
        joined(base, name).take(base.len() as int) == base,
{
    assert(joined(base, name).take(base.len() as int) =~= base);
}

/// Two relative names that give the same path seen from one path are the
/// same name.
pub proof fn lemma_joined_injective(base: Seq<char>, first: Seq<char>, second: Seq<char>)
    requires
        !is_absolute(first),
        !is_absolute(second),
        joined(base, first) == joined(base, second),
    ensures
        first == second,
{
    let whole = joined(base, first);
    if base.len() == 0 {
    } else if ends_with_separator(base) {
        assert(first =~= whole.skip(base.len() as int));
        assert(second =~= whole.skip(base.len() as int));
    } else {
        assert(first =~= whole.skip((base.len() + "/"@.len()) as int));
        assert(second =~= whole.skip((base.len() + "/"@.len()) as int));
    }
}

/// A name seen from a name seen from a path is the two names, with a
/// separator between them, seen from that path.
pub proof fn lemma_joined_twice(base: Seq<char>, first: Seq<char>, second: Seq<char>)
    requires
        base.len() > 0,
        first.len() > 0,
        !is_absolute(first),
        !ends_with_separator(first),
        !is_absolute(second),
    ensures
        joined(joined(base, first), second) == joined(base, first + "/"@ + second),
        !is_absolute(first + "/"@ + second),
        (first + "/"@ + second).len() > 0,
{
    let inner = joined(base, first);
    assert(inner.last() == first.last());
    assert((first + "/"@ + second)[0] == first[0]);
    assert(joined(inner, second) =~= joined(base, first + "/"@ + second));
}

/// A directory that is given below the home directory, as `~/` and a
/// relative path, is resolved to that path below the home directory.
pub proof fn lemma_home_expanded_below_home(home: Seq<char>, rest: Seq<char>)
    requires
        home.len() > 0,
        !ends_with_separator(home),
        rest.len() == 0 || rest[0] != '/',
    ensures
        home_resolved("~/"@ + rest, Some(home)) == Some(home + "/"@ + rest),
{
    reveal_strlit("~/");
    reveal_strlit("/");
    let path = "~/"@ + rest;
    assert(path.skip(1) =~= "/"@ + rest);
    assert(path.skip(1).skip(1) =~= rest);
    reveal_with_fuel(crate::text::trimmed_start, 2);
    assert(trimmed_start(path.skip(1), '/') == rest);
}

/// The absolute form of a trimmed directory is absolute and ends with no
/// separator, where the current directory is absolute and ends with none.
pub proof fn lemma_resolved_directory_form(path: Seq<char>, current_dir: Seq<char>)
    requires
        is_absolute(current_dir),
        !ends_with_separator(current_dir),
    ensures
        is_absolute(absolute_form(without_trailing_slashes(path), current_dir)),
        !ends_with_separator(absolute_form(without_trailing_slashes(path), current_dir)),
{
    let trimmed = without_trailing_slashes(path);
    lemma_without_trailing_slashes(path);
    lemma_absolute_form_is_absolute(trimmed, current_dir);
    lemma_components_are_names(trimmed);
    lemma_seen_from(root_of(trimmed), components(trimmed));
    lemma_seen_from(current_dir, components(trimmed));
    if is_absolute(trimmed) {
        lemma_components_of_trimmed(trimmed);
    }
}

} // verus!
