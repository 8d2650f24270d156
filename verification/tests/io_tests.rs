use std::path::PathBuf;
use vscodeconfigurator::error::CliErrorKind;
use vscodeconfigurator::io::{
    components_of, extension, file_name, file_stem, home_variable, join_all, join_path,
    make_absolute, parent_of, strip_prefix, OutputDirectory,
};
use vscodeconfigurator::operation::{Action, Announcement, Guard};

fn directory(path: &str) -> OutputDirectory {
    OutputDirectory { path: path.to_string() }
}

#[test]
fn tilde_path_resolves_below_home() {
    let mut output_directory = directory("~/proj");
    let resolved = output_directory.resolve_home_dir(Some("/home/u")).unwrap();
    assert_eq!(resolved.path, "/home/u/proj");
    assert_eq!(output_directory.path, "/home/u/proj");
    assert_eq!(resolved.to_absolute("/somewhere/else"), "/home/u/proj");
}

#[test]
fn tilde_alone_resolves_to_home() {
    let mut output_directory = directory("~");
    let mut resolved = output_directory.resolve_home_dir(Some("/home/u")).unwrap();
    let trimmed = resolved.trim_trailing_slashes().unwrap();
    assert_eq!(trimmed.path, "/home/u");
}

#[test]
fn tilde_path_without_home_is_unsupported() {
    let mut output_directory = directory("~/proj");
    let error = output_directory.resolve_home_dir(None).unwrap_err();
    assert_eq!(error.kind, CliErrorKind::UnsupportedOperatingSystem);
    assert_eq!(error.message, "The operating system is not supported.");
    assert_eq!(output_directory.path, "~/proj");
}

#[test]
fn path_without_tilde_ignores_home() {
    let mut output_directory = directory("proj/~");
    assert_eq!(output_directory.resolve_home_dir(None).unwrap().path, "proj/~");
    assert_eq!(output_directory.resolve_home_dir(Some("/home/u")).unwrap().path, "proj/~");
}

#[test]
fn relative_path_becomes_absolute_without_trailing_slash() {
    let mut output_directory = directory("./proj/");
    let trimmed = output_directory.trim_trailing_slashes().unwrap();
    assert_eq!(trimmed.path, "./proj");
    let absolute = trimmed.to_absolute("/work/dir");
    assert_eq!(absolute, "/work/dir/proj");
    assert!(absolute.starts_with('/'));
    assert!(!absolute.ends_with('/'));
}

#[test]
fn trim_trailing_slashes_and_dots() {
    let mut output_directory = directory("proj///");
    assert_eq!(output_directory.trim_trailing_slashes().unwrap().path, "proj");
    assert_eq!(output_directory.path, "proj");
    let mut dot = directory("proj/.");
    assert_eq!(dot.trim_trailing_slashes().unwrap().path, "proj");
    assert_eq!(dot.path, "proj");
    let mut inner = directory("a/./");
    assert_eq!(inner.trim_trailing_slashes().unwrap().path, "a");
    let mut dots = directory("proj/..");
    assert_eq!(dots.trim_trailing_slashes().unwrap().path, "proj");
    let mut plain = directory("/a/b");
    assert_eq!(plain.trim_trailing_slashes().unwrap().path, "/a/b");
    let mut here = directory(".");
    assert_eq!(here.trim_trailing_slashes().unwrap().path, "");
    let mut root = directory("/");
    assert_eq!(root.trim_trailing_slashes().unwrap().path, "");
    let mut mixed = directory("a./");
    assert_eq!(mixed.trim_trailing_slashes().unwrap().path, "a");
    let mut kept = directory("a.b/c.d");
    assert_eq!(kept.trim_trailing_slashes().unwrap().path, "a.b/c.d");
}

#[test]
fn trimmed_path_is_a_fixed_point() {
    for path in ["a/./", "proj///", "proj", "proj/.", "x/../.", "", "/", "./proj/", "a/b/././/"] {
        let mut output_directory = directory(path);
        let once = output_directory.trim_trailing_slashes().unwrap().path;
        assert!(!once.ends_with('/'));
        assert!(!once.ends_with('.'));
        assert!(path.starts_with(once.as_str()));
        let twice = output_directory.trim_trailing_slashes().unwrap().path;
        assert_eq!(twice, once);
        assert_eq!(output_directory.path, once);
    }
}

#[test]
fn make_absolute_forms() {
    assert_eq!(make_absolute("/already/absolute", "/cwd"), "/already/absolute");
    assert_eq!(make_absolute("proj", "/cwd"), "/cwd/proj");
    assert_eq!(make_absolute("proj", "/cwd/"), "/cwd/proj");
    assert_eq!(make_absolute("./proj", "/cwd"), "/cwd/proj");
    assert_eq!(make_absolute(".//proj", "/cwd"), "/cwd/proj");
    assert_eq!(make_absolute(".", "/cwd"), "/cwd");
    assert_eq!(make_absolute("", "/cwd"), "/cwd");
    assert_eq!(make_absolute(".hidden", "/cwd"), "/cwd/.hidden");
    assert_eq!(make_absolute("../up", "/cwd"), "/cwd/../up");
}

#[test]
fn make_absolute_drops_dots_and_repeated_separators() {
    assert_eq!(make_absolute("a/./b", "/w"), "/w/a/b");
    assert_eq!(make_absolute("a//b", "/w"), "/w/a/b");
    assert_eq!(make_absolute("./a/././b/.", "/w"), "/w/a/b");
    assert_eq!(make_absolute("a/b/", "/w"), "/w/a/b");
    assert_eq!(make_absolute("/x/./y//z", "/w"), "/x/y/z");
    assert_eq!(make_absolute("/", "/w"), "/");
    assert_eq!(make_absolute("/.", "/w"), "/");
    assert_eq!(make_absolute("//x/y", "/w"), "//x/y");
    assert_eq!(make_absolute("///x/y", "/w"), "/x/y");
    assert_eq!(make_absolute("a/../b", "/w"), "/w/a/../b");
    assert_eq!(make_absolute("a/..b/.c", "/w"), "/w/a/..b/.c");
}

#[test]
fn make_absolute_agrees_with_std_on_absolute_paths() {
    for path in ["/a/b", "/a/./b", "/a//b/c", "/x/../y", "//net/share", "///three", "/.hidden/x"] {
        let expected = std::path::absolute(path).unwrap();
        assert_eq!(PathBuf::from(make_absolute(path, "/unused")), expected);
        assert_eq!(make_absolute(path, "/unused"), expected.to_string_lossy().to_string());
    }
}

#[test]
fn components_and_join_all() {
    assert_eq!(components_of("a/./b//c/"), vec!["a".to_string(), "b".to_string(), "c".to_string()]);
    assert_eq!(components_of("/../x"), vec!["..".to_string(), "x".to_string()]);
    assert!(components_of("").is_empty());
    assert!(components_of("/././/").is_empty());
    assert_eq!(join_all("/w", &vec!["a".to_string(), "b".to_string()]), "/w/a/b");
    assert_eq!(join_all("/w", &Vec::new()), "/w");
    assert_eq!(join_all("", &vec!["a".to_string()]), "a");
}

#[test]
fn join_path_forms() {
    assert_eq!(join_path("/out", ".vscode"), "/out/.vscode");
    assert_eq!(join_path("/out/", ".vscode"), "/out/.vscode");
    assert_eq!(join_path("/out", "/abs"), "/abs");
    assert_eq!(join_path("", "name"), "name");
    assert_eq!(join_path("/out", ".vscode/tasks.json"), "/out/.vscode/tasks.json");
    assert_eq!(join_path("/out", ""), "/out/");
}

#[test]
fn join_path_agrees_with_pathbuf_join() {
    let cases = [("/out", ".vscode"), ("/out/", "x"), ("/out", "/abs"), ("", "name"), ("a/b", "c/d")];
    for (base, name) in cases {
        assert_eq!(PathBuf::from(join_path(base, name)), PathBuf::from(base).join(name));
    }
}

#[test]
fn as_pathbuf_keeps_the_text() {
    let output_directory = directory("/home/u/proj");
    assert_eq!(output_directory.as_pathbuf(), PathBuf::from("/home/u/proj"));
    assert_ne!(output_directory.as_pathbuf(), PathBuf::from("/home/u"));
}

#[test]
fn from_current_dir_and_os_string() {
    assert_eq!(OutputDirectory::from_current_dir("/cwd").path, "/cwd");
    assert_eq!(
        OutputDirectory::from_os_string(Some("/real/path".to_string()), "/cwd/link".to_string()).path,
        "/real/path"
    );
    assert_eq!(OutputDirectory::from_os_string(None, "/cwd/new".to_string()).path, "/cwd/new");
}

#[test]
fn create_if_not_exists_is_a_silent_guarded_creation() {
    let operation = directory("out/proj").create_if_not_exists();
    assert_eq!(operation.target, "out/proj");
    assert_eq!(operation.guard, Guard::IfAbsent);
    assert_eq!(operation.action, Action::CreateDirectory);
    assert_eq!(operation.announcement, Announcement::Silent);
    assert!(!operation.save_cursor);
}

#[test]
fn file_name_of_paths() {
    assert_eq!(file_name("/home/u/MySolution"), Some("MySolution".to_string()));
    assert_eq!(file_name("/home/u/MySolution/"), Some("MySolution".to_string()));
    assert_eq!(file_name("MySolution"), Some("MySolution".to_string()));
    assert_eq!(file_name("/"), None);
    assert_eq!(file_name(""), None);
    assert_eq!(file_name("/a/.."), None);
    assert_eq!(file_name("."), None);
    assert_eq!(directory("/x/y.z").file_name(), Some("y.z".to_string()));
}

#[test]
fn file_name_agrees_with_path_file_name() {
    for path in ["/home/u/MySolution", "/a/b/", "rel", "/", "/a/..", "a/b.c"] {
        let expected = PathBuf::from(path).file_name().map(|name| name.to_string_lossy().to_string());
        assert_eq!(file_name(path), expected);
    }
}

#[test]
fn extension_and_stem() {
    assert_eq!(extension("App.csproj"), Some("csproj".to_string()));
    assert_eq!(extension("My.Solution.sln"), Some("sln".to_string()));
    assert_eq!(extension("README"), None);
    assert_eq!(extension(".gitignore"), None);
    assert_eq!(extension("trailing."), Some("".to_string()));
    assert_eq!(file_stem("App.csproj"), "App");
    assert_eq!(file_stem("My.Solution.sln"), "My.Solution");
    assert_eq!(file_stem("README"), "README");
    assert_eq!(file_stem(".gitignore"), ".gitignore");
}

#[test]
fn extension_and_stem_agree_with_path() {
    for name in ["App.csproj", "a.b.c", "README", ".gitignore", ".a.b", "x."] {
        let path = PathBuf::from(name);
        assert_eq!(extension(name), path.extension().map(|e| e.to_string_lossy().to_string()));
        assert_eq!(file_stem(name), path.file_stem().unwrap().to_string_lossy().to_string());
    }
}

#[test]
fn parent_of_paths() {
    assert_eq!(parent_of("/work/MySolution/MySolution.sln"), "/work/MySolution");
    assert_eq!(parent_of("/top.sln"), "/");
    assert_eq!(parent_of("top.sln"), "");
    assert_eq!(parent_of("a/b/"), "a");
}

#[test]
fn strip_prefix_of_paths() {
    assert_eq!(strip_prefix("/w/Sol/App", "/w/Sol"), Some("App".to_string()));
    assert_eq!(strip_prefix("/w/Sol/src/App", "/w/Sol/"), Some("src/App".to_string()));
    assert_eq!(strip_prefix("/w/Sol", "/w/Sol"), Some("".to_string()));
    assert_eq!(strip_prefix("/w/Solution/App", "/w/Sol"), None);
    assert_eq!(strip_prefix("/other/App", "/w/Sol"), None);
    assert_eq!(strip_prefix("/w", "/w/Sol"), None);
}

#[test]
fn home_variable_by_family() {
    assert_eq!(home_variable("windows"), "USERPROFILE");
    assert_eq!(home_variable("linux"), "HOME");
    assert_eq!(home_variable("macos"), "HOME");
    assert_eq!(home_variable("unix"), "HOME");
}
