use std::path::PathBuf;

use run_clang_tidy::cli::utils::{
    dir_or_err, executable_or_exists, file_or_err, file_with_ext, file_with_name,
    file_with_name_or_ext, filename_or_exists, filename_or_exists_with_ext, path_or_err, PathError,
};
use run_clang_tidy::host::{EntryKind, Host};

#[derive(Debug)]
struct TestPaths {
    path: PathBuf,
    is_absolute: bool,
    is_relative: bool,
    is_file: bool,
}

fn host_with(entries: &[(&str, EntryKind)]) -> Host {
    let mut host = Host::new(false);
    for (path, kind) in entries {
        host.record(path, *kind, &format!("/canonical/{path}"));
    }
    host
}

fn message(result: Result<String, PathError>) -> String {
    match result {
        Ok(path) => panic!("expected an error, got {path}"),
        Err(e) => e.message(),
    }
}

fn check_paths(paths: &[TestPaths]) {
    // On a machine where no path exists, only a bare name passes: this is how
    // the library tells a name that is looked up in the search path from a
    // path that must exist.
    let nothing = Host::new(false);
    for path in paths.iter() {
        println!("checking {path:?}");
        println!("  components{}", path.path.components().count());
        assert_eq!(path.is_absolute, path.path.is_absolute());
        assert_eq!(path.is_relative, path.path.is_relative());

        // one way to check that the path passed for "command" is a pure file or
        // executable name is to count the components
        assert_eq!(path.is_file, path.path.components().count() == 1);

        // another way is to take the filename and compare it to the whole path. if the
        // whole path is the same, it is just a filename.
        let is_file = path
            .path
            .file_name()
            .and_then(|file_name| (path.path.as_os_str() == file_name).then_some(file_name))
            .is_some();

        assert_eq!(path.is_file, is_file);

        let text = path.path.to_str().unwrap();
        let checked = filename_or_exists(text, None, &nothing);
        assert_eq!(path.is_file, checked.is_ok());
        if path.is_file {
            assert_eq!(text, checked.unwrap());
        }
    }
}

#[test]
fn test_command_path() {
    let tests = vec![
        TestPaths {
            path: "some/path/to/clang-tidy".into(),
            is_absolute: false,
            is_relative: true,
            is_file: false,
        },
        TestPaths {
            path: "/some/path/to/clang-tidy".into(),
            is_absolute: true,
            is_relative: false,
            is_file: false,
        },
        TestPaths {
            path: "clang-tidy".into(),
            is_absolute: false,
            is_relative: true,
            is_file: true,
        },
        TestPaths {
            path: "clang-tidy.exe".into(),
            is_absolute: false,
            is_relative: true,
            is_file: true,
        },
        TestPaths {
            path: "some/path/..".into(),
            is_absolute: false,
            is_relative: true,
            is_file: false,
        },
    ];

    check_paths(&tests);
}

#[test]
fn test_path() {
    let host = host_with(&[("some/path/to/.clang-format", EntryKind::File)]);
    let found = file_with_name("some/path/to/.clang-format", ".clang-format", &host);
    assert_eq!("some/path/to/.clang-format", found.unwrap());
}

#[test]
fn path_or_err_accepts_what_exists() {
    let host = host_with(&[
        ("a/file.c", EntryKind::File),
        ("a", EntryKind::Dir),
        ("dev/null", EntryKind::Other),
    ]);
    assert_eq!("a/file.c", path_or_err("a/file.c", &host).unwrap());
    assert_eq!("a", path_or_err("a", &host).unwrap());
    assert_eq!("dev/null", path_or_err("dev/null", &host).unwrap());
    let e = path_or_err("b", &host).unwrap_err();
    assert!(matches!(&e, PathError::NotAPath { path } if path == "b"));
    assert_eq!("'b' is not a path: Path not found or permission denied", e.message());
}

#[test]
fn file_or_err_accepts_regular_files_only() {
    let host = host_with(&[("a/file.c", EntryKind::File), ("a", EntryKind::Dir)]);
    assert_eq!("a/file.c", file_or_err("a/file.c", &host).unwrap());
    let e = file_or_err("a", &host).unwrap_err();
    assert!(matches!(&e, PathError::NotAFile { path } if path == "a"));
    assert_eq!("'a' is not a file: File not found or permission denied", e.message());
    assert!(file_or_err("missing", &host).is_err());
}

#[test]
fn dir_or_err_accepts_directories_only() {
    let host = host_with(&[("a/file.c", EntryKind::File), ("a", EntryKind::Dir)]);
    assert_eq!("a", dir_or_err("a", &host).unwrap());
    let e = dir_or_err("a/file.c", &host).unwrap_err();
    assert!(matches!(&e, PathError::NotADirectory { path } if path == "a/file.c"));
    assert_eq!("'a/file.c' is not a directory: Directory not found", e.message());
    assert!(dir_or_err("missing", &host).is_err());
}

#[test]
fn first_entry_for_a_path_counts() {
    let mut host = Host::new(false);
    host.record("x", EntryKind::Dir, "/one/x");
    host.record("x", EntryKind::File, "/two/x");
    assert!(host.is_dir("x"));
    assert!(!host.is_file("x"));
    assert!(host.is_present("x"));
    assert_eq!(Some("/one/x".to_string()), host.canonicalize("x"));
    assert_eq!(None, host.canonicalize("y"));
    assert!(!host.is_present("y"));
    assert_eq!("/one/x", host.lookup("x").unwrap().canonical);
    assert!(host.lookup("X").is_none());
}

#[test]
fn file_with_name_ignores_case_and_directories() {
    let host = host_with(&[
        ("cfg/.CLANG-TIDY", EntryKind::File),
        ("cfg/named.clang-tidy", EntryKind::File),
        ("cfg", EntryKind::Dir),
    ]);
    // the name is the last component, compared without regard to case
    assert_eq!("cfg/.CLANG-TIDY", file_with_name("cfg/.CLANG-TIDY", ".clang-tidy", &host).unwrap());
    let e = file_with_name("cfg/named.clang-tidy", ".clang-tidy", &host).unwrap_err();
    assert!(matches!(&e, PathError::WrongName { expected, path }
        if expected == ".clang-tidy" && path == "cfg/named.clang-tidy"));
    assert_eq!(
        "Expected file with name '.clang-tidy', got 'cfg/named.clang-tidy'",
        e.message()
    );
    // a directory is no file, whatever it is called
    assert!(matches!(
        file_with_name("cfg", "cfg", &host).unwrap_err(),
        PathError::NotAFile { .. }
    ));
}

#[test]
fn file_with_ext_compares_the_extension() {
    let host = host_with(&[
        ("a/config.JSON", EntryKind::File),
        ("a/noext", EntryKind::File),
        ("a/.hidden", EntryKind::File),
        ("a/archive.tar.gz", EntryKind::File),
    ]);
    assert_eq!("a/config.JSON", file_with_ext("a/config.JSON", "json", true, &host).unwrap());
    // unless strict, a leading dot of the expected extension is not part of it
    assert_eq!("a/config.JSON", file_with_ext("a/config.JSON", ".json", false, &host).unwrap());
    let e = file_with_ext("a/config.JSON", ".json", true, &host).unwrap_err();
    assert!(matches!(&e, PathError::WrongExtension { expected, found }
        if expected == ".json" && found == "JSON"));
    assert_eq!("Expected file extension '.json', got 'JSON'", e.message());
    // only what follows the last dot is the extension
    assert_eq!("a/archive.tar.gz", file_with_ext("a/archive.tar.gz", "gz", true, &host).unwrap());
    assert!(file_with_ext("a/archive.tar.gz", "tar.gz", true, &host).is_err());

    let e = file_with_ext("a/noext", "json", true, &host).unwrap_err();
    assert!(matches!(&e, PathError::NoExtension { expected, path }
        if expected == "json" && path == "a/noext"));
    assert_eq!("Expected file with extension 'json', got file 'a/noext'", e.message());
    // a name that only starts with a dot has no extension
    assert!(matches!(
        file_with_ext("a/.hidden", "hidden", true, &host).unwrap_err(),
        PathError::NoExtension { .. }
    ));
    assert!(matches!(
        file_with_ext("a/missing.json", "json", true, &host).unwrap_err(),
        PathError::NotAFile { .. }
    ));
}

#[test]
fn file_with_name_or_ext_accepts_either() {
    let host = host_with(&[
        ("cfg/.clang-tidy", EntryKind::File),
        ("cfg/named.clang-tidy", EntryKind::File),
        ("cfg/other.yaml", EntryKind::File),
    ]);
    assert!(file_with_name_or_ext("cfg/.clang-tidy", ".clang-tidy", &host).is_ok());
    assert_eq!(
        "cfg/named.clang-tidy",
        file_with_name_or_ext("cfg/named.clang-tidy", ".clang-tidy", &host).unwrap()
    );
    let e = file_with_name_or_ext("cfg/other.yaml", ".clang-tidy", &host).unwrap_err();
    assert!(matches!(&e, PathError::WrongNameOrExtension { expected, path }
        if expected == ".clang-tidy" && path == "cfg/other.yaml"));
    assert_eq!(
        "Expected file with name or extension '.clang-tidy', got 'cfg/other.yaml'",
        e.message()
    );
    assert!(matches!(
        file_with_name_or_ext("cfg/missing.clang-tidy", ".clang-tidy", &host).unwrap_err(),
        PathError::NotAFile { .. }
    ));
}

#[test]
fn filename_or_exists_resolves_below_the_root() {
    let host = host_with(&[
        ("/proj/tools/clang-tidy", EntryKind::File),
        ("/abs/clang-tidy", EntryKind::File),
        ("rel/clang-tidy", EntryKind::File),
    ]);
    // a bare name is taken as it is, and not looked for
    assert_eq!("clang-tidy", filename_or_exists("clang-tidy", Some("/proj"), &host).unwrap());
    // a relative path is looked for below the root, and comes back joined
    assert_eq!(
        "/proj/tools/clang-tidy",
        filename_or_exists("tools/clang-tidy", Some("/proj"), &host).unwrap()
    );
    // without a root it is looked for as it is
    assert_eq!("rel/clang-tidy", filename_or_exists("rel/clang-tidy", None, &host).unwrap());
    let e = filename_or_exists("tools/clang-tidy", None, &host).unwrap_err();
    assert!(matches!(&e, PathError::Missing { path } if path == "tools/clang-tidy"));
    assert_eq!("'tools/clang-tidy' does not exist", e.message());
    // an absolute path must exist, and the root plays no part
    assert_eq!(
        "/abs/clang-tidy",
        filename_or_exists("/abs/clang-tidy", Some("/proj"), &host).unwrap()
    );
    assert_eq!(
        "'/abs/missing' does not exist",
        message(filename_or_exists("/abs/missing", Some("/proj"), &host))
    );
}

#[test]
fn filename_or_exists_with_ext_tries_the_extension() {
    let host = host_with(&[
        ("tools/clang-tidy.exe", EntryKind::File),
        ("tools/both", EntryKind::File),
        ("tools/both.exe", EntryKind::File),
    ]);
    assert_eq!(
        "tools/clang-tidy.exe",
        filename_or_exists_with_ext("tools/clang-tidy", None, Some("exe"), &host).unwrap()
    );
    // the path as given wins where both exist
    assert_eq!(
        "tools/both",
        filename_or_exists_with_ext("tools/both", None, Some("exe"), &host).unwrap()
    );
    // without an extension to try, the path as given decides
    assert_eq!(
        "'tools/clang-tidy' does not exist",
        message(filename_or_exists_with_ext("tools/clang-tidy", None, None, &host))
    );
    // where neither exists, the error is about the path as given
    assert_eq!(
        "'tools/none' does not exist",
        message(filename_or_exists_with_ext("tools/none", None, Some("exe"), &host))
    );
}

#[test]
fn executable_or_exists_goes_by_the_platform() {
    let mut unix = Host::new(false);
    unix.record("tools/clang-tidy.exe", EntryKind::File, "/c/tools/clang-tidy.exe");
    let mut windows = Host::new(true);
    windows.record("tools/clang-tidy.exe", EntryKind::File, "/c/tools/clang-tidy.exe");

    assert!(executable_or_exists("tools/clang-tidy", None, &unix).is_err());
    assert_eq!(
        "tools/clang-tidy.exe",
        executable_or_exists("tools/clang-tidy", None, &windows).unwrap()
    );
    assert_eq!("clang-tidy", executable_or_exists("clang-tidy", None, &unix).unwrap());
    assert_eq!("clang-tidy", executable_or_exists("clang-tidy", None, &windows).unwrap());
}
