use run_clang_tidy::globs::{build_glob_set_from, match_paths, wrap_result, GlobError};
use run_clang_tidy::host::{EntryKind, Host};

fn list(globs: &[&str]) -> Option<Vec<String>> {
    Some(globs.iter().map(|g| g.to_string()).collect())
}

#[test]
fn no_filter_gives_no_sets() {
    let none = None;
    assert!(build_glob_set_from(&none, "filterPre", "tidy.json", true).unwrap().is_none());
}

#[test]
fn empty_filter_gives_an_empty_list() {
    let empty = list(&[]);
    let sets = build_glob_set_from(&empty, "filterPre", "tidy.json", true).unwrap();
    assert_eq!(0, sets.unwrap().len());
}

#[test]
fn each_glob_gives_a_set() {
    let filter = list(&[".git", "*.md", "third-party/**"]);
    let sets = build_glob_set_from(&filter, "filterPost", "tidy.json", true).unwrap().unwrap();
    assert_eq!(3, sets.len());
    assert_eq!(".git", sets[0].glob());
    assert_eq!("*.md", sets[1].glob());
    // a set matches its glob at any depth
    assert!(sets[0].is_match(".git"));
    assert!(sets[0].is_match("some/where/.git"));
    assert!(!sets[0].is_match(".github"));
    assert!(sets[1].is_match("docs/readme.md"));
    assert!(!sets[1].is_match("docs/readme.txt"));
    assert!(sets[2].is_match("third-party/lib/a.c"));
}

#[test]
fn case_is_a_parameter() {
    let filter = list(&["*.MD"]);
    let strict = build_glob_set_from(&filter, "filterPost", "tidy.json", true).unwrap().unwrap();
    assert!(!strict[0].is_match("readme.md"));
    let lax = build_glob_set_from(&filter, "filterPost", "tidy.json", false).unwrap().unwrap();
    assert!(lax[0].is_match("readme.md"));
}

#[test]
fn a_bad_glob_names_its_field() {
    for bad in ["[", "a[", "", "/absolute/*.c", "{a,b"] {
        let filter = list(&["*.c", bad]);
        let e: GlobError = build_glob_set_from(&filter, "filterPost", "cfg/tidy.json", true)
            .err()
            .unwrap_or_else(|| panic!("{bad:?} compiled"));
        assert_eq!("filterPost", e.field);
        assert_eq!("cfg/tidy.json", e.file);
        assert!(!e.detail.is_empty());
        assert_eq!(format!("Error while parsing 'filterPost': {}", e.detail), e.message());
        assert_eq!(
            "Check the format of the field 'filterPost' in the provided file 'cfg/tidy.json'.",
            e.suggestion()
        );
    }
}

#[test]
fn wrap_result_passes_a_success_through() {
    assert_eq!(7, wrap_result(Ok(7), "paths", "tidy.json").unwrap());
    let e = wrap_result::<u8>(Err("'[': Unclosed class".to_string()), "paths", "tidy.json")
        .unwrap_err();
    assert_eq!("paths", e.field);
    assert_eq!("tidy.json", e.file);
    assert_eq!("'[': Unclosed class", e.detail);
    assert_eq!("Error while parsing 'paths': '[': Unclosed class", e.message());
}

#[test]
fn match_paths_keeps_regular_files() {
    let mut host = Host::new(false);
    host.record("src/a.c", EntryKind::File, "/proj/src/a.c");
    host.record("src", EntryKind::Dir, "/proj/src");
    host.record("src/b.c", EntryKind::File, "/proj/src/b.c");
    host.record("src/pipe.c", EntryKind::Other, "/proj/src/pipe.c");
    let found: Vec<String> =
        ["src", "src/a.c", "src/broken-link.c", "src/pipe.c", "src/b.c", "src/a.c"]
            .iter()
            .map(|p| p.to_string())
            .collect();
    assert_eq!(
        vec!["src/a.c".to_string(), "src/b.c".to_string(), "src/a.c".to_string()],
        match_paths(&found, &host)
    );
    assert!(match_paths(&vec![], &host).is_empty());
    assert!(match_paths(&found, &Host::new(false)).is_empty());
}
