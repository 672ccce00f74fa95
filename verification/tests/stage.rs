use std::collections::BTreeMap;

use run_clang_tidy::stage::{copied, place_tidy_file, target, Destination, Placement, StageError};

type Disk = BTreeMap<String, String>;

fn pair(src: &str, root: &str) -> Option<(String, String)> {
    Some((src.to_string(), root.to_string()))
}

// What a caller finds at the destination on this disk.
fn look(disk: &Disk, src: &str, dst_root: &str) -> Destination {
    match disk.get(&target(dst_root)) {
        None => Destination::Absent,
        Some(existing) => Destination::Present {
            source: disk.get(src).cloned().ok_or("No such file or directory".to_string()),
            existing: Ok(existing.clone()),
        },
    }
}

// Does on this disk what the placement asks for, and counts the writes.
fn carry_out(disk: &mut Disk, placement: &Placement) -> usize {
    match placement {
        Placement::Copy { src, dst } => {
            let content = disk[src].clone();
            disk.insert(dst.clone(), content);
            1
        }
        _ => 0,
    }
}

#[test]
fn target_is_the_dotfile_in_the_root() {
    assert_eq!("/proj/src/.clang-tidy", target("/proj/src"));
    assert_eq!("src/.clang-tidy", target("src"));
}

#[test]
fn nothing_to_place_without_a_tidy_file() {
    assert!(matches!(place_tidy_file(&None, &Destination::Absent), Ok(Placement::Nothing)));
    let present = Destination::Present { source: Ok("a".into()), existing: Ok("b".into()) };
    assert!(matches!(place_tidy_file(&None, &present), Ok(Placement::Nothing)));
}

#[test]
fn tidy_file_is_copied_under_the_fixed_name() {
    let placement =
        place_tidy_file(&pair("/style/named.clang-tidy", "/proj/src"), &Destination::Absent);
    match placement {
        Ok(Placement::Copy { src, dst }) => {
            assert_eq!("/style/named.clang-tidy", src);
            assert_eq!("/proj/src/.clang-tidy", dst);
        }
        other => panic!("expected a copy, got {other:?}"),
    }
}

#[test]
fn staging_twice_writes_once() {
    let mut disk = Disk::new();
    disk.insert("/style/my.clang-tidy".to_string(), "Checks: '*'\n".to_string());
    let file_and_root = pair("/style/my.clang-tidy", "/proj/src");

    let first =
        place_tidy_file(&file_and_root, &look(&disk, "/style/my.clang-tidy", "/proj/src")).unwrap();
    assert_eq!(1, carry_out(&mut disk, &first));
    assert_eq!("Checks: '*'\n", disk["/proj/src/.clang-tidy"]);

    let second =
        place_tidy_file(&file_and_root, &look(&disk, "/style/my.clang-tidy", "/proj/src")).unwrap();
    assert!(matches!(&second, Placement::Keep { dst } if dst == "/proj/src/.clang-tidy"));
    let before = disk.clone();
    assert_eq!(0, carry_out(&mut disk, &second));
    assert_eq!(before, disk);
}

#[test]
fn staging_stops_at_another_content() {
    let mut disk = Disk::new();
    disk.insert("/style/my.clang-tidy".to_string(), "Checks: '*'\n".to_string());
    disk.insert("/proj/src/.clang-tidy".to_string(), "Checks: '-*'\n".to_string());
    let before = disk.clone();

    let e = place_tidy_file(
        &pair("/style/my.clang-tidy", "/proj/src"),
        &look(&disk, "/style/my.clang-tidy", "/proj/src"),
    )
    .unwrap_err();
    assert!(matches!(&e, StageError::Conflict { src, dst }
        if src == "/style/my.clang-tidy" && dst == "/proj/src/.clang-tidy"));
    assert_eq!(
        "Existing tidy file /proj/src/.clang-tidy does not match provided tidy file /style/my.clang-tidy",
        e.message()
    );
    assert_eq!(
        Some(
            "Please either delete the file /proj/src/.clang-tidy or align the contents with /style/my.clang-tidy"
                .to_string()
        ),
        e.suggestion()
    );
    assert_eq!(before, disk);
}

#[test]
fn staging_compares_every_character() {
    let file_and_root = pair("a.clang-tidy", "root");
    let same = Destination::Present { source: Ok("x\n".into()), existing: Ok("x\n".into()) };
    assert!(matches!(place_tidy_file(&file_and_root, &same), Ok(Placement::Keep { .. })));
    let newline = Destination::Present { source: Ok("x\n".into()), existing: Ok("x".into()) };
    assert!(matches!(place_tidy_file(&file_and_root, &newline), Err(StageError::Conflict { .. })));
    let empty = Destination::Present { source: Ok("".into()), existing: Ok("".into()) };
    assert!(matches!(place_tidy_file(&file_and_root, &empty), Ok(Placement::Keep { .. })));
}

#[test]
fn staging_stops_where_a_file_cannot_be_read() {
    let file_and_root = pair("a.clang-tidy", "root");
    let unreadable = Destination::Present {
        source: Err("Permission denied".into()),
        existing: Err("Is a directory".into()),
    };
    let e = place_tidy_file(&file_and_root, &unreadable).unwrap_err();
    assert!(matches!(&e, StageError::ReadSource { src, reason }
        if src == "a.clang-tidy" && reason == "Permission denied"));
    assert_eq!("Failed to read 'a.clang-tidy': Permission denied", e.message());
    assert_eq!(None, e.suggestion());

    let unreadable =
        Destination::Present { source: Ok("x".into()), existing: Err("Is a directory".into()) };
    let e = place_tidy_file(&file_and_root, &unreadable).unwrap_err();
    assert!(matches!(&e, StageError::ReadExisting { dst, reason }
        if dst == target("root").as_str() && reason == "Is a directory"));
    assert_eq!(
        format!(
            "Error while trying to compare existing tidy file: Failed to read '{}': Is a directory",
            target("root")
        ),
        e.message()
    );
    assert_eq!(
        Some(format!("Please delete or fix the existing tidy file {}", target("root"))),
        e.suggestion()
    );
}

#[test]
fn copied_names_the_file_to_remove() {
    assert_eq!("/proj/src/.clang-tidy", copied("/proj/src", &Ok(())).unwrap());
    let e = copied("/proj/src", &Err("Read-only file system".to_string())).unwrap_err();
    assert!(matches!(&e, StageError::Copy { dst_root, reason }
        if dst_root == "/proj/src" && reason == "Read-only file system"));
    assert_eq!("Failed to copy tidy file to /proj/src: Read-only file system", e.message());
    assert_eq!(
        Some("Please check the permissions for the folder /proj/src".to_string()),
        e.suggestion()
    );
}
