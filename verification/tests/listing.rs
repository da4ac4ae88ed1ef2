use sxredder::entry::Entry;
use sxredder::listing::{read_directory, ChildKind, DirectoryReadError, ScannedChild, Snapshot};

fn child(path: &str, kind: ChildKind) -> ScannedChild {
    ScannedChild { path: path.to_string(), kind }
}

fn paths(snapshot: &Snapshot) -> Vec<String> {
    (0..snapshot.len()).map(|i| snapshot.get(i).unwrap().path().to_string()).collect()
}

#[test]
fn entry_is_named_after_its_path() {
    let file = Entry::new("/tmp/t/a.txt".to_string(), false);
    assert_eq!(file.path(), "/tmp/t/a.txt");
    assert_eq!(file.display_name(), "a.txt");
    assert!(!file.is_directory());
    let directory = Entry::new("/tmp/t/sub".to_string(), true);
    assert_eq!(directory.path(), "/tmp/t/sub");
    assert_eq!(directory.display_name(), "sub/");
    assert!(directory.is_directory());
    let copy = directory.clone();
    assert_eq!(copy.path(), "/tmp/t/sub");
    assert_eq!(copy.display_name(), "sub/");
    assert!(copy.is_directory());
}

#[test]
fn a_directory_precedes_a_file() {
    let directory = Entry::new("/t/z".to_string(), true);
    let file = Entry::new("/t/a".to_string(), false);
    assert!(directory.precedes(&file));
    assert!(!file.precedes(&directory));
    let other = Entry::new("/t/b".to_string(), false);
    assert!(file.precedes(&other));
    assert!(!other.precedes(&file));
    assert!(file.precedes(&file));
    let sibling = Entry::new("/t/y".to_string(), true);
    assert!(sibling.precedes(&directory));
    assert!(!directory.precedes(&sibling));
}

#[test]
fn a_single_file_is_listed() {
    let snapshot = read_directory("/tmp/t", Some(vec![child("/tmp/t/a.txt", ChildKind::File)])).unwrap();
    assert_eq!(snapshot.len(), 1);
    assert_eq!(snapshot.display_names(), vec!["a.txt".to_string()]);
}

#[test]
fn a_subdirectory_is_listed_before_a_file() {
    let scan = Some(vec![child("/tmp/t/z.txt", ChildKind::File), child("/tmp/t/sub", ChildKind::Directory)]);
    let snapshot = read_directory("/tmp/t", scan).unwrap();
    assert_eq!(snapshot.display_names(), vec!["sub/".to_string(), "z.txt".to_string()]);
    let scan = Some(vec![child("/tmp/t/sub", ChildKind::Directory), child("/tmp/t/z.txt", ChildKind::File)]);
    let snapshot = read_directory("/tmp/t", scan).unwrap();
    assert_eq!(snapshot.display_names(), vec!["sub/".to_string(), "z.txt".to_string()]);
}

#[test]
fn the_listing_does_not_depend_on_the_order_of_the_read() {
    let names = ["/d/m", "/d/b", "/d/z", "/d/a", "/d/k", "/d/c"];
    let kinds = [
        ChildKind::File,
        ChildKind::Directory,
        ChildKind::Directory,
        ChildKind::File,
        ChildKind::File,
        ChildKind::Directory,
    ];
    let expected = vec!["/d/b", "/d/c", "/d/z", "/d/a", "/d/k", "/d/m"];
    for shift in 0..names.len() {
        let mut scan = Vec::new();
        for i in 0..names.len() {
            let at = (i * 5 + shift) % names.len();
            scan.push(child(names[at], kinds[at]));
        }
        let snapshot = read_directory("/d", Some(scan)).unwrap();
        assert_eq!(paths(&snapshot), expected);
    }
}

#[test]
fn every_pair_of_a_listing_is_in_order() {
    let scan = Some(vec![
        child("/d/b.txt", ChildKind::File),
        child("/d/B", ChildKind::Directory),
        child("/d/a.txt", ChildKind::File),
        child("/d/ab", ChildKind::File),
        child("/d/a", ChildKind::Directory),
        child("/d/\u{e9}", ChildKind::File),
        child("/d/a", ChildKind::File),
    ]);
    let snapshot = read_directory("/d", scan).unwrap();
    assert_eq!(snapshot.len(), 7);
    for i in 0..snapshot.len() {
        for j in i + 1..snapshot.len() {
            let first = snapshot.get(i).unwrap();
            let second = snapshot.get(j).unwrap();
            assert!(first.precedes(second));
            if first.is_directory() != second.is_directory() {
                assert!(first.is_directory());
            } else {
                assert!(first.path() <= second.path());
            }
        }
    }
    assert_eq!(
        paths(&snapshot),
        vec!["/d/B", "/d/a", "/d/a", "/d/a.txt", "/d/ab", "/d/b.txt", "/d/\u{e9}"]
    );
}

#[test]
fn an_unreadable_child_is_left_out() {
    let scan = Some(vec![
        child("/d/gone", ChildKind::Unreadable),
        child("/d/b", ChildKind::File),
        child("/d/locked", ChildKind::Unreadable),
        child("/d/a", ChildKind::Directory),
    ]);
    let snapshot = read_directory("/d", scan).unwrap();
    assert_eq!(paths(&snapshot), vec!["/d/a", "/d/b"]);
    let only = read_directory("/d", Some(vec![child("/d/gone", ChildKind::Unreadable)])).unwrap();
    assert!(only.is_empty());
}

#[test]
fn a_child_reported_twice_is_listed_twice() {
    let scan = Some(vec![
        child("/d/a", ChildKind::File),
        child("/d/b", ChildKind::File),
        child("/d/a", ChildKind::File),
    ]);
    let snapshot = read_directory("/d", scan).unwrap();
    assert_eq!(paths(&snapshot), vec!["/d/a", "/d/a", "/d/b"]);
}

#[test]
fn an_empty_directory_has_an_empty_listing() {
    let snapshot = read_directory("/d", Some(vec![])).unwrap();
    assert!(snapshot.is_empty());
    assert_eq!(snapshot.len(), 0);
    assert!(snapshot.get(0).is_none());
    assert!(snapshot.display_names().is_empty());
}

#[test]
fn an_unreadable_directory_is_an_error() {
    let error = read_directory("/root/secret", None).unwrap_err();
    assert_eq!(error.path(), "/root/secret");
    assert_eq!(DirectoryReadError::new("/x").path(), "/x");
}

#[test]
fn snapshot_from_entries_sorts() {
    let entries = vec![
        Entry::new("file3.txt".to_string(), false),
        Entry::new("file1.txt".to_string(), false),
        Entry::new("dir".to_string(), true),
        Entry::new("file2.txt".to_string(), false),
    ];
    let snapshot = Snapshot::from_entries(entries);
    assert_eq!(paths(&snapshot), vec!["dir", "file1.txt", "file2.txt", "file3.txt"]);
    assert_eq!(snapshot.get(0).unwrap().display_name(), "dir/");
    assert!(snapshot.get(4).is_none());
}
