use fonline_tnf::crawler::{gather_paths, ArchiveEntry, FileInfo, FileLocation};

fn entry(path: &str, original: &str) -> ArchiveEntry {
    ArchiveEntry { path: path.to_string(), original_path: original.to_string() }
}

fn lookup<'a>(map: &'a [(String, FileInfo)], path: &str) -> Option<&'a FileInfo> {
    map.iter().find(|(p, _)| p == path).map(|(_, info)| info)
}

#[test]
fn gather_paths_of_no_archives_is_empty() {
    assert!(gather_paths(&vec![]).is_empty());
}

#[test]
fn gather_paths_records_archive_index_and_original_name() {
    let archives = vec![
        vec![entry("art/a.frm", "ART\\A.FRM"), entry("art/b.frm", "art\\b.frm")],
        vec![entry("data/c.txt", "Data\\C.txt")],
    ];
    let map = gather_paths(&archives);
    assert_eq!(map.len(), 3);
    let a = lookup(&map, "art/a.frm").unwrap();
    assert_eq!(a.location, FileLocation::Archive(0));
    assert_eq!(a.original_path, "ART\\A.FRM");
    let c = lookup(&map, "data/c.txt").unwrap();
    assert_eq!(c.location, FileLocation::Archive(1));
    assert_eq!(c.original_path, "Data\\C.txt");
    assert!(lookup(&map, "art/missing.frm").is_none());
}

#[test]
fn gather_paths_later_entry_replaces_earlier() {
    let archives = vec![
        vec![entry("art/a.frm", "first"), entry("art/a.frm", "second")],
        vec![entry("art/b.frm", "b"), entry("art/a.frm", "third")],
    ];
    let map = gather_paths(&archives);
    assert_eq!(map.len(), 2);
    let a = lookup(&map, "art/a.frm").unwrap();
    assert_eq!(a.location, FileLocation::Archive(1));
    assert_eq!(a.original_path, "third");
    let b = lookup(&map, "art/b.frm").unwrap();
    assert_eq!(b.location, FileLocation::Archive(1));
}
