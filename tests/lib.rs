use bilibilicomic_download::archive::{archive_path, build_archive, order_entries, ArchiveEntry};
use bilibilicomic_download::ComicError;
use std::io::Read;

#[test]
fn lib_it_works() {}

#[test]
fn error_kinds_carry_their_cause() {
    let e = ComicError::to_download("d".to_string());
    assert!(matches!(e, ComicError::DownloadFailed(ref s) if s == "d"));
    let e = ComicError::to_get_list("l".to_string());
    assert!(matches!(e, ComicError::GetListFailed(ref s) if s == "l"));
    let e = ComicError::to_get_book("b".to_string());
    assert!(matches!(e, ComicError::GetBookFailed(ref s) if s == "b"));
    let e = ComicError::to_archive("a".to_string());
    assert!(matches!(e, ComicError::ArchiveFailed(ref s) if s == "a"));
    assert_eq!(e.cause(), "a");
}

#[test]
fn archive_round_trip() {
    let entries = vec![
        ArchiveEntry { name: "a".to_string(), data: b"first".to_vec() },
        ArchiveEntry { name: "b".to_string(), data: vec![0u8; 5000] },
        ArchiveEntry { name: "c".to_string(), data: Vec::new() },
    ];
    let bytes = build_archive(&entries).unwrap();
    let mut zip = zip::ZipArchive::new(std::io::Cursor::new(bytes)).unwrap();
    assert_eq!(zip.len(), 3);
    for e in &entries {
        let mut f = zip.by_name(&e.name).unwrap();
        let mut data = Vec::new();
        f.read_to_end(&mut data).unwrap();
        assert_eq!(data, e.data);
    }
}

#[test]
fn archive_of_nothing() {
    let bytes = build_archive(&Vec::new()).unwrap();
    let zip = zip::ZipArchive::new(std::io::Cursor::new(bytes)).unwrap();
    assert_eq!(zip.len(), 0);
}

#[test]
fn archive_is_deterministic() {
    let entries = vec![ArchiveEntry { name: "x.png".to_string(), data: b"xyz".to_vec() }];
    assert_eq!(build_archive(&entries).unwrap(), build_archive(&entries).unwrap());
}

#[test]
fn archive_sits_beside_its_directory() {
    assert_eq!(archive_path("out/1-Ep1"), "out/1-Ep1.cbz");
}

fn entry(name: &str, data: &[u8]) -> ArchiveEntry {
    ArchiveEntry { name: name.to_string(), data: data.to_vec() }
}

#[test]
fn entries_are_ordered_by_name() {
    let entries = vec![
        entry("100-2.png", b"2"),
        entry("100-10.png", b"10"),
        entry("100-1.png", b"1"),
        entry("100-1.pn", b"p"),
        entry("a", b""),
    ];
    let ordered = order_entries(entries);
    let names: Vec<&str> = ordered.iter().map(|e| e.name.as_str()).collect();
    assert_eq!(names, vec!["100-1.pn", "100-1.png", "100-10.png", "100-2.png", "a"]);
    assert_eq!(ordered[1].data, b"1".to_vec());
    assert!(order_entries(Vec::new()).is_empty());
}

#[test]
fn listing_order_does_not_change_the_archive() {
    let one = order_entries(vec![entry("b", b"B"), entry("a", b"A"), entry("c", b"C")]);
    let two = order_entries(vec![entry("c", b"C"), entry("b", b"B"), entry("a", b"A")]);
    assert_eq!(build_archive(&one).unwrap(), build_archive(&two).unwrap());
}
