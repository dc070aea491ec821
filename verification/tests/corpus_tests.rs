use face_recognition::corpus::{
    begin_scan, identity_dirs, image_files, is_image_file, join_path, photographs, Entry,
    EntryKind, Listing, ScanStart,
};
use face_recognition::error::FaceError;

fn file(name: &str) -> Entry {
    Entry { name: name.to_string(), kind: EntryKind::File }
}

fn dir(name: &str) -> Entry {
    Entry { name: name.to_string(), kind: EntryKind::Directory }
}

fn other(name: &str) -> Entry {
    Entry { name: name.to_string(), kind: EntryKind::Other }
}

#[test]
fn image_extensions_are_jpg_jpeg_and_png() {
    assert!(is_image_file("a.jpg"));
    assert!(is_image_file("a.jpeg"));
    assert!(is_image_file("a.png"));
    assert!(!is_image_file("a.gif"));
    assert!(!is_image_file("a.bmp"));
    assert!(!is_image_file("a.jp"));
    assert!(!is_image_file("a.jpgg"));
    assert!(!is_image_file("a.pngs"));
    assert!(!is_image_file("a.txt"));
}

#[test]
fn image_extensions_in_any_case() {
    assert!(is_image_file("a.JPG"));
    assert!(is_image_file("a.Jpg"));
    assert!(is_image_file("a.jPeG"));
    assert!(is_image_file("a.JPEG"));
    assert!(is_image_file("a.PNG"));
    assert!(is_image_file("a.pNg"));
}

#[test]
fn only_the_part_after_the_last_dot_counts() {
    assert!(is_image_file("a.b.png"));
    assert!(is_image_file("archive.tar.jpg"));
    assert!(!is_image_file("a.png.txt"));
    assert!(!is_image_file("a.jpg."));
    assert!(is_image_file("face photo (1).jpeg"));
    assert!(is_image_file("..jpg"));
}

#[test]
fn names_without_an_extension_are_no_images() {
    assert!(!is_image_file(""));
    assert!(!is_image_file("jpg"));
    assert!(!is_image_file("png"));
    assert!(!is_image_file(".jpg"));
    assert!(!is_image_file(".png"));
    assert!(!is_image_file("a."));
    assert!(!is_image_file("."));
}

#[test]
fn letters_that_only_look_alike_are_no_match() {
    assert!(!is_image_file("a.jp\u{0261}"));
    assert!(!is_image_file("a.\u{ff4a}pg"));
    assert!(!is_image_file("a.*PG"));
    assert!(!is_image_file("a.JPG\u{0}"));
    assert!(is_image_file("\u{00e9}t\u{00e9}.png"));
}

#[test]
fn is_image_file_agrees_with_the_path_extension() {
    let names = [
        "a.jpg", "A.JPG", "b.jpeg", "c.PNG", "d.gif", "e", ".jpg", "f.", "g.tar.png", "h.png.bak",
        "..png", "i.Jpeg", "j.jpgx", "", "k.pn", "l.jpe",
    ];
    for name in names {
        let expected = match std::path::Path::new(name).extension() {
            Some(ext) => {
                let ext = ext.to_string_lossy().to_lowercase();
                ext == "jpg" || ext == "jpeg" || ext == "png"
            }
            None => false,
        };
        assert_eq!(is_image_file(name), expected, "at {:?}", name);
    }
}

#[test]
fn identity_dirs_are_the_named_directories() {
    let entries = vec![
        dir("bob"),
        file("notes.txt"),
        dir(""),
        dir("alice"),
        other("socket"),
        file("carol"),
        dir("carol.jpg"),
    ];
    assert_eq!(identity_dirs(&entries), vec!["bob", "alice", "carol.jpg"]);
    assert_eq!(identity_dirs(&vec![]), Vec::<String>::new());
}

#[test]
fn image_files_are_the_regular_files_with_an_image_extension() {
    let entries = vec![
        file("2.PNG"),
        file("readme.md"),
        dir("nested.jpg"),
        file("1.jpg"),
        other("pipe.png"),
        file("3.jpeg"),
        file(""),
    ];
    assert_eq!(image_files(&entries), vec!["2.PNG", "1.jpg", "3.jpeg"]);
    assert_eq!(image_files(&vec![]), Vec::<String>::new());
}

#[test]
fn a_missing_root_is_created() {
    assert!(matches!(begin_scan(&Listing::Missing), Ok(ScanStart::CreateRoot)));
}

#[test]
fn an_unreadable_root_fails_the_rebuild() {
    assert!(matches!(begin_scan(&Listing::Unreadable), Err(FaceError::CorpusIo)));
}

#[test]
fn a_listed_root_is_visited_identity_by_identity() {
    let root = Listing::Entries(vec![dir("zoe"), file("x.jpg"), dir("adam")]);
    match begin_scan(&root) {
        Ok(ScanStart::Visit(names)) => assert_eq!(names, vec!["zoe", "adam"]),
        _ => panic!("expected a visit"),
    }
    match begin_scan(&Listing::Entries(vec![])) {
        Ok(ScanStart::Visit(names)) => assert!(names.is_empty()),
        _ => panic!("expected a visit"),
    }
}

#[test]
fn photographs_are_the_image_paths_of_a_partition() {
    let partition = Listing::Entries(vec![file("b.jpg"), file("notes"), file("a.PNG"), dir("c.png")]);
    assert_eq!(
        photographs("knowledge/alice", &partition),
        Ok(vec!["knowledge/alice/b.jpg".to_string(), "knowledge/alice/a.PNG".to_string()])
    );
    assert_eq!(photographs("k/bob", &Listing::Entries(vec![])), Ok(vec![]));
}

#[test]
fn a_partition_that_cannot_be_listed_fails_the_rebuild() {
    assert_eq!(photographs("knowledge/alice", &Listing::Unreadable), Err(FaceError::CorpusIo));
    assert_eq!(photographs("knowledge/alice", &Listing::Missing), Err(FaceError::CorpusIo));
}

#[test]
fn join_path_puts_a_slash_between() {
    assert_eq!(join_path("knowledge", "alice"), "knowledge/alice");
    assert_eq!(join_path("knowledge/alice", "1.jpg"), "knowledge/alice/1.jpg");
    assert_eq!(join_path("", "x"), "/x");
    assert_eq!(join_path("a", ""), "a/");
}
