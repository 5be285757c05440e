use anydir::entry::anyfile_from_path;
use anydir::path::relative_or_unchanged;
use anydir::path::relative_path;
use anydir::text::decode;
use anydir::AnyFileEntry;
use anydir::EntryError;
use anydir::FileEntry;
use anydir::RtFileEntry;
use std::io::Error;
use std::io::ErrorKind;

fn entry_under_home() -> RtFileEntry {
    RtFileEntry::from_path("/home/u/data/x.txt".to_string(), Ok("/home/u".to_string())).unwrap()
}

#[test]
fn from_path_strips_the_working_directory() {
    let entry = entry_under_home();
    assert_eq!(entry.path(), "data/x.txt");
    assert_eq!(entry.absolute_path(), Some("/home/u/data/x.txt"));
}

#[test]
fn from_path_outside_the_working_directory_keeps_the_path() {
    let entry =
        RtFileEntry::from_path("/etc/hosts".to_string(), Ok("/home/u".to_string())).unwrap();
    assert_eq!(entry.path(), "/etc/hosts");
    assert_eq!(entry.absolute_path(), Some("/etc/hosts"));
}

#[test]
fn from_path_matches_whole_components_only() {
    let entry =
        RtFileEntry::from_path("/home/user/x.txt".to_string(), Ok("/home/u".to_string())).unwrap();
    assert_eq!(entry.path(), "/home/user/x.txt");
}

#[test]
fn from_path_of_the_working_directory_itself_is_empty() {
    let entry = RtFileEntry::from_path("/home/u".to_string(), Ok("/home/u".to_string())).unwrap();
    assert_eq!(entry.path(), "");
    assert_eq!(entry.absolute_path(), Some("/home/u"));
}

#[test]
fn from_path_without_working_directory_fails_with_its_error() {
    let failure = Error::new(ErrorKind::NotFound, "no working directory");
    match RtFileEntry::from_path("/home/u/x".to_string(), Err(failure)) {
        Err(EntryError::Io(e)) => {
            assert_eq!(e.kind(), ErrorKind::NotFound);
            assert_eq!(e.to_string(), "no working directory");
        }
        other => panic!("unexpected: {:?}", other),
    }
}

#[test]
fn any_from_path_gives_an_entry_on_disk() {
    let entry =
        AnyFileEntry::from_path("/home/u/data/x.txt".to_string(), Ok("/home/u".to_string()))
            .unwrap();
    assert!(matches!(entry, AnyFileEntry::Rt(_)));
    assert_eq!(entry.path(), "data/x.txt");
    assert_eq!(entry.absolute_path(), Some("/home/u/data/x.txt"));
}

#[test]
fn any_from_path_without_working_directory_fails() {
    let failure = Error::new(ErrorKind::PermissionDenied, "denied");
    match AnyFileEntry::from_path("/x".to_string(), Err(failure)) {
        Err(EntryError::Io(e)) => assert_eq!(e.kind(), ErrorKind::PermissionDenied),
        other => panic!("unexpected: {:?}", other),
    }
}

#[test]
fn anyfile_from_path_is_the_same_constructor() {
    let entry =
        anyfile_from_path("/home/u/data/x.txt".to_string(), Ok("/home/u".to_string())).unwrap();
    assert!(matches!(entry, AnyFileEntry::Rt(_)));
    assert_eq!(entry.path(), "data/x.txt");
    let failure = Error::new(ErrorKind::NotFound, "gone");
    assert!(matches!(
        anyfile_from_path("/x".to_string(), Err(failure)),
        Err(EntryError::Io(_))
    ));
}

#[test]
fn disk_entry_returns_the_bytes_that_were_read() {
    let entry = entry_under_home();
    assert_eq!(entry.read_bytes(Some(Ok(vec![1, 2]))).unwrap(), vec![1, 2]);
    assert_eq!(entry.read_bytes(Some(Ok(Vec::new()))).unwrap(), Vec::<u8>::new());
}

#[test]
fn disk_entry_hands_on_the_error_of_the_read() {
    let entry = entry_under_home();
    match entry.read_bytes(Some(Err(Error::new(ErrorKind::NotFound, "missing")))) {
        Err(EntryError::Io(e)) => {
            assert_eq!(e.kind(), ErrorKind::NotFound);
            assert_eq!(e.to_string(), "missing");
        }
        other => panic!("unexpected: {:?}", other),
    }
    match entry.read_string(Some(Err(Error::new(ErrorKind::PermissionDenied, "denied")))) {
        Err(EntryError::Io(e)) => assert_eq!(e.kind(), ErrorKind::PermissionDenied),
        other => panic!("unexpected: {:?}", other),
    }
}

#[test]
fn disk_entry_without_a_read_is_not_read() {
    let entry = entry_under_home();
    assert!(matches!(entry.read_bytes(None), Err(EntryError::NotRead)));
    assert!(matches!(entry.read_string(None), Err(EntryError::NotRead)));
}

#[test]
fn disk_entry_decodes_text() {
    let entry = entry_under_home();
    assert_eq!(entry.read_string(Some(Ok(b"Z".to_vec()))).unwrap(), "Z");
    assert_eq!(
        entry.read_string(Some(Ok("gr\u{fc}n \u{4e2d}".as_bytes().to_vec()))).unwrap(),
        "gr\u{fc}n \u{4e2d}"
    );
    assert_eq!(entry.read_string(Some(Ok(Vec::new()))).unwrap(), "");
}

#[test]
fn disk_entry_with_bytes_that_are_no_text() {
    let entry = entry_under_home();
    let bytes = vec![0xff, 0xfe, 0xfd];
    assert_eq!(entry.read_bytes(Some(Ok(bytes.clone()))).unwrap(), bytes);
    assert!(matches!(
        entry.read_string(Some(Ok(bytes))),
        Err(EntryError::InvalidData)
    ));
}

#[test]
fn any_entry_forwards_to_the_entry_on_disk() {
    let entry = AnyFileEntry::Rt(entry_under_home());
    assert_eq!(entry.path(), "data/x.txt");
    assert_eq!(entry.absolute_path(), Some("/home/u/data/x.txt"));
    assert_eq!(entry.read_bytes(Some(Ok(vec![7]))).unwrap(), vec![7]);
    assert_eq!(entry.read_string(Some(Ok(b"hi".to_vec()))).unwrap(), "hi");
    assert!(matches!(entry.read_bytes(None), Err(EntryError::NotRead)));
    assert!(matches!(
        entry.read_string(Some(Ok(vec![0xc0, 0x80]))),
        Err(EntryError::InvalidData)
    ));
}

#[test]
fn entries_render_their_relative_path() {
    let entry = entry_under_home();
    assert_eq!(entry.to_string(), "data/x.txt");
    let shown: &str = entry.as_ref();
    assert_eq!(shown, "data/x.txt");
    let any = AnyFileEntry::Rt(entry);
    assert_eq!(any.to_string(), "data/x.txt");
    let shown: &str = any.as_ref();
    assert_eq!(shown, "data/x.txt");
    assert!(std::path::Path::new(any.path()).ends_with("x.txt"));
}

#[test]
fn cloned_entry_is_the_same_entry() {
    let entry = entry_under_home();
    let copy = entry.clone();
    assert_eq!(copy.path(), entry.path());
    assert_eq!(copy.absolute_path(), entry.absolute_path());
}

#[test]
fn relative_path_strips_the_base() {
    assert_eq!(relative_path("/base/a.txt", "/base"), "a.txt");
    assert_eq!(relative_path("/base/sub/c.txt", "/base"), "sub/c.txt");
    assert_eq!(relative_path("/base/a.txt", "/base/"), "a.txt");
    assert_eq!(relative_path("./a.txt", "."), "a.txt");
    assert_eq!(relative_path("assets/a.txt", "assets"), "a.txt");
}

#[test]
fn relative_path_keeps_what_is_not_under_the_base() {
    assert_eq!(relative_path("/other/a.txt", "/base"), "/other/a.txt");
    assert_eq!(relative_path("/basement/a.txt", "/base"), "/basement/a.txt");
    assert_eq!(relative_path("a.txt", "/base"), "a.txt");
}

#[test]
fn relative_or_unchanged_prefers_the_stripped_rest() {
    assert_eq!(
        relative_or_unchanged("/home/u/data/x.txt", Some("data/x.txt".to_string())),
        "data/x.txt"
    );
    assert_eq!(relative_or_unchanged("/tmp/x.txt", None), "/tmp/x.txt");
    assert_eq!(relative_or_unchanged("/tmp", Some(String::new())), "");
}

#[test]
fn decode_accepts_utf8_only() {
    assert_eq!(decode(b"A\n").unwrap(), "A\n");
    assert_eq!(decode(&[0xe2, 0x82, 0xac]).unwrap(), "\u{20ac}");
    assert_eq!(decode(&[]).unwrap(), "");
    assert!(matches!(decode(&[0xff, 0xfe, 0xfd]), Err(EntryError::InvalidData)));
    assert!(matches!(decode(&[0xe2, 0x82]), Err(EntryError::InvalidData)));
    assert!(matches!(decode(&[0xed, 0xa0, 0x80]), Err(EntryError::InvalidData)));
}
