use atlas_cache::resolver::{get_file_name, ArchiveFile, FileKind};

#[test]
fn first_file_has_its_name_in_lower_case() {
    assert_eq!(
        get_file_name("smTiles", 1, 0),
        Some(ArchiveFile { name: String::from("smtiles"), kind: FileKind::Data })
    );
    assert_eq!(
        get_file_name("Objects", 0, 2),
        Some(ArchiveFile { name: String::from("objects"), kind: FileKind::Wzx })
    );
}

#[test]
fn later_files_have_their_number_behind_the_name() {
    assert_eq!(
        get_file_name("Objects", 2, 1),
        Some(ArchiveFile { name: String::from("Objects2"), kind: FileKind::Index })
    );
    assert_eq!(get_file_name("tiles", 10, 0).unwrap().name, "tiles10");
    assert_eq!(get_file_name("tiles", 127, 0).unwrap().name, "tiles127");
    assert_eq!(get_file_name("tiles", 4_000_000_000, 0).unwrap().name, "tiles4000000000");
}

#[test]
fn data_type_selects_the_kind() {
    assert_eq!(get_file_name("a", 1, 0).unwrap().kind, FileKind::Data);
    assert_eq!(get_file_name("a", 1, 1).unwrap().kind, FileKind::Index);
    assert_eq!(get_file_name("a", 1, 2).unwrap().kind, FileKind::Wzx);
}

#[test]
fn other_data_types_select_no_file() {
    assert_eq!(get_file_name("a", 1, 3), None);
    assert_eq!(get_file_name("a", 5, 7), None);
    assert_eq!(get_file_name("a", 1, u32::MAX), None);
}

#[test]
fn extensions() {
    assert_eq!(FileKind::Data.extension(), "wzl");
    assert_eq!(FileKind::Index.extension(), "idx");
    assert_eq!(FileKind::Wzx.extension(), "wzx");
}
