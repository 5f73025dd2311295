use insh::entry::{row, width, Widths, group, left_aligned, name, name_and_link_target, right_aligned, unknown, user, FileInfo, FileMetadata, FileType};

fn metadata(user: Option<&str>, link_target: Option<&str>) -> FileMetadata {
    FileMetadata {
        mode: 0o120777,
        hard_links: 1,
        uid: 1000,
        user: user.map(String::from),
        gid: 1001,
        group: None,
        size: 4,
        modified: 0,
        link_target: link_target.map(String::from),
    }
}

#[test]
fn a_directory_is_named_with_a_slash() {
    let dir = FileInfo { path: String::from("/a/src"), name: Some(String::from("src")), file_type: Some(FileType::Dir), metadata: None };
    assert_eq!(name(&dir), "src/");
    let unnamed = FileInfo { path: String::from("/"), name: None, file_type: Some(FileType::File), metadata: None };
    assert_eq!(name(&unnamed), "");
}

#[test]
fn a_link_is_named_with_its_target() {
    let link = FileInfo {
        path: String::from("/a/latest"),
        name: Some(String::from("latest")),
        file_type: Some(FileType::Symlink),
        metadata: Some(metadata(Some("pat"), Some("v2"))),
    };
    assert_eq!(name_and_link_target(&link), "latest -> v2");
}

#[test]
fn an_owner_without_a_name_is_shown_by_its_id() {
    assert_eq!(user(&metadata(Some("pat"), None)), "pat");
    assert_eq!(user(&metadata(None, None)), "1000");
    assert_eq!(group(&metadata(None, None)), "1001");
}

#[test]
fn columns_are_padded_to_their_width() {
    assert_eq!(right_aligned("7", 3), "  7");
    assert_eq!(left_aligned("pat", 5), "pat  ");
    assert_eq!(right_aligned("12345", 3), "12345");
    assert_eq!(unknown(3), "???");
}

#[test]
fn test_width_is_the_width_of_the_row() {
    let dir = FileInfo { path: String::from("/tmp/sub"), name: Some(String::from("sub")), file_type: Some(FileType::Dir), metadata: None };
    let widths = Widths { hard_links: 2, user: 6, group: 6, size: 6 };
    let r = row(&dir, "drwxr-xr-x", "Jan  1 00:00", widths);
    assert_eq!(width(2, 6, 6, 6, 4), r.chars().count());

    let link = FileInfo {
        path: String::from("/tmp/link"),
        name: Some(String::from("link")),
        file_type: Some(FileType::Symlink),
        metadata: Some(FileMetadata {
            mode: 0o120777,
            hard_links: 1,
            uid: 0,
            user: Some(String::from("root")),
            gid: 0,
            group: Some(String::from("root")),
            size: 9,
            modified: 0,
            link_target: Some(String::from("../target")),
        }),
    };
    let widths = Widths { hard_links: 1, user: 6, group: 6, size: 1 };
    let r = row(&link, "lrwxrwxrwx", "Jan  1 00:00", widths);
    assert_eq!(width(1, 6, 6, 1, 17), r.chars().count());
}
