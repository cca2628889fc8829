use filegrid::files::{count_regular_files, EntryKind};

#[test]
fn counts_only_regular_files() {
    let entries = vec![
        EntryKind::File,
        EntryKind::Directory,
        EntryKind::Symlink,
        EntryKind::File,
        EntryKind::Other,
        EntryKind::File,
        EntryKind::Directory,
    ];
    assert_eq!(count_regular_files(&entries), 3);
}

#[test]
fn empty_directory_listing_counts_zero() {
    let entries: Vec<EntryKind> = vec![];
    assert_eq!(count_regular_files(&entries), 0);
}

#[test]
fn counts_all_when_all_are_files() {
    let entries = vec![EntryKind::File; 25];
    assert_eq!(count_regular_files(&entries), 25);
}

#[test]
fn counts_zero_when_no_regular_files() {
    let entries = vec![EntryKind::Directory, EntryKind::Symlink, EntryKind::Other];
    assert_eq!(count_regular_files(&entries), 0);
}
