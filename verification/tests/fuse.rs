use wikijs::fuse::{
    basename, directory_entries, directory_inode, lookup_inode, page_inode, read_data,
    truncate_content, write_content, FileKind, Inode, InodeType, PageCache, PageCacheEvent,
    PageCacheStep, PAGE_INODE_FLAG,
};
use wikijs::page::{PageMinimal, PageTreeItem};

fn tree_item(id: i64, path: &str, is_folder: bool, page_id: Option<i64>) -> PageTreeItem {
    PageTreeItem {
        id,
        path: path.to_string(),
        depth: 1,
        title: path.to_string(),
        is_private: false,
        is_folder,
        private_ns: None,
        parent: Some(3),
        page_id,
        locale: "en".to_string(),
    }
}

fn minimal(id: i64, updated_at: &str) -> PageMinimal {
    PageMinimal {
        id,
        path: "home".to_string(),
        content: "# Home".to_string(),
        created_at: "2023-01-01T00:00:00Z".to_string(),
        updated_at: updated_at.to_string(),
        editor: "markdown".to_string(),
        locale: "en".to_string(),
    }
}

#[test]
fn inode_round_trips() {
    assert_eq!(page_inode(5), PAGE_INODE_FLAG | 5);
    assert_eq!(InodeType::from(page_inode(5)), InodeType::Page(5));
    assert_eq!(directory_inode(0), 1);
    assert_eq!(InodeType::from(1), InodeType::Directory(0));
    assert_eq!(InodeType::from(directory_inode(41)), InodeType::Directory(41));
    assert_eq!(InodeType::from(0), InodeType::Directory(-1));
}

#[test]
fn basenames() {
    assert_eq!(basename("a/b/c"), "c");
    assert_eq!(basename("home"), "home");
    assert_eq!(basename("a/"), "");
    assert_eq!(basename(""), "");
    assert_eq!(basename("ä/ö"), "ö");
}

#[test]
fn listing_from_the_start() {
    let items = vec![tree_item(4, "docs", true, Some(9)), tree_item(5, "docs/x", false, Some(10))];
    let entries = directory_entries(1, 0, &items);
    let view: Vec<(u64, i64, FileKind, String)> =
        entries.into_iter().map(|e| (e.ino, e.offset, e.kind, e.name)).collect();
    assert_eq!(
        view,
        vec![
            (1, 1, FileKind::Directory, ".".to_string()),
            (5, 2, FileKind::Directory, "docs".to_string()),
            (PAGE_INODE_FLAG | 9, 3, FileKind::RegularFile, "docs.md".to_string()),
            (PAGE_INODE_FLAG | 10, 4, FileKind::RegularFile, "x.md".to_string()),
        ]
    );
}

#[test]
fn listing_from_later_offsets() {
    let items = vec![tree_item(4, "docs", true, None)];
    let from_one = directory_entries(1, 1, &items);
    assert_eq!(from_one.len(), 1);
    assert_eq!(from_one[0].offset, 2);
    assert_eq!(from_one[0].name, "docs");
    assert!(directory_entries(1, 2, &items).is_empty());
}

#[test]
fn lookups() {
    let items = vec![tree_item(4, "docs", true, Some(9)), tree_item(5, "docs/x", false, Some(10))];
    assert_eq!(lookup_inode(&items, "docs"), Some(5));
    assert_eq!(lookup_inode(&items, "docs.md"), Some(PAGE_INODE_FLAG | 9));
    assert_eq!(lookup_inode(&items, "x.md"), Some(PAGE_INODE_FLAG | 10));
    assert_eq!(lookup_inode(&items, "y"), None);
}

#[test]
fn reads() {
    let content = "hello world".to_string();
    assert_eq!(read_data(&content, 6, 100), Some(b"world".to_vec()));
    assert_eq!(read_data(&content, 0, 5), Some(b"hello".to_vec()));
    assert_eq!(read_data(&content, 11, 5), Some(Vec::new()));
    assert_eq!(read_data(&content, 12, 5), None);
    assert_eq!(read_data(&content, -1, 5), None);
}

#[test]
fn writes() {
    let content = "hello world".to_string();
    assert_eq!(write_content(&content, 6, b"WORLD", false), Some("hello WORLD".to_string()));
    assert_eq!(write_content(&content, 0, b"J", false), Some("Jello world".to_string()));
    assert_eq!(write_content(&content, 0, b"J", true), Some("J".to_string()));
    assert_eq!(write_content(&content, 11, b"!", false), Some("hello world!".to_string()));
    assert_eq!(write_content(&content, 12, b"!", false), None);
    assert_eq!(write_content(&content, 5, &[0xff], false), Some("hello\u{fffd}world".to_string()));
}

#[test]
fn truncations() {
    let content = "hello".to_string();
    assert_eq!(truncate_content(&content, 2), "he");
    assert_eq!(truncate_content(&content, 0), "h");
    assert_eq!(truncate_content(&content, 5), "hello");
    assert_eq!(truncate_content(&content, 9), "hello");
}

#[test]
fn attributes() {
    let folder = Inode::Directory(vec![tree_item(4, "docs", true, None)]);
    let attributes = folder.into_attributes();
    assert_eq!(attributes.ino, 4);
    assert_eq!(attributes.kind, FileKind::Directory);
    assert_eq!(attributes.perm, 0o755);
    let empty = Inode::Directory(Vec::new()).into_attributes();
    assert_eq!(empty.ino, 0);
}

#[test]
fn page_cache_lookup_protocol() {
    let mut cache = PageCache::new();
    assert!(matches!(cache.get_step(7, PageCacheEvent::Start), PageCacheStep::FetchPage));
    match cache.get_step(7, PageCacheEvent::Fetched(minimal(7, "t1"))) {
        PageCacheStep::Ready(page) => assert_eq!(page.updated_at, "t1"),
        _ => panic!("expected the fetched page"),
    }
    assert!(matches!(cache.get_step(7, PageCacheEvent::Start), PageCacheStep::FetchUpdatedAt));
    match cache.get_step(7, PageCacheEvent::UpdatedAt("t1".to_string())) {
        PageCacheStep::Ready(page) => assert_eq!(page.id, 7),
        _ => panic!("expected the cached page"),
    }
    assert!(matches!(cache.get_step(7, PageCacheEvent::UpdatedAt("t2".to_string())), PageCacheStep::FetchPage));
    cache.evict(7);
    assert!(cache.cached(7).is_none());
    assert!(matches!(cache.get_step(7, PageCacheEvent::Start), PageCacheStep::FetchPage));
}

#[test]
fn listing_offsets_continue_the_listing() {
    let items = vec![
        tree_item(4, "docs", true, Some(9)),
        tree_item(5, "docs/x", false, Some(10)),
        tree_item(6, "img", true, None),
    ];
    for offset in [0i64, 1] {
        let entries = directory_entries(1, offset, &items);
        for (k, entry) in entries.iter().enumerate() {
            assert_eq!(entry.offset, offset + 1 + k as i64);
        }
    }
}

#[test]
fn read_after_write_gives_the_written_bytes() {
    let content = "hello world".to_string();
    let merged = write_content(&content, 6, "wörld".as_bytes(), false).unwrap();
    assert_eq!(read_data(&merged, 6, 6), Some("wörld".as_bytes().to_vec()));
    let truncated = write_content(&content, 2, b"yo", true).unwrap();
    assert_eq!(read_data(&truncated, 2, 2), Some(b"yo".to_vec()));
}

#[test]
fn lookups_that_cannot_give_an_inode_are_flagged() {
    let items = vec![tree_item(4, "docs", true, None), tree_item(-1, "odd", true, Some(3))];
    assert!(wikijs::fuse::can_look_up(&items, "docs"));
    assert!(!wikijs::fuse::can_look_up(&items, "docs.md"));
    assert!(!wikijs::fuse::can_look_up(&items, "odd"));
    assert!(wikijs::fuse::can_look_up(&items, "odd.md"));
    assert!(wikijs::fuse::can_look_up(&items, "missing"));
}

#[test]
fn listed_names_look_up_to_listed_inodes() {
    let items = vec![
        tree_item(4, "docs", true, Some(9)),
        tree_item(5, "docs/x", false, Some(10)),
        tree_item(6, "img", true, None),
    ];
    for entry in directory_entries(1, 1, &items) {
        assert_eq!(lookup_inode(&items, &entry.name), Some(entry.ino));
    }
}

#[test]
fn page_dates_read_as_instants() {
    assert_eq!(wikijs::fuse::parse_time("2023-01-02T00:00:00Z"), Some((1672617600, 0)));
    assert_eq!(wikijs::fuse::parse_time("2023-01-02T01:00:00.5+01:00"), Some((1672617600, 500_000_000)));
    assert_eq!(wikijs::fuse::parse_time("yesterday"), None);
}

#[test]
fn cuts_inside_characters_are_flagged() {
    let content = "aé".to_string(); // 'é' takes the bytes 1 and 2
    assert!(wikijs::fuse::can_read(&content, 0, 1));
    assert!(!wikijs::fuse::can_read(&content, 0, 2));
    assert!(!wikijs::fuse::can_read(&content, 2, 1));
    assert!(wikijs::fuse::can_read(&content, 5, 1));
    assert!(!wikijs::fuse::can_write(&content, 1, b"x"));
    assert!(wikijs::fuse::can_write(&content, 1, b"xy"));
    assert!(!wikijs::fuse::can_write(&content, 2, b"x"));
    assert!(!wikijs::fuse::can_write(&content, 0, b"xx"));
    assert!(wikijs::fuse::can_write(&content, 0, b"xxx"));
    assert!(wikijs::fuse::can_truncate(&content, 1));
    assert!(!wikijs::fuse::can_truncate(&content, 2));
    assert!(wikijs::fuse::can_truncate(&content, 0));
    assert!(wikijs::fuse::can_truncate(&content, 9));
}

#[test]
fn listings_that_cannot_be_made_are_flagged() {
    let items = vec![tree_item(4, "docs", true, Some(9))];
    assert!(wikijs::fuse::can_list(0, &items));
    assert!(wikijs::fuse::can_list(i64::MAX, &items));
    assert!(wikijs::fuse::can_list(2, &vec![tree_item(-1, "odd", true, None)]));
    assert!(wikijs::fuse::can_list(5, &vec![tree_item(-1, "odd", true, None)]));
    assert!(!wikijs::fuse::can_list(1, &vec![tree_item(-1, "odd", true, None)]));
}

#[test]
fn listings_resume_after_the_given_offset() {
    let items = vec![tree_item(4, "docs", true, Some(9)), tree_item(5, "docs/x", false, Some(10))];
    let full: Vec<(u64, i64, FileKind, String)> =
        directory_entries(1, 0, &items).into_iter().map(|e| (e.ino, e.offset, e.kind, e.name)).collect();
    assert_eq!(full.len(), 4);
    for offset in 0i64..6 {
        let resumed: Vec<(u64, i64, FileKind, String)> =
            directory_entries(1, offset, &items).into_iter().map(|e| (e.ino, e.offset, e.kind, e.name)).collect();
        let expected: Vec<(u64, i64, FileKind, String)> =
            full.iter().filter(|e| e.1 > offset).cloned().collect();
        assert_eq!(resumed, expected);
    }
    let from_two = directory_entries(1, 2, &vec![tree_item(4, "docs", true, Some(9))]);
    assert_eq!(from_two.len(), 1);
    assert_eq!(from_two[0].offset, 3);
    assert_eq!(from_two[0].name, "docs.md");
}

#[test]
fn writes_overwrite_in_place() {
    let content = "hello world".to_string();
    assert_eq!(write_content(&content, 0, b"HE", false), Some("HEllo world".to_string()));
    assert_eq!(write_content(&content, 0, b"HE", true), Some("HE".to_string()));
}

#[test]
fn negative_offsets_list_nothing() {
    let items = vec![tree_item(4, "docs", true, Some(9))];
    assert!(directory_entries(1, -1, &items).is_empty());
    assert!(directory_entries(1, i64::MIN, &items).is_empty());
    assert!(wikijs::fuse::can_list(-1, &vec![tree_item(-1, "odd", true, None)]));
}
