//! The logic of the FUSE file system that mounts a wiki: how pages and
//! folders of the page tree become inodes, directory entries and file
//! contents.

use vstd::prelude::*;
use vstd::slice::{slice_subrange, slice_to_vec};
use vstd::utf8::{decode_utf8, decode_utf8_encode_utf8, encode_utf8, is_char_boundary, valid_utf8};

use crate::common::Date;
use std::collections::HashMap;

use crate::page::{Page, PageMinimal, PageTreeItem};

verus! {

/// The bit that marks the inode of a page; the inodes of folders lack it.
pub const PAGE_INODE_FLAG: u64 = 0x8000_0000_0000_0000;

/// What an inode number stands for: the page with an id, or the folder
/// whose page tree item has an id.
#[derive(Debug, Clone, Copy, PartialEq, Eq)]
pub enum InodeType {
    Page(i64),
    Directory(i64),
}

/// The object that an inode number stands for: inodes with the page flag are
/// pages, the others are folders, numbered one above their tree item's id.
pub open spec fn spec_inode_type(ino: u64) -> InodeType {
    if ino >= PAGE_INODE_FLAG {
        InodeType::Page((ino - PAGE_INODE_FLAG) as i64)
    } else {
        InodeType::Directory((ino - 1) as i64)
    }
}

impl InodeType {
    /// Decodes an inode number.
    pub fn from_ino(ino: u64) -> (inode_type: InodeType)
        ensures
            inode_type == spec_inode_type(ino),
    {
        if ino & 0x8000_0000_0000_0000 == 0x8000_0000_0000_0000 {
            proof {
                assert(ino & 0x8000_0000_0000_0000u64 == 0x8000_0000_0000_0000u64 ==> ino
                    >= 0x8000_0000_0000_0000u64 && ino & 0x7FFF_FFFF_FFFF_FFFFu64 == ino
                    - 0x8000_0000_0000_0000u64) by (bit_vector);
            }
            InodeType::Page((ino & 0x7FFF_FFFF_FFFF_FFFF) as i64)
        } else {
            proof {
                assert(ino & 0x8000_0000_0000_0000u64 != 0x8000_0000_0000_0000u64 ==> ino
                    < 0x8000_0000_0000_0000u64) by (bit_vector);
            }
            if ino == 0 {
                InodeType::Directory(-1)
            } else {
                InodeType::Directory((ino - 1) as i64)
            }
        }
    }
}

impl From<u64> for InodeType {
    fn from(ino: u64) -> (inode_type: InodeType) {
        InodeType::from_ino(ino)
    }
}

impl vstd::std_specs::convert::FromSpecImpl<u64> for InodeType {
    open spec fn obeys_from_spec() -> bool {
        true
    }

    open spec fn from_spec(ino: u64) -> Self {
        spec_inode_type(ino)
    }
}

/// The inode number of the page with an id: the id as an unsigned number,
/// with the page flag set.
pub open spec fn spec_page_inode(page_id: i64) -> u64 {
    (page_id as u64) | PAGE_INODE_FLAG
}

/// The inode number of the page with an id.
pub fn page_inode(page_id: i64) -> (ino: u64)
    ensures
        ino == spec_page_inode(page_id),
{
    page_id as u64 | 0x8000_0000_0000_0000
}

/// The inode number of the folder whose page tree item has an id: one above
/// the id, as an unsigned number.
pub open spec fn spec_directory_inode(item_id: i64) -> u64 {
    ((item_id as u64) + 1) as u64
}

/// The inode number of the folder whose page tree item has an id.
pub fn directory_inode(item_id: i64) -> (ino: u64)
    requires
        item_id != -1,
    ensures
        ino == spec_directory_inode(item_id),
{
    proof {
        assert(item_id != -1i64 ==> (item_id as u64) < 0xFFFF_FFFF_FFFF_FFFFu64) by (bit_vector);
    }
    item_id as u64 + 1
}

/// The inode of the page with a non-negative id stands for that page.
pub proof fn lemma_page_inode_round_trip(page_id: i64)
    requires
        page_id >= 0,
    ensures
        spec_inode_type(spec_page_inode(page_id)) == InodeType::Page(page_id),
{
    let unsigned = page_id as u64;
    assert(unsigned < 0x8000_0000_0000_0000u64 ==> unsigned | 0x8000_0000_0000_0000u64 == unsigned
        + 0x8000_0000_0000_0000u64) by (bit_vector);
}

/// The inode of the folder of a tree item with a non-negative id, below the
/// page flag, stands for that folder; the root inode 1 is the folder of the
/// tree's root, item 0.
pub proof fn lemma_directory_inode_round_trip(item_id: i64)
    requires
        0 <= item_id < PAGE_INODE_FLAG - 1,
    ensures
        spec_inode_type(spec_directory_inode(item_id)) == InodeType::Directory(item_id),
        spec_inode_type(1) == InodeType::Directory(0),
{
}

/// No page's inode is the inode of a folder, for ids that the encodings
/// keep apart.
pub proof fn lemma_page_and_directory_inodes_differ(page_id: i64, item_id: i64)
    requires
        page_id >= 0,
        0 <= item_id < PAGE_INODE_FLAG - 1,
    ensures
        spec_page_inode(page_id) != spec_directory_inode(item_id),
{
    lemma_page_inode_round_trip(page_id);
    lemma_directory_inode_round_trip(item_id);
}

/// What an inode holds: a page, or the items of a folder of the page tree.
#[derive(Debug)]
pub enum Inode {
    Page(Page),
    Directory(Vec<PageTreeItem>),
}

/// The two kinds of files that the file system shows.
#[derive(Debug, Clone, Copy, PartialEq, Eq)]
pub enum FileKind {
    RegularFile,
    Directory,
}

/// The attributes of an inode. The times are the page's dates as the API
/// writes them; a folder has none, and shows the current time.
#[derive(Debug)]
pub struct InodeAttributes {
    pub ino: u64,
    pub size: u64,
    pub blocks: u64,
    pub kind: FileKind,
    pub perm: u16,
    pub nlink: u32,
    pub uid: u32,
    pub gid: u32,
    pub rdev: u32,
    pub blksize: u32,
    pub flags: u32,
    pub modified: Option<Date>,
    pub created: Option<Date>,
}

/// The number of bytes of a text in UTF-8.
pub open spec fn utf8_len(text: Seq<char>) -> nat {
    encode_utf8(text).len()
}

/// The inode number of a folder, read off its items: the folder of the
/// first item's parent, or 0 where the folder is empty or the first item
/// has no parent.
pub open spec fn spec_folder_inode(items: Seq<PageTreeItem>) -> u64 {
    if items.len() > 0 && items[0].parent is Some {
        spec_directory_inode(items[0].parent->0)
    } else {
        0
    }
}

/// The attributes that an inode has.
pub open spec fn spec_attributes(inode: Inode) -> InodeAttributes {
    match inode {
        Inode::Page(page) => InodeAttributes {
            ino: spec_page_inode(page.id),
            size: utf8_len(page.content@) as u64,
            blocks: 1,
            kind: FileKind::RegularFile,
            perm: 0o644,
            nlink: 1,
            uid: 0,
            gid: 0,
            rdev: 0,
            blksize: 0,
            flags: 0,
            modified: Some(page.updated_at),
            created: Some(page.created_at),
        },
        Inode::Directory(items) => InodeAttributes {
            ino: spec_folder_inode(items@),
            size: 0,
            blocks: 0,
            kind: FileKind::Directory,
            perm: 0o755,
            nlink: 1,
            uid: 0,
            gid: 0,
            rdev: 0,
            blksize: 0,
            flags: 0,
            modified: None,
            created: None,
        },
    }
}

impl Inode {
    /// The attributes of the inode.
    pub fn into_attributes(self) -> (attributes: InodeAttributes)
        requires
            self matches Inode::Page(page) ==> utf8_len(page.content@) <= usize::MAX,
            self matches Inode::Directory(items) ==> (items@.len() > 0 && items@[0].parent
                is Some ==> items@[0].parent->0 != -1),
        ensures
            attributes == spec_attributes(self),
            self matches Inode::Page(page) ==> attributes.modified == Some(page.updated_at)
                && attributes.created == Some(page.created_at) && attributes.kind == FileKind::RegularFile,
            self matches Inode::Directory(_) ==> attributes.modified is None && attributes.created is None
                && attributes.kind == FileKind::Directory,
    {
        match self {
            Inode::Page(page) => {
                let size = page.content.as_str().len() as u64;
                InodeAttributes {
                    ino: page_inode(page.id),
                    size,
                    blocks: 1,
                    kind: FileKind::RegularFile,
                    perm: 0o644,
                    nlink: 1,
                    uid: 0,
                    gid: 0,
                    rdev: 0,
                    blksize: 0,
                    flags: 0,
                    modified: Some(page.updated_at),
                    created: Some(page.created_at),
                }
            },
            Inode::Directory(items) => {
                let ino = if items.len() > 0 {
                    match items[0].parent {
                        Some(id) => directory_inode(id),
                        None => 0,
                    }
                } else {
                    0
                };
                InodeAttributes {
                    ino,
                    size: 0,
                    blocks: 0,
                    kind: FileKind::Directory,
                    perm: 0o755,
                    nlink: 1,
                    uid: 0,
                    gid: 0,
                    rdev: 0,
                    blksize: 0,
                    flags: 0,
                    modified: None,
                    created: None,
                }
            },
        }
    }
}

/// A name for the instant that `chrono::DateTime::parse_from_rfc3339` reads
/// from a text: its seconds and nanoseconds after the Unix epoch; none where
/// the text is no RFC 3339 date and time.
pub uninterp spec fn rfc3339_instant(text: Seq<char>) -> Option<(i64, u32)>;

/// Reads an RFC 3339 date and time as an instant.
///
/// Calls `chrono::DateTime::parse_from_rfc3339` and hands out the parsed
/// time's `timestamp` and `timestamp_subsec_nanos`. The result depends on the
/// text alone (the offset is the one the text gives); which texts parse, and
/// to what, is left to the name `rfc3339_instant`.
#[verifier::external_body]
fn parse_rfc3339(text: &str) -> (instant: Option<(i64, u32)>)
    ensures
        instant == rfc3339_instant(text@),
{
    chrono::DateTime::parse_from_rfc3339(text).ok().map(|time| (time.timestamp(), time.timestamp_subsec_nanos()))
}

/// The instant that a page's date stands for, as seconds and nanoseconds
/// after the Unix epoch; none where the date cannot be read, in which case the
/// file system shows the current time.
pub fn parse_time(date: &str) -> (instant: Option<(i64, u32)>)
    ensures
        instant == rfc3339_instant(date@),
{
    parse_rfc3339(date)
}

/// A page file shows the page's last update as its modification time and
/// its creation as its creation time, its size in bytes and its inode; a
/// folder shows no dates of its own.
pub proof fn lemma_attributes_of_inodes(page: Page, items: Vec<PageTreeItem>)
    ensures
        spec_attributes(Inode::Page(page)).modified == Some(page.updated_at),
        spec_attributes(Inode::Page(page)).created == Some(page.created_at),
        spec_attributes(Inode::Page(page)).ino == spec_page_inode(page.id),
        spec_attributes(Inode::Page(page)).size == utf8_len(page.content@) as u64,
        spec_attributes(Inode::Page(page)).kind == FileKind::RegularFile,
        spec_attributes(Inode::Directory(items)).modified is None,
        spec_attributes(Inode::Directory(items)).created is None,
        spec_attributes(Inode::Directory(items)).kind == FileKind::Directory,
{
}

/// The last segment of a path: what follows its last `/`, or the whole path
/// where it has none.
pub open spec fn spec_basename(path: Seq<char>) -> Seq<char>
    decreases path.len(),
{
    if path.len() == 0 {
        path
    } else if path.last() == '/' {
        Seq::empty()
    } else {
        spec_basename(path.drop_last()).push(path.last())
    }
}

proof fn lemma_basename_append(prefix: Seq<char>, segment: Seq<char>)
    requires
        !segment.contains('/'),
    ensures
        spec_basename(prefix + segment) == spec_basename(prefix) + segment,
    decreases segment.len(),
{
    if segment.len() == 0 {
        assert(prefix + segment =~= prefix);
        assert(spec_basename(prefix) + segment =~= spec_basename(prefix));
    } else {
        let whole = prefix + segment;
        let shorter = segment.drop_last();
        assert(!shorter.contains('/')) by {
            if shorter.contains('/') {
                let j = choose|j: int| 0 <= j < shorter.len() && shorter[j] == '/';
                assert(segment[j] == '/');
            }
        }
        assert(whole.drop_last() =~= prefix + shorter);
        assert(whole.last() == segment.last());
        assert(segment.last() != '/') by {
            if segment.last() == '/' {
                assert(segment[segment.len() - 1] == '/');
            }
        }
        lemma_basename_append(prefix, shorter);
        assert(spec_basename(prefix) + shorter.push(segment.last()) =~= spec_basename(prefix) + segment);
        assert(spec_basename(prefix) + shorter.push(segment.last()) =~= (spec_basename(prefix) + shorter).push(
            segment.last(),
        ));
    }
}

/// The name of a path is all of its last segment, whatever it holds but `/`:
/// after a prefix and a `/`, a segment without `/` is the name, and a path
/// without `/` is its own name.
pub proof fn lemma_basename_is_last_segment(prefix: Seq<char>, segment: Seq<char>)
    requires
        !segment.contains('/'),
    ensures
        spec_basename(prefix + "/"@ + segment) == segment,
        spec_basename(segment) == segment,
{
    reveal_strlit("/");
    let slashed = prefix + "/"@;
    assert(slashed.last() == '/');
    assert(spec_basename(slashed) == Seq::<char>::empty());
    lemma_basename_append(slashed, segment);
    assert(Seq::<char>::empty() + segment =~= segment);
    lemma_basename_append(Seq::<char>::empty(), segment);
    assert(Seq::<char>::empty() + segment =~= segment);
}

/// The last segment of a path, the name under which the file system shows
/// a page or a folder.
pub fn basename(path: &str) -> (name: String)
    ensures
        name@ == spec_basename(path@),
{
    let length = path.unicode_len();
    let mut start: usize = 0;
    let mut i: usize = 0;
    while i < length
        invariant
            length == path@.len(),
            start <= i <= length,
            spec_basename(path@.take(i as int)) == path@.subrange(start as int, i as int),
        decreases length - i,
    {
        proof {
            assert(path@.take(i as int + 1).drop_last() =~= path@.take(i as int));
        }
        if path.get_char(i) == '/' {
            start = i + 1;
        }
        proof {
            assert(path@.subrange(start as int, i as int + 1) =~= (if start == i + 1 {
                Seq::empty()
            } else {
                path@.subrange(start as int, i as int).push(path@[i as int])
            }));
        }
        i = i + 1;
    }
    proof {
        assert(path@.take(length as int) =~= path@);
    }
    path.substring_char(start, length).to_owned()
}

/// An entry of a directory listing, at its offset in the listing.
#[derive(Debug)]
pub struct DirectoryEntry {
    pub ino: u64,
    pub offset: i64,
    pub kind: FileKind,
    pub name: String,
}

/// What a directory entry says: its inode, offset, kind and name.
pub open spec fn entry_view(entry: DirectoryEntry) -> (u64, i64, FileKind, Seq<char>) {
    (entry.ino, entry.offset, entry.kind, entry.name@)
}

/// The name under which a page is shown: its path's last segment and `.md`.
pub open spec fn spec_page_file_name(path: Seq<char>) -> Seq<char> {
    spec_basename(path) + ".md"@
}

/// The entries that the items of a folder give, from an offset on: for each
/// item, first a directory where it is a folder, then a file where it has a
/// page, at consecutive offsets.
pub open spec fn spec_item_entries(items: Seq<PageTreeItem>, next: int) -> Seq<(u64, i64, FileKind, Seq<char>)>
    decreases items.len(),
{
    if items.len() == 0 {
        Seq::empty()
    } else {
        let item = items[0];
        let folder: Seq<(u64, i64, FileKind, Seq<char>)> = if item.is_folder {
            seq![(spec_directory_inode(item.id), next as i64, FileKind::Directory, spec_basename(item.path@))]
        } else {
            Seq::empty()
        };
        let after_folder = next + folder.len();
        let page: Seq<(u64, i64, FileKind, Seq<char>)> = match item.page_id {
            Some(page_id) => seq![(spec_page_inode(page_id), after_folder as i64, FileKind::RegularFile, spec_page_file_name(item.path@))],
            None => Seq::empty(),
        };
        folder + page + spec_item_entries(items.drop_first(), after_folder + page.len())
    }
}

/// The number of entries that the items of a folder give.
pub open spec fn spec_item_entry_count(items: Seq<PageTreeItem>) -> nat
    decreases items.len(),
{
    if items.len() == 0 {
        0
    } else {
        (if items[0].is_folder { 1nat } else { 0nat }) + (if items[0].page_id is Some { 1nat } else { 0nat })
            + spec_item_entry_count(items.drop_first())
    }
}

/// The full listing of a directory: `.` at offset 1, then the entries of its
/// items from offset 2 on. Each entry's offset is the one from which a
/// listing goes on after it.
pub open spec fn spec_full_listing(ino: u64, items: Seq<PageTreeItem>) -> Seq<(u64, i64, FileKind, Seq<char>)> {
    seq![(ino, 1i64, FileKind::Directory, "."@)] + spec_item_entries(items, 2)
}

/// The position in a listing of `length` entries from which a listing that
/// resumes at an offset starts: the offset itself, within the listing; a
/// negative offset lists nothing.
pub open spec fn spec_listing_start(offset: i64, length: nat) -> int {
    if offset < 0 {
        length as int
    } else if offset <= length {
        offset as int
    } else {
        length as int
    }
}

/// The part of a listing that a listing resuming at an offset gives: the
/// entries from the position of the offset on.
pub open spec fn spec_listing_tail<A>(entries: Seq<A>, offset: i64) -> Seq<A> {
    entries.subrange(spec_listing_start(offset, entries.len()), entries.len() as int)
}

/// The listing of a directory from an offset on: the entries of the full
/// listing that come after the offset, that is from the offset's position on;
/// nothing from a negative offset.
pub open spec fn spec_directory_entries(ino: u64, offset: i64, items: Seq<PageTreeItem>) -> Seq<(u64, i64, FileKind, Seq<char>)> {
    spec_listing_tail(spec_full_listing(ino, items), offset)
}

/// The folders that a listing from an offset shows give inode numbers that
/// fit: none of them has the id -1. The folder of the item at `k` stands at
/// position `1 + spec_item_entry_count(items.take(k))` of the full listing.
pub open spec fn listed_folders_encodable(items: Seq<PageTreeItem>, offset: i64) -> bool {
    forall|k: int|
        0 <= k < items.len() && #[trigger] items[k].is_folder && 0 <= offset <= 1 + spec_item_entry_count(
            items.take(k),
        ) ==> items[k].id != -1
}

proof fn lemma_listing_tail_push<A>(entries: Seq<A>, entry: A, offset: i64)
    ensures
        spec_listing_tail(entries.push(entry), offset) == (if 0 <= offset <= entries.len() {
            spec_listing_tail(entries, offset).push(entry)
        } else {
            spec_listing_tail(entries, offset)
        }),
{
    let tail = spec_listing_tail(entries, offset);
    if 0 <= offset <= entries.len() {
        assert(spec_listing_tail(entries.push(entry), offset) =~= tail.push(entry));
    } else {
        assert(spec_listing_tail(entries.push(entry), offset) =~= tail);
    }
}

proof fn lemma_item_entries_append(items: Seq<PageTreeItem>, item: PageTreeItem, next: int)
    ensures
        spec_item_entries(items.push(item), next) == spec_item_entries(items, next) + spec_item_entries(
            seq![item],
            next + spec_item_entry_count(items),
        ),
        spec_item_entry_count(items.push(item)) == spec_item_entry_count(items) + spec_item_entry_count(
            seq![item],
        ),
    decreases items.len(),
{
    if items.len() == 0 {
        assert(items.push(item) =~= seq![item]);
    } else {
        let first = items[0];
        let f: int = if first.is_folder { 1 } else { 0 };
        let p: int = if first.page_id is Some { 1 } else { 0 };
        assert(items.push(item).drop_first() =~= items.drop_first().push(item));
        lemma_item_entries_append(items.drop_first(), item, next + f + p);
        assert(items.push(item)[0] == first);
    }
}

proof fn lemma_item_entries_len(items: Seq<PageTreeItem>, next: int)
    ensures
        spec_item_entries(items, next).len() == spec_item_entry_count(items),
    decreases items.len(),
{
    if items.len() > 0 {
        let f: int = if items[0].is_folder { 1 } else { 0 };
        let p: int = if items[0].page_id is Some { 1 } else { 0 };
        lemma_item_entries_len(items.drop_first(), next + f + p);
    }
}

/// The entries that the items of a folder give stand at consecutive offsets
/// from the first one on, one entry for each folder and each page.
pub proof fn lemma_item_entry_offsets(items: Seq<PageTreeItem>, next: int)
    requires
        i64::MIN <= next,
        next + spec_item_entry_count(items) <= i64::MAX + 1,
    ensures
        spec_item_entries(items, next).len() == spec_item_entry_count(items),
        forall|k: int|
            0 <= k < spec_item_entry_count(items) ==> #[trigger] spec_item_entries(items, next)[k].1 == next + k,
    decreases items.len(),
{
    if items.len() > 0 {
        let item = items[0];
        let f: int = if item.is_folder { 1 } else { 0 };
        let p: int = if item.page_id is Some { 1 } else { 0 };
        let rest = spec_item_entries(items.drop_first(), next + f + p);
        lemma_item_entry_offsets(items.drop_first(), next + f + p);
        let entries = spec_item_entries(items, next);
        assert forall|k: int| 0 <= k < spec_item_entry_count(items) implies #[trigger] entries[k].1 == next + k by {
            if k >= f + p {
                assert(entries[k] == rest[k - f - p]);
            }
        }
    }
}

/// A listing resumes where the kernel asks: every entry of the full listing
/// carries its position plus one as offset, and the listing from an offset
/// of 0 or more gives exactly the entries of the full listing whose offset is
/// greater, in their order.
pub proof fn lemma_listing_resumes(ino: u64, offset: i64, items: Seq<PageTreeItem>)
    requires
        spec_item_entry_count(items) < i64::MAX,
        offset >= 0,
    ensures
        forall|j: int|
            0 <= j < spec_full_listing(ino, items).len() ==> #[trigger] spec_full_listing(ino, items)[j].1 == j + 1,
        forall|k: int|
            0 <= k < spec_directory_entries(ino, offset, items).len() ==> #[trigger] spec_directory_entries(
                ino,
                offset,
                items,
            )[k] == spec_full_listing(ino, items)[k + spec_full_listing(ino, items).len() - spec_directory_entries(
                ino,
                offset,
                items,
            ).len()],
        forall|j: int|
            0 <= j < spec_full_listing(ino, items).len() ==> (#[trigger] spec_full_listing(ino, items)[j].1 > offset
                <==> j >= spec_full_listing(ino, items).len() - spec_directory_entries(ino, offset, items).len()),
{
    let full = spec_full_listing(ino, items);
    let listed = spec_item_entries(items, 2);
    lemma_item_entry_offsets(items, 2);
    assert forall|j: int| 0 <= j < full.len() implies #[trigger] full[j].1 == j + 1 by {
        if j > 0 {
            assert(full[j] == listed[j - 1]);
        }
    }
}

/// A listing from an offset can be made: its offsets stay below the largest
/// `i64`, and the folders it shows have inode numbers.
pub open spec fn listing_fits(offset: i64, items: Seq<PageTreeItem>) -> bool {
    &&& spec_item_entry_count(items) < i64::MAX
    &&& listed_folders_encodable(items, offset)
}

/// Tells whether a listing from an offset can be made.
#[verifier::spinoff_prover]
pub fn can_list(offset: i64, items: &Vec<PageTreeItem>) -> (fits: bool)
    ensures
        fits == listing_fits(offset, items@),
{
    let mut count: i64 = 0;
    let mut k: usize = 0;
    while k < items.len()
        invariant
            k <= items.len(),
            count == spec_item_entry_count(items@.take(k as int)),
            count < i64::MAX,
            forall|j: int|
                0 <= j < k && #[trigger] items@[j].is_folder && 0 <= offset <= 1 + spec_item_entry_count(
                    items@.take(j),
                ) ==> items@[j].id != -1,
        decreases items.len() - k,
    {
        let item = &items[k];
        if item.is_folder && item.id == -1 && 0 <= offset && offset <= 1 + count {
            return false;
        }
        let folder: i64 = if item.is_folder {
            1
        } else {
            0
        };
        let page: i64 = if item.page_id.is_some() {
            1
        } else {
            0
        };
        proof {
            lemma_item_entries_append(items@.take(k as int), items@[k as int], 0);
            assert(items@.take(k as int + 1) =~= items@.take(k as int).push(items@[k as int]));
            lemma_item_entry_count_prefix(items@, k as int + 1);
            let single = seq![items@[k as int]];
            assert(single.drop_first() =~= Seq::<PageTreeItem>::empty());
            assert(spec_item_entry_count(single.drop_first()) == 0);
            assert(single[0] == items@[k as int]);
            assert(spec_item_entry_count(single) == folder + page);
        }
        if count >= i64::MAX - folder - page {
            return false;
        }
        count = count + folder + page;
        k = k + 1;
    }
    proof {
        assert(items@.take(k as int) =~= items@);
    }
    true
}

/// The listing of a directory from an offset on, in the order in which the
/// file system hands it out: the entries of the full listing after the
/// offset, so that a listing cut short by a full buffer resumes where it
/// stopped.
#[verifier::spinoff_prover]
pub fn directory_entries(ino: u64, offset: i64, items: &Vec<PageTreeItem>) -> (entries: Vec<DirectoryEntry>)
    requires
        listing_fits(offset, items@),
    ensures
        entries@.map_values(|entry: DirectoryEntry| entry_view(entry)) == spec_directory_entries(ino, offset, items@),
{
    let mut entries: Vec<DirectoryEntry> = Vec::new();
    let ghost dot = seq![(ino, 1i64, FileKind::Directory, "."@)];
    if offset == 0 {
        entries.push(DirectoryEntry { ino, offset: 1, kind: FileKind::Directory, name: String::from_str(".") });
    }
    proof {
        lemma_listing_tail_push(Seq::<(u64, i64, FileKind, Seq<char>)>::empty(), dot[0], offset);
        assert(Seq::<(u64, i64, FileKind, Seq<char>)>::empty().push(dot[0]) =~= dot);
        assert(spec_listing_tail(Seq::<(u64, i64, FileKind, Seq<char>)>::empty(), offset) =~= Seq::<
            (u64, i64, FileKind, Seq<char>),
        >::empty());
        assert(entries@.map_values(|entry: DirectoryEntry| entry_view(entry)) =~= spec_listing_tail(dot, offset));
    }
    // The position in the full listing of the next entry.
    let mut position: i64 = 1;
    let mut k: usize = 0;
    while k < items.len()
        invariant
            k <= items.len(),
            listing_fits(offset, items@),
            dot == seq![(ino, 1i64, FileKind::Directory, "."@)],
            position == 1 + spec_item_entry_count(items@.take(k as int)),
            entries@.map_values(|entry: DirectoryEntry| entry_view(entry)) == spec_listing_tail(
                dot + spec_item_entries(items@.take(k as int), 2),
                offset,
            ),
        decreases items.len() - k,
    {
        let item = &items[k];
        let ghost before = dot + spec_item_entries(items@.take(k as int), 2);
        proof {
            lemma_item_entries_append(items@.take(k as int), items@[k as int], 2);
            assert(items@.take(k as int + 1) =~= items@.take(k as int).push(items@[k as int]));
            lemma_item_entry_count_prefix(items@, k as int + 1);
            lemma_item_entries_len(items@.take(k as int), 2);
            assert(before.len() == position);
        }
        let name = basename(item.path.as_str());
        let ghost at = position as int;
        let ghost folder = if item.is_folder {
            seq![(spec_directory_inode(item.id), (at + 1) as i64, FileKind::Directory, spec_basename(item.path@))]
        } else {
            Seq::<(u64, i64, FileKind, Seq<char>)>::empty()
        };
        if item.is_folder {
            if 0 <= offset && offset <= position {
                assert(items@[k as int].is_folder);
                let entry = DirectoryEntry {
                    ino: directory_inode(item.id),
                    offset: position + 1,
                    kind: FileKind::Directory,
                    name: name.clone(),
                };
                entries.push(entry);
            }
            proof {
                lemma_listing_tail_push(before, folder[0], offset);
                assert(before.push(folder[0]) =~= before + folder);
            }
            position = position + 1;
        } else {
            assert(before + folder =~= before);
        }
        assert(entries@.map_values(|entry: DirectoryEntry| entry_view(entry)) =~= spec_listing_tail(
            before + folder,
            offset,
        ));
        let ghost at_page = position as int;
        let ghost page = match item.page_id {
            Some(page_id) => seq![(spec_page_inode(page_id), (at_page + 1) as i64, FileKind::RegularFile, spec_page_file_name(item.path@))],
            None => Seq::<(u64, i64, FileKind, Seq<char>)>::empty(),
        };
        if let Some(page_id) = item.page_id {
            if 0 <= offset && offset <= position {
                let mut file_name = name;
                file_name.append(".md");
                entries.push(DirectoryEntry {
                    ino: page_inode(page_id),
                    offset: position + 1,
                    kind: FileKind::RegularFile,
                    name: file_name,
                });
            }
            proof {
                lemma_listing_tail_push(before + folder, page[0], offset);
                assert((before + folder).push(page[0]) =~= before + folder + page);
            }
            position = position + 1;
        } else {
            assert(before + folder + page =~= before + folder);
        }
        proof {
            let one = seq![items@[k as int]];
            assert(one.drop_first() =~= Seq::<PageTreeItem>::empty());
            reveal_with_fuel(spec_item_entries, 2);
            reveal_with_fuel(spec_item_entry_count, 2);
            assert(spec_item_entries(one, at + 1) =~= folder + page);
            assert(dot + spec_item_entries(items@.take(k as int + 1), 2) =~= before + folder + page);
        }
        assert(entries@.map_values(|entry: DirectoryEntry| entry_view(entry)) =~= spec_listing_tail(
            dot + spec_item_entries(items@.take(k as int + 1), 2),
            offset,
        ));
        k = k + 1;
    }
    proof {
        assert(items@.take(k as int) =~= items@);
    }
    entries
}

proof fn lemma_item_entry_count_prefix(items: Seq<PageTreeItem>, k: int)
    requires
        0 <= k <= items.len(),
    ensures
        spec_item_entry_count(items.take(k)) <= spec_item_entry_count(items),
    decreases items.len() - k,
{
    if k < items.len() {
        lemma_item_entry_count_prefix(items, k + 1);
        lemma_item_entries_append(items.take(k), items[k], 0);
        assert(items.take(k + 1) =~= items.take(k).push(items[k]));
    } else {
        assert(items.take(k) =~= items);
    }
}

/// A name ends in `.md`, the suffix of the files of pages.
pub open spec fn ends_with_md(name: Seq<char>) -> bool {
    name.len() >= 3 && name.subrange(name.len() - 3, name.len() as int) == seq!['.', 'm', 'd']
}

/// The name that a looked-up name stands for among the segments of the
/// folder: without its `.md` where it has one.
pub open spec fn spec_lookup_stem(name: Seq<char>) -> Seq<char> {
    if ends_with_md(name) {
        name.take(name.len() - 3)
    } else {
        name
    }
}

/// The position of the first item whose path ends in a segment.
pub open spec fn spec_first_with_basename(items: Seq<PageTreeItem>, segment: Seq<char>) -> Option<int>
    decreases items.len(),
{
    if items.len() == 0 {
        None
    } else if spec_basename(items[0].path@) == segment {
        Some(0)
    } else {
        match spec_first_with_basename(items.drop_first(), segment) {
            Some(k) => Some(k + 1),
            None => None,
        }
    }
}

/// The inode that a name in a folder stands for: the first item whose last
/// segment is the name without `.md`; its page where the name ends in `.md`,
/// else its folder.
pub open spec fn spec_lookup(items: Seq<PageTreeItem>, name: Seq<char>) -> Option<u64> {
    match spec_first_with_basename(items, spec_lookup_stem(name)) {
        Some(k) => Some(
            if ends_with_md(name) {
                spec_page_inode(items[k].page_id->0)
            } else {
                spec_directory_inode(items[k].id)
            },
        ),
        None => None,
    }
}

/// The item that a name finds can give the inode it asks for: a page where
/// the name ends in `.md`, an id other than -1 where it names a folder.
pub open spec fn lookup_encodable(items: Seq<PageTreeItem>, name: Seq<char>) -> bool {
    match spec_first_with_basename(items, spec_lookup_stem(name)) {
        Some(k) => if ends_with_md(name) {
            items[k].page_id is Some
        } else {
            items[k].id != -1
        },
        None => true,
    }
}

proof fn lemma_first_with_basename_prefix(items: Seq<PageTreeItem>, segment: Seq<char>, k: int)
    requires
        0 <= k < items.len(),
        forall|j: int| 0 <= j < k ==> spec_basename(#[trigger] items[j].path@) != segment,
    ensures
        spec_basename(items[k].path@) == segment ==> spec_first_with_basename(items, segment) == Some(k),
    decreases k,
{
    if k > 0 {
        let rest = items.drop_first();
        assert forall|j: int| 0 <= j < k - 1 implies spec_basename(#[trigger] rest[j].path@) != segment by {
            assert(rest[j] == items[j + 1]);
        }
        lemma_first_with_basename_prefix(rest, segment, k - 1);
        assert(rest[k - 1] == items[k]);
        assert(spec_basename(items[0].path@) != segment);
    }
}

/// Splits a looked-up name into the segment it names and whether it names a
/// page (ends in `.md`).
fn lookup_stem(name: &str) -> (split: (String, bool))
    ensures
        split.0@ == spec_lookup_stem(name@),
        split.1 == ends_with_md(name@),
{
    let length = name.unicode_len();
    let is_page = length >= 3 && name.get_char(length - 3) == '.' && name.get_char(length - 2) == 'm'
        && name.get_char(length - 1) == 'd';
    proof {
        if length >= 3 {
            assert(name@.subrange(length - 3, length as int) =~= seq![name@[length - 3], name@[length - 2], name@[length - 1]]);
        }
    }
    let stem = if is_page {
        name.substring_char(0, length - 3).to_owned()
    } else {
        name.to_owned()
    };
    (stem, is_page)
}

/// The position of the first item whose path ends in a segment.
#[verifier::spinoff_prover]
fn first_with_basename(items: &Vec<PageTreeItem>, segment: &String) -> (found: Option<usize>)
    ensures
        match found {
            Some(k) => k < items@.len() && spec_first_with_basename(items@, segment@) == Some(k as int),
            None => spec_first_with_basename(items@, segment@) is None,
        },
{
    let mut k: usize = 0;
    while k < items.len()
        invariant
            k <= items.len(),
            forall|j: int| 0 <= j < k ==> spec_basename(#[trigger] items@[j].path@) != segment@,
        decreases items.len() - k,
    {
        let item_segment = basename(items[k].path.as_str());
        proof {
            lemma_first_with_basename_prefix(items@, segment@, k as int);
        }
        if item_segment == *segment {
            return Some(k);
        }
        k = k + 1;
    }
    proof {
        assert(k == items.len());
        assert(forall|j: int| 0 <= j < items@.len() ==> spec_basename(#[trigger] items@[j].path@) != segment@);
        lemma_no_basename(items@, segment@);
    }
    None
}

/// Tells whether the item that a name finds can give the inode it asks for.
pub fn can_look_up(items: &Vec<PageTreeItem>, name: &str) -> (encodable: bool)
    ensures
        encodable == lookup_encodable(items@, name@),
{
    let (stem, is_page) = lookup_stem(name);
    match first_with_basename(items, &stem) {
        Some(k) => if is_page {
            items[k].page_id.is_some()
        } else {
            items[k].id != -1
        },
        None => true,
    }
}

proof fn lemma_first_with_basename_found(items: Seq<PageTreeItem>, segment: Seq<char>)
    ensures
        spec_first_with_basename(items, segment) matches Some(k) ==> 0 <= k < items.len()
            && spec_basename(items[k].path@) == segment,
    decreases items.len(),
{
    if items.len() > 0 && spec_basename(items[0].path@) != segment {
        let rest = items.drop_first();
        lemma_first_with_basename_found(rest, segment);
        if let Some(k) = spec_first_with_basename(rest, segment) {
            assert(rest[k] == items[k + 1]);
        }
    }
}

proof fn lemma_page_file_name_stem(path: Seq<char>)
    ensures
        ends_with_md(spec_page_file_name(path)),
        spec_lookup_stem(spec_page_file_name(path)) == spec_basename(path),
{
    reveal_strlit(".md");
    let name = spec_page_file_name(path);
    let base = spec_basename(path);
    assert(name.subrange(name.len() - 3, name.len() as int) =~= seq!['.', 'm', 'd']);
    assert(name.take(name.len() - 3) =~= base);
}

/// The items of a folder end in distinct segments, and no folder's segment
/// ends in `.md`: then every name that a listing shows stands for one item.
pub open spec fn names_distinct(items: Seq<PageTreeItem>) -> bool {
    &&& forall|i: int, j: int|
        0 <= i < j < items.len() ==> spec_basename(#[trigger] items[i].path@) != spec_basename(
            #[trigger] items[j].path@,
        )
    &&& forall|i: int|
        0 <= i < items.len() && #[trigger] items[i].is_folder ==> !ends_with_md(spec_basename(items[i].path@))
}

/// A name that the listing of a folder shows for one of its items, looked up
/// in the same folder, gives the inode that the listing shows with it, where
/// the items' names are distinct.
pub proof fn lemma_listed_names_look_up(items: Seq<PageTreeItem>, next: int, k: int)
    requires
        0 <= k < spec_item_entries(items, next).len(),
        names_distinct(items),
    ensures
        spec_lookup(items, spec_item_entries(items, next)[k].3) == Some(spec_item_entries(items, next)[k].0),
    decreases items.len(),
{
    let item = items[0];
    let f: int = if item.is_folder { 1 } else { 0 };
    let p: int = if item.page_id is Some { 1 } else { 0 };
    let entries = spec_item_entries(items, next);
    let rest = items.drop_first();
    let rest_entries = spec_item_entries(rest, next + f + p);
    let name = entries[k].3;
    if k < f {
        assert(name == spec_basename(item.path@));
        assert(spec_first_with_basename(items, name) == Some(0int));
    } else if k < f + p {
        lemma_page_file_name_stem(item.path@);
        assert(name == spec_page_file_name(item.path@));
        assert(spec_first_with_basename(items, spec_basename(item.path@)) == Some(0int));
    } else {
        assert(entries[k] == rest_entries[k - f - p]);
        assert(names_distinct(rest)) by {
            assert forall|i: int, j: int| 0 <= i < j < rest.len() implies spec_basename(
                #[trigger] rest[i].path@,
            ) != spec_basename(#[trigger] rest[j].path@) by {
                assert(rest[i] == items[i + 1] && rest[j] == items[j + 1]);
            }
            assert forall|i: int| 0 <= i < rest.len() && #[trigger] rest[i].is_folder implies !ends_with_md(
                spec_basename(rest[i].path@),
            ) by {
                assert(rest[i] == items[i + 1]);
            }
        }
        lemma_listed_names_look_up(rest, next + f + p, k - f - p);
        let stem = spec_lookup_stem(name);
        lemma_first_with_basename_found(rest, stem);
        let j = spec_first_with_basename(rest, stem)->0;
        assert(rest[j] == items[j + 1]);
        assert(spec_basename(items[0].path@) != stem);
        assert(spec_first_with_basename(items, stem) == Some(j + 1));
    }
}

/// Finds the inode that a name stands for in a folder.
pub fn lookup_inode(items: &Vec<PageTreeItem>, name: &str) -> (ino: Option<u64>)
    requires
        lookup_encodable(items@, name@),
    ensures
        ino == spec_lookup(items@, name@),
{
    let (stem, is_page) = lookup_stem(name);
    match first_with_basename(items, &stem) {
        Some(k) => if is_page {
            Some(page_inode(items[k].page_id.unwrap()))
        } else {
            Some(directory_inode(items[k].id))
        },
        None => None,
    }
}

proof fn lemma_no_basename(items: Seq<PageTreeItem>, segment: Seq<char>)
    requires
        forall|j: int| 0 <= j < items.len() ==> spec_basename(#[trigger] items[j].path@) != segment,
    ensures
        spec_first_with_basename(items, segment) is None,
    decreases items.len(),
{
    if items.len() > 0 {
        let rest = items.drop_first();
        assert forall|j: int| 0 <= j < rest.len() implies spec_basename(#[trigger] rest[j].path@) != segment by {
            assert(rest[j] == items[j + 1]);
        }
        lemma_no_basename(rest, segment);
        assert(spec_basename(items[0].path@) != segment);
    }
}

/// The bytes that a read of a page's content asks for, as a range of byte
/// positions: from the offset to the offset plus the size, cut at the end;
/// none where the offset is negative or past the end.
pub open spec fn spec_read_range(length: nat, offset: i64, size: u32) -> Option<(int, int)> {
    if offset < 0 || offset > length {
        None
    } else {
        let end = offset + size;
        Some((offset as int, if end < length { end } else { length as int }))
    }
}

/// A read of a page's content can cut the content at both ends of the range
/// it asks for: they fall between characters.
pub open spec fn read_fits(content: Seq<char>, offset: i64, size: u32) -> bool {
    spec_read_range(utf8_len(content), offset, size) matches Some((start, end)) ==> (is_char_boundary(
        encode_utf8(content),
        start,
    ) && is_char_boundary(encode_utf8(content), end))
}

/// A read from an offset inside the content gives the bytes from the offset
/// on, as many as asked for but no more than there are; a read from before the
/// start or past the end gives nothing.
pub proof fn lemma_read_range(length: nat, offset: i64, size: u32)
    ensures
        offset < 0 || offset > length ==> spec_read_range(length, offset, size) is None,
        0 <= offset <= length && offset + size <= length ==> spec_read_range(length, offset, size) == Some(
            (offset as int, offset + size),
        ),
        0 <= offset <= length && offset + size > length ==> spec_read_range(length, offset, size) == Some(
            (offset as int, length as int),
        ),
{
}

/// Tells whether a read of a page's content can cut the content where it
/// asks.
pub fn can_read(content: &String, offset: i64, size: u32) -> (fits: bool)
    requires
        utf8_len(content@) <= usize::MAX,
    ensures
        fits == read_fits(content@, offset, size),
{
    let text = content.as_str();
    let length = text.len() as u64;
    if offset < 0 || offset as u64 > length {
        return true;
    }
    let requested = offset as u64 + size as u64;
    let end = if requested < length {
        requested
    } else {
        length
    };
    text.is_char_boundary(offset as usize) && text.is_char_boundary(end as usize)
}

/// Reads bytes of a page's content: those of the range that the offset and
/// size ask for, or none where the offset is out of the content.
pub fn read_data(content: &String, offset: i64, size: u32) -> (data: Option<Vec<u8>>)
    requires
        utf8_len(content@) <= usize::MAX,
        read_fits(content@, offset, size),
    ensures
        match spec_read_range(utf8_len(content@), offset, size) {
            None => data is None,
            Some((start, end)) => data matches Some(bytes) && bytes@ == encode_utf8(content@).subrange(start, end),
        },
{
    let bytes = content.as_str().as_bytes();
    let content_size = bytes.len() as u64;
    if offset < 0 || offset as u64 > content_size {
        return None;
    }
    let requested = offset as u64 + size as u64;
    let end = if requested < content_size {
        requested
    } else {
        content_size
    };
    Some(slice_to_vec(slice_subrange(bytes, offset as usize, end as usize)))
}

/// A name for the text that `String::from_utf8_lossy` makes of bytes: their
/// characters, with each invalid sequence replaced by U+FFFD.
pub uninterp spec fn utf8_lossy(bytes: Seq<u8>) -> Seq<char>;

/// Decodes bytes as UTF-8, replacing invalid sequences.
///
/// Calls `String::from_utf8_lossy`. Its result depends on the bytes alone;
/// where they are valid UTF-8 it is the text they encode. What it makes of
/// invalid sequences is left to the name `utf8_lossy`.
#[verifier::external_body]
fn text_from_utf8_lossy(bytes: &[u8]) -> (text: String)
    ensures
        text@ == utf8_lossy(bytes@),
        valid_utf8(bytes@) ==> text@ == decode_utf8(bytes@),
{
    String::from_utf8_lossy(bytes).into_owned()
}

proof fn lemma_encode_utf8_concat(first: Seq<char>, second: Seq<char>)
    ensures
        encode_utf8(first + second) == encode_utf8(first) + encode_utf8(second),
    decreases first.len(),
{
    if first.len() == 0 {
        assert(first + second =~= second);
        assert(encode_utf8(first) =~= Seq::<u8>::empty());
        assert(encode_utf8(first) + encode_utf8(second) =~= encode_utf8(second));
    } else {
        assert((first + second).drop_first() =~= first.drop_first() + second);
        assert((first + second)[0] == first[0]);
        lemma_encode_utf8_concat(first.drop_first(), second);
        assert(encode_utf8(first + second) =~= encode_utf8(first) + encode_utf8(second));
    }
}

/// The content of a page after a write, as bytes: the bytes before the
/// offset, the written bytes decoded with replacements, and, where the write
/// ends before the content does and does not truncate, the bytes after it;
/// none where the offset is negative or past the end.
pub open spec fn spec_write(content: Seq<u8>, offset: i64, data: Seq<u8>, truncate: bool) -> Option<Seq<u8>> {
    if offset < 0 || offset > content.len() {
        None
    } else {
        let end = offset + data.len();
        let kept: Seq<u8> = if end < content.len() && !truncate {
            content.skip(end)
        } else {
            Seq::empty()
        };
        Some(content.take(offset as int) + encode_utf8(utf8_lossy(data)) + kept)
    }
}

/// A write of some bytes at an offset can cut the content where it starts
/// and, where it ends inside the content, where it ends: both fall between
/// characters.
pub open spec fn write_fits(content: Seq<char>, offset: i64, length: nat) -> bool {
    0 <= offset <= utf8_len(content) ==> offset + length <= usize::MAX && is_char_boundary(
        encode_utf8(content),
        offset as int,
    ) && (offset + length < utf8_len(content) ==> is_char_boundary(encode_utf8(content), offset + length))
}

/// Tells whether a write of some bytes at an offset can cut the content
/// where it asks.
pub fn can_write(content: &String, offset: i64, data: &[u8]) -> (fits: bool)
    requires
        utf8_len(content@) <= usize::MAX,
    ensures
        fits == write_fits(content@, offset, data@.len()),
{
    let text = content.as_str();
    let length = text.len();
    if offset < 0 || offset as u64 > length as u64 {
        return true;
    }
    let start = offset as usize;
    if start > usize::MAX - data.len() {
        return false;
    }
    let end = start + data.len();
    text.is_char_boundary(start) && (end >= length || text.is_char_boundary(end))
}

/// The bytes of a page after a write of bytes that are valid UTF-8: the bytes
/// before the offset, the written bytes themselves, and, where the write ends
/// before the content does and does not truncate, the bytes after it.
pub open spec fn spec_overwrite(content: Seq<u8>, offset: int, data: Seq<u8>, truncate: bool) -> Seq<u8> {
    let end = offset + data.len();
    content.take(offset) + data + (if end < content.len() && !truncate {
        content.skip(end)
    } else {
        Seq::empty()
    })
}

/// Merges a write into a page's content: the written bytes replace those
/// from the offset on, and with `truncate` (the write's `O_TRUNC` flag) the
/// content ends after them.
pub fn write_content(content: &String, offset: i64, data: &[u8], truncate: bool) -> (merged: Option<String>)
    requires
        utf8_len(content@) <= usize::MAX,
        write_fits(content@, offset, data@.len()),
    ensures
        match spec_write(encode_utf8(content@), offset, data@, truncate) {
            None => merged is None,
            Some(bytes) => merged matches Some(text) && encode_utf8(text@) == bytes,
        },
        valid_utf8(data@) && 0 <= offset <= utf8_len(content@) ==> (merged matches Some(text) && encode_utf8(
            text@,
        ) == spec_overwrite(encode_utf8(content@), offset as int, data@, truncate)),
{
    let text = content.as_str();
    let length = text.len();
    if offset < 0 || offset as u64 > length as u64 {
        return None;
    }
    let start = offset as usize;
    let end = start + data.len();
    let (prefix, _) = text.split_at(start);
    let mut merged = prefix.to_owned();
    let inserted = text_from_utf8_lossy(data);
    let ghost before_insert = merged@;
    merged.append(inserted.as_str());
    proof {
        lemma_encode_utf8_concat(before_insert, inserted@);
    }
    if end < length && !truncate {
        let (_, suffix) = text.split_at(end);
        let ghost before_suffix = merged@;
        merged.append(suffix);
        proof {
            lemma_encode_utf8_concat(before_suffix, suffix@);
            assert(encode_utf8(content@).skip(end as int) =~= encode_utf8(content@).subrange(end as int, length as int));
        }
    }
    proof {
        assert(encode_utf8(content@).take(start as int) =~= encode_utf8(content@).subrange(0, start as int));
        let expected = spec_write(encode_utf8(content@), offset, data@, truncate)->0;
        assert(encode_utf8(merged@) =~= expected);
        if valid_utf8(data@) {
            decode_utf8_encode_utf8(data@);
            assert(encode_utf8(utf8_lossy(data@)) == data@);
            assert(expected =~= spec_overwrite(encode_utf8(content@), offset as int, data@, truncate));
        }
    }
    Some(merged)
}

/// The byte length to which a change of a page's size cuts its content: the
/// new size, but at least one byte, where it is below the content's length.
pub open spec fn spec_truncated_length(length: nat, size: u64) -> nat {
    if size < length {
        let wanted = (#[verifier::truncate] (size as usize)) as nat;
        if wanted < 1 {
            1
        } else {
            wanted
        }
    } else {
        length
    }
}

/// A change of a page's size can cut its content at the new length: it falls
/// between characters.
pub open spec fn truncate_fits(content: Seq<char>, size: u64) -> bool {
    is_char_boundary(encode_utf8(content), spec_truncated_length(utf8_len(content), size) as int)
}

/// A change of size below the content's length cuts the content to that
/// size, but keeps at least one byte; a size at or past the length leaves the
/// content whole.
pub proof fn lemma_truncated_length(length: nat, size: u64)
    ensures
        size >= length ==> spec_truncated_length(length, size) == length,
        1 <= size < length && size <= usize::MAX ==> spec_truncated_length(length, size) == size,
        size == 0 && length > 0 ==> spec_truncated_length(length, size) == 1,
{
}

/// Tells whether a change of a page's size can cut its content there.
pub fn can_truncate(content: &String, size: u64) -> (fits: bool)
    requires
        utf8_len(content@) <= usize::MAX,
    ensures
        fits == truncate_fits(content@, size),
{
    let text = content.as_str();
    let length = text.len();
    let new_length = if size < length as u64 {
        let wanted = #[verifier::truncate] (size as usize);
        if wanted < 1 {
            1
        } else {
            wanted
        }
    } else {
        length
    };
    text.is_char_boundary(new_length)
}

/// The content of a page after a change of its size: cut to the new size
/// (at least one byte) where that is below its length, else unchanged.
pub fn truncate_content(content: &String, size: u64) -> (truncated: String)
    requires
        utf8_len(content@) <= usize::MAX,
        truncate_fits(content@, size),
    ensures
        encode_utf8(truncated@) == encode_utf8(content@).take(
            spec_truncated_length(utf8_len(content@), size) as int,
        ),
{
    let text = content.as_str();
    let length = text.len();
    if size < length as u64 {
        let wanted = #[verifier::truncate] (size as usize);
        let new_length = if wanted < 1 {
            1
        } else {
            wanted
        };
        let (kept, _) = text.split_at(new_length);
        proof {
            assert(encode_utf8(content@).take(new_length as int) =~= encode_utf8(content@).subrange(0, new_length as int));
        }
        kept.to_owned()
    } else {
        proof {
            assert(encode_utf8(content@).take(length as int) =~= encode_utf8(content@));
        }
        text.to_owned()
    }
}

/// The pages that the file system has fetched, by page id.
pub struct PageCache {
    pages: HashMap<u64, PageMinimal>,
}

impl View for PageCache {
    type V = Map<u64, PageMinimal>;

    closed spec fn view(&self) -> Map<u64, PageMinimal> {
        self.pages@
    }
}

/// What a lookup in the cache needs next.
#[derive(Debug)]
pub enum PageCacheStep {
    /// The page is cached: ask the API when it was last updated.
    FetchUpdatedAt,
    /// Fetch the page from the API.
    FetchPage,
    /// The lookup is done and gives this page.
    Ready(PageMinimal),
}

/// What a lookup in the cache learns.
#[derive(Debug)]
pub enum PageCacheEvent {
    /// The lookup starts.
    Start,
    /// The API says when the page was last updated.
    UpdatedAt(Date),
    /// The API hands out the page.
    Fetched(PageMinimal),
}

/// The step that a lookup of a page takes on an event, given the cache before
/// it: a start fetches the update time of a cached page and the page itself
/// otherwise; an update time equal to the cached one gives the cached page, a
/// different one fetches the page; a fetched page is cached and given.
pub open spec fn spec_get_step(
    cache: Map<u64, PageMinimal>,
    id: u64,
    event: PageCacheEvent,
) -> (Map<u64, PageMinimal>, PageCacheStep) {
    match event {
        PageCacheEvent::Start => if cache.contains_key(id) {
            (cache, PageCacheStep::FetchUpdatedAt)
        } else {
            (cache, PageCacheStep::FetchPage)
        },
        PageCacheEvent::UpdatedAt(updated_at) => if cache.contains_key(id) && cache[id].updated_at@
            == updated_at@ {
            (cache, PageCacheStep::Ready(cache[id]))
        } else {
            (cache, PageCacheStep::FetchPage)
        },
        PageCacheEvent::Fetched(page) => (cache.insert(id, page), PageCacheStep::Ready(page)),
    }
}

impl PageCache {
    /// An empty cache.
    pub fn new() -> (cache: Self)
        ensures
            cache@ == Map::<u64, PageMinimal>::empty(),
    {
        PageCache { pages: HashMap::new() }
    }

    /// Forgets the page with an id.
    pub fn evict(&mut self, id: u64)
        ensures
            final(self)@ == old(self)@.remove(id),
    {
        broadcast use vstd::std_specs::hash::group_hash_axioms;

        self.pages.remove(&id);
    }

    /// The cached page with an id, if any.
    pub fn cached(&self, id: u64) -> (page: Option<PageMinimal>)
        ensures
            page == (if self@.contains_key(id) {
                Some(self@[id])
            } else {
                None
            }),
    {
        broadcast use vstd::std_specs::hash::group_hash_axioms;

        match self.pages.get(&id) {
            Some(page) => Some(page.clone()),
            None => None,
        }
    }

    /// Caches a page under an id and hands it back.
    pub fn store(&mut self, id: u64, page: PageMinimal) -> (stored: PageMinimal)
        ensures
            final(self)@ == old(self)@.insert(id, page),
            stored == page,
    {
        broadcast use vstd::std_specs::hash::group_hash_axioms;

        let stored = page.clone();
        self.pages.insert(id, page);
        stored
    }

    /// Takes one step of the lookup of the page with an id.
    pub fn get_step(&mut self, id: u64, event: PageCacheEvent) -> (step: PageCacheStep)
        ensures
            (final(self)@, step) == spec_get_step(old(self)@, id, event),
    {
        match event {
            PageCacheEvent::Start => {
                if self.cached(id).is_some() {
                    PageCacheStep::FetchUpdatedAt
                } else {
                    PageCacheStep::FetchPage
                }
            },
            PageCacheEvent::UpdatedAt(updated_at) => {
                match self.cached(id) {
                    Some(page) => {
                        if page.updated_at == updated_at {
                            PageCacheStep::Ready(page)
                        } else {
                            PageCacheStep::FetchPage
                        }
                    },
                    None => PageCacheStep::FetchPage,
                }
            },
            PageCacheEvent::Fetched(page) => PageCacheStep::Ready(self.store(id, page)),
        }
    }
}

/// A page that the cache has stored is what a later lookup of its id gives,
/// until the id is evicted; storing or evicting one id leaves the others.
pub proof fn lemma_cache_store_then_lookup(cache: Map<u64, PageMinimal>, id: u64, other: u64, page: PageMinimal)
    ensures
        cache.insert(id, page).contains_key(id) && cache.insert(id, page)[id] == page,
        !cache.remove(id).contains_key(id),
        other != id ==> (cache.insert(id, page).contains_key(other) == cache.contains_key(other)
            && cache.remove(id).contains_key(other) == cache.contains_key(other)),
        other != id && cache.contains_key(other) ==> cache.insert(id, page)[other] == cache[other]
            && cache.remove(id)[other] == cache[other],
{
}

/// A lookup that starts on a cache holding the page and learns an unchanged
/// update time gives the cached page without fetching it; a fetched page is
/// cached and given.
pub proof fn lemma_get_step_uses_fresh_page(cache: Map<u64, PageMinimal>, id: u64, page: PageMinimal)
    requires
        cache.contains_key(id),
    ensures
        spec_get_step(cache, id, PageCacheEvent::Start).1 == PageCacheStep::FetchUpdatedAt,
        spec_get_step(cache, id, PageCacheEvent::UpdatedAt(cache[id].updated_at)) == (
        cache,
        PageCacheStep::Ready(cache[id]),
        ),
        spec_get_step(cache, id, PageCacheEvent::Fetched(page)) == (
        cache.insert(id, page),
        PageCacheStep::Ready(page),
        ),
{
}

} // verus!
