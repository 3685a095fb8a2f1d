//! Tests of the listing helpers, the text utilities, and path encoding.

use std::cmp::Ordering;

use dexr::listing::{
    classify_entry, display_bytes, display_items, Entry, Size, SortBy, SortOrder, Sorting,
    ThumbnailType,
};
use dexr::paths::{cache_file_name, encode_relative_path, is_hidden_path, join_paths};
use dexr::text::{str_contains, str_eq, u64_to_decimal};
use dexr::thumbnail::Type;

fn entry(name: &str, size: Size, mtime: i64) -> Entry {
    Entry {
        name: String::from(name),
        size,
        mtime,
        thumbnail: ThumbnailType::File,
        link: false,
    }
}

#[test]
fn compare_by_name_is_lexicographic() {
    let a = entry("alpha", Size::Bytes(1), 0);
    let b = entry("beta", Size::Bytes(0), 0);
    assert_eq!(SortBy::Name.compare(&a, &b), Ordering::Less);
    assert_eq!(SortBy::Name.compare(&b, &a), Ordering::Greater);
    assert_eq!(SortBy::Name.compare(&a, &a), Ordering::Equal);
    // a prefix orders before its extension
    let c = entry("alphabet", Size::Bytes(0), 0);
    assert_eq!(SortBy::Name.compare(&a, &c), Ordering::Less);
}

#[test]
fn compare_by_size_counts_before_bytes() {
    let dir = entry("d", Size::Items(1000), 0);
    let file = entry("f", Size::Bytes(1), 0);
    assert_eq!(SortBy::Size.compare(&dir, &file), Ordering::Less);
    assert_eq!(SortBy::Size.compare(&file, &dir), Ordering::Greater);
    let small = entry("s", Size::Bytes(10), 0);
    assert_eq!(SortBy::Size.compare(&small, &file), Ordering::Greater);
}

#[test]
fn compare_by_mtime_orders_timestamps() {
    let old = entry("o", Size::Bytes(0), 100);
    let new = entry("n", Size::Bytes(0), 200);
    assert_eq!(SortBy::MTime.compare(&old, &new), Ordering::Less);
}

#[test]
fn sorting_direction_reverses_comparison() {
    let a = entry("a", Size::Bytes(0), 0);
    let b = entry("b", Size::Bytes(0), 0);
    let asc = Sorting { by: SortBy::Name, order: SortOrder::Ascending };
    let desc = Sorting { by: SortBy::Name, order: SortOrder::Descending };
    assert_eq!(asc.compare_entries(&a, &b), Ordering::Less);
    assert_eq!(desc.compare_entries(&a, &b), Ordering::Greater);
    assert_eq!(SortOrder::Ascending.reverse(), SortOrder::Descending);
    assert_eq!(SortOrder::Descending.reverse(), SortOrder::Ascending);
}

#[test]
fn header_links_flip_the_sorted_column() {
    let s = Sorting { by: SortBy::Name, order: SortOrder::Ascending };
    assert_eq!(s.link_for(SortBy::Name), "?sort_by=name&sort_order=descending");
    assert_eq!(s.link_for(SortBy::Size), "?sort_by=size&sort_order=ascending");
    assert_eq!(s.link_for(SortBy::MTime), "?sort_by=m_time&sort_order=ascending");
    let (link, class) = s.both_for(SortBy::Name);
    assert_eq!(link, "?sort_by=name&sort_order=descending");
    assert_eq!(class, "sort_ascending");
    assert_eq!(s.class_for(SortBy::Size), "");
    let d = Sorting { by: SortBy::Size, order: SortOrder::Descending };
    assert_eq!(d.class_for(SortBy::Size), "sort_descending");
}

#[test]
fn entries_classify_by_type_and_extension() {
    assert_eq!(classify_entry(true, false, None), ThumbnailType::Directory);
    assert_eq!(classify_entry(true, false, Some("png")), ThumbnailType::Directory);
    assert_eq!(classify_entry(false, true, Some("png")), ThumbnailType::Rich(Type::Image));
    assert_eq!(classify_entry(false, true, Some("mkv")), ThumbnailType::Rich(Type::Video));
    assert_eq!(classify_entry(false, true, Some("txt")), ThumbnailType::File);
    assert_eq!(classify_entry(false, true, None), ThumbnailType::File);
    // not a directory and not a regular file: a socket, fifo, device...
    assert_eq!(classify_entry(false, false, None), ThumbnailType::Unknown);
}

#[test]
fn thumbnail_urls_and_alt_text() {
    assert_eq!(
        ThumbnailType::Directory.url(String::new()),
        "/static/directory.png"
    );
    assert_eq!(ThumbnailType::File.url(String::new()), "/static/file.png");
    assert_eq!(ThumbnailType::Unknown.url(String::new()), "/static/unknown.png");
    assert_eq!(
        ThumbnailType::Rich(Type::Image).url(String::from("/thumb/a.png")),
        "/thumb/a.png"
    );
    assert_eq!(ThumbnailType::Directory.alt(), "directory");
    assert_eq!(ThumbnailType::Rich(Type::Video).alt(), "rich thumbnail");
    assert!(ThumbnailType::Rich(Type::Video).is_rich());
    assert!(!ThumbnailType::File.is_rich());
}

#[test]
fn decimal_rendering_is_exact() {
    assert_eq!(u64_to_decimal(0), "0");
    assert_eq!(u64_to_decimal(7), "7");
    assert_eq!(u64_to_decimal(105), "105");
    assert_eq!(u64_to_decimal(u64::MAX), "18446744073709551615");
}

#[test]
fn display_items_picks_the_unit() {
    assert_eq!(display_items(0), "0 items");
    assert_eq!(display_items(1), "1 item");
    assert_eq!(display_items(2), "2 items");
}

#[test]
fn display_bytes_small_sizes_are_exact() {
    assert_eq!(display_bytes(0), "0 B");
    assert_eq!(display_bytes(999), "999 B");
    // up to and including the increment the count stays exact
    assert_eq!(display_bytes(1000), "1000 B");
}

#[test]
fn display_bytes_scales_with_one_decimal() {
    assert_eq!(display_bytes(1500), "1.5 kB");
    assert_eq!(display_bytes(1001), "1.0 kB");
    assert_eq!(display_bytes(1000000), "1.0 MB");
    assert_eq!(display_bytes(123456789), "123.4 MB");
    assert_eq!(display_bytes(5000000000), "5.0 GB");
    assert_eq!(display_bytes(u64::MAX), "18.4 EB");
}

#[test]
fn join_paths_normalizes_separators() {
    assert_eq!(join_paths(&["/thumb", "a/b"]), "/thumb/a/b");
    assert_eq!(join_paths(&["/fs/", "/dir/"]), "/fs/dir");
    assert_eq!(join_paths(&["fs", ""]), "/fs");
    assert_eq!(join_paths(&[]), "");
    assert_eq!(join_paths(&["", ""]), "");
}

#[test]
fn hidden_paths_have_a_dot_component() {
    assert!(is_hidden_path(".git"));
    assert!(is_hidden_path("a/.hidden/b"));
    assert!(is_hidden_path("/.profile"));
    assert!(!is_hidden_path("visible/path.txt"));
    assert!(!is_hidden_path(""));
}

#[test]
fn encoded_cache_names_are_deterministic_and_collision_free() {
    // URL-safe base64 of the path bytes; the 63rd alphabet character is
    // '-', not '+', so the encoding really is the URL-safe variant
    assert_eq!(encode_relative_path("foo"), "Zm9v");
    assert_eq!(encode_relative_path("~~~"), "fn5-");
    assert_eq!(encode_relative_path("a"), "YQ==");
    assert_eq!(encode_relative_path(""), "");
    assert_eq!(encode_relative_path("foo"), encode_relative_path("foo"));
    assert_ne!(encode_relative_path("a/b"), encode_relative_path("a/c"));
    assert_eq!(cache_file_name("foo"), "Zm9v.png");
}

#[test]
fn str_helpers_compare_and_search() {
    assert!(str_eq("abc", "abc"));
    assert!(!str_eq("abc", "abd"));
    assert!(!str_eq("abc", "ab"));
    assert!(str_contains("missing a plug-in somewhere", "missing a plug-in"));
    assert!(!str_contains("nothing here", "missing a plug-in"));
    assert!(str_contains("anything", ""));
}
