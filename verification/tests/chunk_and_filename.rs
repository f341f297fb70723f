use rs_get::chunk::{chunk_size, FALLBACK_CHUNK_SIZE, READS_PER_BODY};
use rs_get::filename::{resolve_filename, DEFAULT_FILENAME, SEPARATOR};

#[test]
fn chunk_size_of_known_length_is_one_ninety_ninth() {
    assert_eq!(chunk_size(Some(9900)), 100);
    assert_eq!(chunk_size(Some(99)), 1);
    assert_eq!(chunk_size(Some(197)), 1);
    assert_eq!(chunk_size(Some(198)), 2);
    assert_eq!(chunk_size(Some(1_000_000)), 10_101);
}

#[test]
fn chunk_size_of_largest_length() {
    assert_eq!(chunk_size(Some(u64::MAX)), 186_330_748_219_288_400);
    assert_eq!(chunk_size(Some(u64::MAX)), u64::MAX / 99);
}

#[test]
fn chunk_size_of_short_body_is_clamped_to_one() {
    assert_eq!(chunk_size(Some(0)), 1);
    assert_eq!(chunk_size(Some(1)), 1);
    assert_eq!(chunk_size(Some(98)), 1);
}

#[test]
fn chunk_size_of_unknown_length_is_the_fallback() {
    assert_eq!(chunk_size(None), 1024);
    assert_eq!(FALLBACK_CHUNK_SIZE, 1024);
    assert_eq!(READS_PER_BODY, 99);
}

#[test]
fn chunk_size_matches_division_for_lengths_from_99() {
    let mut length: u64 = 99;
    while length < 20_000 {
        let size = chunk_size(Some(length));
        assert_eq!(size, length / 99);
        assert!(size >= 1);
        length += 37;
    }
}

#[test]
fn filename_is_last_segment_of_url() {
    assert_eq!(resolve_filename("https://example.com/archive.tar.gz"), "archive.tar.gz");
}

#[test]
fn filename_of_nested_path() {
    assert_eq!(resolve_filename("http://host/a/b/c/report.pdf"), "report.pdf");
}

#[test]
fn filename_defaults_when_url_ends_in_separator() {
    assert_eq!(resolve_filename("https://example.com/"), "index.html");
    assert_eq!(resolve_filename("https://example.com/dir/"), "index.html");
    assert_eq!(resolve_filename("/"), "index.html");
    assert_eq!(resolve_filename("https://"), "index.html");
}

#[test]
fn filename_defaults_for_empty_target() {
    assert_eq!(resolve_filename(""), "index.html");
    assert_eq!(DEFAULT_FILENAME, "index.html");
    assert_eq!(SEPARATOR, '/');
}

#[test]
fn filename_without_separator_is_whole_target() {
    assert_eq!(resolve_filename("file.txt"), "file.txt");
}

#[test]
fn filename_defaults_for_url_without_path() {
    assert_eq!(resolve_filename("https://example.com"), "index.html");
    assert_eq!(resolve_filename("http://example.com:8080"), "index.html");
    assert_eq!(resolve_filename("ftp://host"), "index.html");
    assert_eq!(resolve_filename("https://example.com?x=1"), "index.html");
    assert_eq!(resolve_filename("https://example.com#top"), "index.html");
    assert_eq!(resolve_filename("https://user@example.com"), "index.html");
    assert_eq!(resolve_filename("https://ü.example"), "index.html");
    assert_eq!(resolve_filename("://"), "index.html");
    assert_eq!(resolve_filename("x://"), "index.html");
}

#[test]
fn filename_of_url_with_path_after_the_host() {
    assert_eq!(resolve_filename("https://example.com/f"), "f");
    assert_eq!(resolve_filename("https://example.com/example.com"), "example.com");
    assert_eq!(resolve_filename("http://example.com:8080/a/b"), "b");
    assert_eq!(resolve_filename("x:///y"), "y");
}

#[test]
fn filename_looks_at_the_first_scheme_mark_only() {
    assert_eq!(resolve_filename("a://b://c"), "c");
    assert_eq!(resolve_filename("https://example.com/next=http://other"), "other");
    assert_eq!(resolve_filename("https://example.com/next=http://"), "index.html");
}

#[test]
fn filename_of_target_without_scheme_mark() {
    assert_eq!(resolve_filename("dir/name"), "name");
    assert_eq!(resolve_filename("a:/b"), "b");
    assert_eq!(resolve_filename("a:b"), "a:b");
    assert_eq!(resolve_filename(":/"), "index.html");
}

#[test]
fn filename_is_taken_verbatim() {
    assert_eq!(resolve_filename("https://example.com/a?b=c/d"), "d");
    assert_eq!(resolve_filename("https://example.com/x/.."), "..");
    assert_eq!(resolve_filename("https://example.com/a%20b.txt"), "a%20b.txt");
    assert_eq!(resolve_filename("https://example.com/page#top"), "page#top");
}

#[test]
fn filename_with_characters_beyond_ascii() {
    assert_eq!(resolve_filename("https://example.com/ü/文件.txt"), "文件.txt");
    assert_eq!(resolve_filename("https://example.com/é/"), "index.html");
    assert_eq!(resolve_filename("ünïcödé"), "ünïcödé");
}

#[test]
fn filename_of_target_with_path_agrees_with_splitting_on_separator() {
    let targets = [
        "https://example.com/archive.tar.gz",
        "https://example.com/",
        "https://example.com/a/b.txt",
        "",
        "/",
        "//",
        "a//b",
        "a/b/",
        "no-separator",
        "https://example.com/ü/文件.txt",
    ];
    for target in targets {
        let last = target.split('/').last().unwrap();
        let expected = if last.is_empty() { "index.html" } else { last };
        assert_eq!(resolve_filename(target), expected);
    }
}
