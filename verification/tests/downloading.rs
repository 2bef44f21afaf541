use zig_installer::destination::{
    default_install_path, extracting_message, locate_install_path, staged_notice,
    InstallDestination, INSTALL_SUBPATH,
};
use zig_installer::download::{
    file_name_from_segment, final_segment, staged_file_name, staging_path, DownloadStaging,
    FALLBACK_FILE_NAME, STAGING_DIR,
};
use zig_installer::error::Error;

#[test]
fn file_name_is_the_last_path_segment() {
    assert_eq!(
        staged_file_name("https://example.org/builds/zig-linux-x86_64-0.1.0.tar.xz"),
        "zig-linux-x86_64-0.1.0.tar.xz"
    );
}

#[test]
fn file_name_leaves_query_and_fragment_out() {
    assert_eq!(
        staged_file_name("https://example.org/a/b/zig.tar.xz?mirror=1#top"),
        "zig.tar.xz"
    );
}

#[test]
fn trailing_slash_falls_back_to_placeholder() {
    assert_eq!(staged_file_name("https://example.org/builds/"), "tmp.bin");
}

#[test]
fn url_without_path_falls_back_to_placeholder() {
    assert_eq!(staged_file_name("https://example.org"), "tmp.bin");
}

#[test]
fn url_that_cannot_be_a_base_falls_back_to_placeholder() {
    assert_eq!(staged_file_name("data:text/plain,HelloWorld"), "tmp.bin");
}

#[test]
fn text_that_is_no_url_falls_back_to_placeholder() {
    assert_eq!(staged_file_name("not a url"), "tmp.bin");
}

#[test]
fn file_name_keeps_percent_encoding() {
    assert_eq!(staged_file_name("https://example.org/dir/my file.tar.xz"), "my%20file.tar.xz");
}

#[test]
fn final_segment_is_what_follows_the_last_slash() {
    assert_eq!(final_segment("/builds/zig.tar.xz"), Some("zig.tar.xz".to_string()));
    assert_eq!(final_segment("/zig.tar.xz"), Some("zig.tar.xz".to_string()));
    assert_eq!(final_segment("/a/b/c"), Some("c".to_string()));
}

#[test]
fn final_segment_may_be_empty() {
    assert_eq!(final_segment("/"), Some(String::new()));
    assert_eq!(final_segment("/builds/"), Some(String::new()));
    assert_eq!(final_segment("//"), Some(String::new()));
}

#[test]
fn path_without_leading_slash_has_no_segments() {
    assert_eq!(final_segment(""), None);
    assert_eq!(final_segment("text/plain,HelloWorld"), None);
    assert_eq!(final_segment("zig.tar.xz"), None);
}

#[test]
fn final_segment_counts_characters_not_bytes() {
    assert_eq!(final_segment("/caf\u{e9}/z\u{fc}rich.tar"), Some("z\u{fc}rich.tar".to_string()));
    assert_eq!(final_segment("\u{e9}/x"), None);
}

#[test]
fn dot_segments_are_resolved_before_naming() {
    assert_eq!(staged_file_name("https://example.org/a/b/../zig.tar.xz"), "zig.tar.xz");
    assert_eq!(staged_file_name("https://example.org/a/.."), "tmp.bin");
}

#[test]
fn segment_decides_the_file_name() {
    assert_eq!(file_name_from_segment(Some("zig.tar.xz".to_string())), "zig.tar.xz");
    assert_eq!(file_name_from_segment(Some(String::new())), "tmp.bin");
    assert_eq!(file_name_from_segment(None), "tmp.bin");
    assert_eq!(FALLBACK_FILE_NAME, "tmp.bin");
}

#[test]
fn staging_path_is_under_the_staging_directory() {
    assert_eq!(STAGING_DIR, "/tmp/");
    assert_eq!(staging_path("zig.tar.xz"), "/tmp/zig.tar.xz");
}

#[test]
fn begin_starts_at_zero_bytes() {
    let staging = DownloadStaging::begin(
        "https://example.org/latest",
        "https://cdn.example.org/builds/zig-linux-x86_64-0.1.0.tar.xz",
        Some(1000),
    )
    .unwrap();
    assert_eq!(
        staging,
        DownloadStaging {
            source_url: "https://example.org/latest".to_string(),
            local_staging_path: "/tmp/zig-linux-x86_64-0.1.0.tar.xz".to_string(),
            total_bytes: 1000,
            bytes_transferred: 0,
        }
    );
    assert_eq!(staging.progress(), (0, 1000));
    assert!(!staging.is_complete());
}

#[test]
fn begin_without_content_length_is_refused() {
    assert_eq!(
        DownloadStaging::begin("https://example.org/z", "https://example.org/z", None),
        Err(Error::MissingContentLength)
    );
    assert_eq!(
        DownloadStaging::begin_with_segment("https://example.org/z", None, None),
        Err(Error::MissingContentLength)
    );
}

#[test]
fn begin_with_segment_uses_the_segment() {
    let staging = DownloadStaging::begin_with_segment(
        "https://example.org/z",
        Some(String::new()),
        Some(7),
    )
    .unwrap();
    assert_eq!(staging.local_staging_path, "/tmp/tmp.bin");
    assert_eq!(staging.source_url, "https://example.org/z");
    assert_eq!(staging.total_bytes, 7);
    assert_eq!(staging.bytes_transferred, 0);
}

#[test]
fn transferred_bytes_are_the_sum_of_the_chunks() {
    let mut staging =
        DownloadStaging::begin("https://e.org/z.tar.xz", "https://e.org/z.tar.xz", Some(60))
            .unwrap();
    let chunks: Vec<usize> = vec![10, 0, 20, 30];
    let mut sum: u64 = 0;
    for len in chunks {
        staging.record_chunk(len);
        sum += len as u64;
        assert_eq!(staging.progress(), (sum, 60));
    }
    assert_eq!(staging.bytes_transferred, 60);
    assert!(staging.is_complete());
    assert_eq!(staging.finish(), "/tmp/z.tar.xz");
}

#[test]
fn short_body_is_not_complete() {
    let mut staging =
        DownloadStaging::begin("https://e.org/z.tar.xz", "https://e.org/z.tar.xz", Some(60))
            .unwrap();
    staging.record_chunk(59);
    assert!(!staging.is_complete());
    assert_eq!(staging.source_url, "https://e.org/z.tar.xz");
    assert_eq!(staging.total_bytes, 60);
}

#[test]
fn empty_body_of_length_zero_is_complete() {
    let staging =
        DownloadStaging::begin("https://e.org/z", "https://e.org/z", Some(0)).unwrap();
    assert!(staging.is_complete());
}

#[test]
fn default_install_path_is_under_home() {
    assert_eq!(INSTALL_SUBPATH, "/.zig/");
    assert_eq!(default_install_path("/home/ziggy"), "/home/ziggy/.zig/");
    assert_eq!(default_install_path(""), "/.zig/");
}

#[test]
fn located_install_path_ends_with_the_subpath() {
    if let Some(path) = locate_install_path() {
        assert!(path.ends_with("/.zig/"));
    }
}

#[test]
fn missing_destination_needs_creation() {
    let missing = InstallDestination::new("/home/ziggy/.zig/", false);
    assert!(missing.needs_creation());
    let created = missing.created();
    assert_eq!(created, InstallDestination::new("/home/ziggy/.zig/", true));
    assert!(!created.needs_creation());
}

#[test]
fn progress_lines_name_the_path() {
    assert_eq!(extracting_message("a/b.txt"), "Extracting: a/b.txt");
    assert_eq!(staged_notice("/tmp/zig.tar.xz"), "You can find tar in /tmp/zig.tar.xz");
}
