use pblm_launcher::error::Failure;
use pblm_launcher::locate::{path_file_name_of, target_name};

#[test]
fn name_is_the_last_path_segment() {
    assert_eq!(target_name("https://example.com/a/b/file.jar"), Ok("file.jar".to_string()));
    assert_eq!(target_name("https://example/1.19.2.json"), Ok("1.19.2.json".to_string()));
}

#[test]
fn query_and_fragment_are_no_part_of_the_name() {
    assert_eq!(target_name("https://example.com/dir/x.bin?token=1#top"), Ok("x.bin".to_string()));
}

#[test]
fn percent_encoding_is_kept() {
    assert_eq!(
        target_name(
            "https://cdn.modrinth.com/data/P7dR8mSH/versions/hfsU4hXq/fabric-api-0.76.0%2B1.19.2.jar"
        ),
        Ok("fabric-api-0.76.0%2B1.19.2.jar".to_string())
    );
    assert_eq!(
        target_name("https://example.com/countries/việt nam"),
        Ok("vi%E1%BB%87t%20nam".to_string())
    );
}

#[test]
fn dot_segments_are_resolved_by_the_parser() {
    assert_eq!(target_name("https://example.com/a/../b/./c.txt"), Ok("c.txt".to_string()));
}

#[test]
fn malformed_url_is_a_parse_failure() {
    assert_eq!(target_name("not a url"), Err(Failure::Parse));
    assert_eq!(target_name(""), Err(Failure::Parse));
    assert_eq!(target_name("/relative/path.txt"), Err(Failure::Parse));
    assert_eq!(target_name("https://"), Err(Failure::Parse));
}

#[test]
fn url_without_segments_is_a_parse_failure() {
    assert_eq!(target_name("data:text/plain,HelloWorld"), Err(Failure::Parse));
    assert_eq!(target_name("mailto:someone@example.com"), Err(Failure::Parse));
}

#[test]
fn empty_last_segment_is_a_parse_failure() {
    assert_eq!(target_name("https://example.com"), Err(Failure::Parse));
    assert_eq!(target_name("https://example.com/"), Err(Failure::Parse));
    assert_eq!(target_name("https://example.com/dir/"), Err(Failure::Parse));
}

#[test]
fn path_file_name_follows_the_last_slash() {
    assert_eq!(path_file_name_of("/a/b.jar"), Some("b.jar".to_string()));
    assert_eq!(path_file_name_of("/b.jar"), Some("b.jar".to_string()));
    assert_eq!(path_file_name_of("/a//b"), Some("b".to_string()));
}

#[test]
fn path_file_name_needs_a_leading_slash_and_a_name() {
    assert_eq!(path_file_name_of(""), None);
    assert_eq!(path_file_name_of("/"), None);
    assert_eq!(path_file_name_of("/a/"), None);
    assert_eq!(path_file_name_of("text/plain,Hello"), None);
    assert_eq!(path_file_name_of("plain"), None);
}
