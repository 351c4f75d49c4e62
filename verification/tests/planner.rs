use emoji_archiver::errors::PlanError;
use emoji_archiver::model::{AssetDescriptor, Timestamp};
use emoji_archiver::plan::{
    classify_dir_create, derive_extension, derive_run_directory, plan, sanitize_name,
    DirCreateOutcome,
};
use emoji_archiver::text::{find_char, format_u64, rfind_char, str_eq};

#[test]
fn sanitize_keeps_safe_characters() {
    assert_eq!(sanitize_name("wave"), "wave");
    assert_eq!(sanitize_name("snake_case-42"), "snake_case-42");
}

#[test]
fn sanitize_lowercases_and_replaces_spaces() {
    assert_eq!(sanitize_name("Test Server"), "test-server");
    assert_eq!(sanitize_name("WAVE"), "wave");
}

#[test]
fn sanitize_drops_unsafe_characters() {
    assert_eq!(sanitize_name("a/b:c*d"), "abcd");
    assert_eq!(sanitize_name("émoji"), "moji");
    assert_eq!(sanitize_name("///"), "");
}

#[test]
fn extension_from_url_wins_over_flag() {
    assert_eq!(derive_extension("https://cdn.example/a/wave.gif", false), "gif");
    assert_eq!(derive_extension("https://cdn.example/a/wave.gif", true), "gif");
    assert_eq!(derive_extension("https://cdn.example/a/pic.webp", true), "webp");
}

#[test]
fn extension_falls_back_on_animated_flag() {
    assert_eq!(derive_extension("https://cdn.example/asset/12345", true), "gif");
    assert_eq!(derive_extension("https://cdn.example/asset/12345", false), "png");
}

#[test]
fn extension_ignores_query_string() {
    assert_eq!(derive_extension("https://cdn.example/a/smile.png?x=1", false), "png");
    assert_eq!(derive_extension("https://cdn.example/a/smile.png?x=1.gif", false), "png");
}

#[test]
fn extension_dot_only_in_query_falls_back() {
    assert_eq!(derive_extension("https://cdn/a?x.gif", false), "png");
    assert_eq!(derive_extension("https://cdn/a?x.gif", true), "gif");
}

#[test]
fn extension_trailing_dot_falls_back() {
    assert_eq!(derive_extension("https://cdn.example/a/odd.", true), "gif");
}

#[test]
fn plan_composes_directory_name_and_extension() {
    let asset = AssetDescriptor::new("wave".to_string(), "https://c/e/wave.gif".to_string(), true);
    let path = plan("/tmp/run", &asset).unwrap();
    assert_eq!(path, "/tmp/run/wave.gif");
}

#[test]
fn plan_is_deterministic() {
    let asset =
        AssetDescriptor::new("Some Emoji".to_string(), "https://c/e/thing.png".to_string(), false);
    let first = plan("/tmp/run", &asset).unwrap();
    let second = plan("/tmp/run", &asset).unwrap();
    assert_eq!(first, second);
}

#[test]
fn plan_rejects_name_that_empties_out() {
    let asset = AssetDescriptor::new("///".to_string(), "https://c/e/a.png".to_string(), false);
    assert_eq!(plan("/tmp/run", &asset), Err(PlanError::UnsafeName));
    let empty = AssetDescriptor::new(String::new(), "https://c/e/a.png".to_string(), false);
    assert_eq!(plan("/tmp/run", &empty), Err(PlanError::UnsafeName));
}

#[test]
fn plan_collision_yields_identical_paths() {
    let first = AssetDescriptor::new("Wave".to_string(), "https://c/1/x.gif".to_string(), false);
    let second = AssetDescriptor::new("wave".to_string(), "https://c/2/y.gif".to_string(), true);
    let p1 = plan("/tmp/run", &first).unwrap();
    let p2 = plan("/tmp/run", &second).unwrap();
    assert_eq!(p1, p2);
}

#[test]
fn dir_create_already_exists_is_success() {
    assert_eq!(classify_dir_create(DirCreateOutcome::Created), Ok(()));
    assert_eq!(classify_dir_create(DirCreateOutcome::AlreadyExists), Ok(()));
    assert_eq!(
        classify_dir_create(DirCreateOutcome::Failed),
        Err(PlanError::DirectoryCreate)
    );
}

#[test]
fn timestamp_rejects_out_of_range_fields() {
    assert!(Timestamp::new(2024, 13, 1, 0, 0, 0).is_none());
    assert!(Timestamp::new(2024, 0, 1, 0, 0, 0).is_none());
    assert!(Timestamp::new(2024, 1, 1, 24, 0, 0).is_none());
    assert!(Timestamp::new(10000, 1, 1, 0, 0, 0).is_none());
    assert!(Timestamp::new(2024, 1, 1, 0, 0, 0).is_some());
}

#[test]
fn timestamp_formats_zero_padded() {
    let ts = Timestamp::new(2024, 1, 1, 0, 0, 0).unwrap();
    assert_eq!(ts.format(), "2024-01-01T00-00-00");
    let ts = Timestamp::new(987, 12, 31, 23, 59, 5).unwrap();
    assert_eq!(ts.format(), "0987-12-31T23-59-05");
}

#[test]
fn run_directory_combines_server_and_timestamp() {
    let ts = Timestamp::new(2024, 1, 1, 0, 0, 0).unwrap();
    assert_eq!(derive_run_directory("Test Server", &ts), "test-server-2024-01-01T00-00-00");
}

#[test]
fn decimal_formatting() {
    assert_eq!(format_u64(0), "0");
    assert_eq!(format_u64(7), "7");
    assert_eq!(format_u64(42), "42");
    assert_eq!(format_u64(1000), "1000");
}

#[test]
fn char_search_helpers() {
    assert_eq!(find_char("a?b?c", '?'), Some(1));
    assert_eq!(find_char("abc", '?'), None);
    assert_eq!(rfind_char("a.b.c", '.'), Some(3));
    assert_eq!(rfind_char("abc", '.'), None);
    assert!(str_eq("!archive", "!archive"));
    assert!(!str_eq("!archive", "!archive "));
}
