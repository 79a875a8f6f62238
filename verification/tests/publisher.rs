use garden_publish::metadata::parse_metadata;
use garden_publish::page::parse_file;
use garden_publish::page::ParseError;
use garden_publish::publish::build_path;
use garden_publish::publish::check_and_update_file;
use garden_publish::publish::check_update_need;
use garden_publish::publish::filename_to_destname;
use garden_publish::publish::has_file_diff;
use garden_publish::publish::index_file_path;
use garden_publish::publish::DestState;
use garden_publish::text::split_note_text;
use garden_publish::text::trim_str;

fn note(front: &str, body: &str) -> String {
    format!("---{}---{}", front, body)
}

#[test]
fn aliases_single_string_passes_through() {
    let m = parse_metadata("aliases: foo\n").unwrap();
    assert_eq!(m.aliases, "foo");
}

#[test]
fn aliases_nonempty_list_takes_first() {
    let m = parse_metadata("aliases:\n  - first\n  - second\n").unwrap();
    assert_eq!(m.aliases, "first");
}

#[test]
fn aliases_empty_list_is_empty_string() {
    let m = parse_metadata("aliases: []\n").unwrap();
    assert_eq!(m.aliases, "");
}

#[test]
fn aliases_absent_is_empty_string() {
    let m = parse_metadata("id: something\n").unwrap();
    assert_eq!(m.aliases, "");
}

#[test]
fn aliases_null_is_empty_string() {
    let m = parse_metadata("aliases:\ntitle: t\n").unwrap();
    assert_eq!(m.aliases, "");
}

#[test]
fn aliases_of_wrong_kind_is_a_parse_failure() {
    assert!(parse_metadata("aliases: 5\n").is_none());
    assert!(parse_metadata("aliases:\n  - a\n  - 5\n").is_none());
}

#[test]
fn metadata_fields_come_through_verbatim() {
    let m = parse_metadata(
        "id: n1\naliases: a\ntitle: My Note\ntags:\n  - x\n  - y\ncreatedAt: 2023-01-01\nupdatedAt: 2023-02-03\ndg: true\npublished: false\ndg_path: notes/n1\n",
    )
    .unwrap();
    assert_eq!(m.id, Some("n1".to_string()));
    assert_eq!(m.title, Some("My Note".to_string()));
    assert_eq!(m.tags, Some(vec!["x".to_string(), "y".to_string()]));
    assert_eq!(m.created_at, Some("2023-01-01".to_string()));
    assert_eq!(m.updated_at, Some("2023-02-03".to_string()));
    assert_eq!(m.dg, Some(true));
    assert_eq!(m.published, Some(false));
    assert_eq!(m.dg_path, Some("notes/n1".to_string()));
}

#[test]
fn metadata_absent_fields_are_none() {
    let m = parse_metadata("title: only a title\n").unwrap();
    assert_eq!(m.id, None);
    assert_eq!(m.tags, None);
    assert_eq!(m.created_at, None);
    assert_eq!(m.updated_at, None);
    assert_eq!(m.dg, None);
    assert_eq!(m.published, None);
    assert_eq!(m.dg_path, None);
}

#[test]
fn metadata_of_wrong_field_kind_is_a_parse_failure() {
    assert!(parse_metadata("title:\n  - not\n  - a-string\n").is_none());
    assert!(parse_metadata("dg: maybe-not-a-bool\n").is_none());
    assert!(parse_metadata("tags: not-a-list\n").is_none());
}

#[test]
fn metadata_that_is_no_mapping_is_a_parse_failure() {
    assert!(parse_metadata("just a bare string").is_none());
    assert!(parse_metadata("[ a, flow, sequence ]").is_none());
    assert!(parse_metadata("a: [unclosed").is_none());
}

#[test]
fn split_keeps_front_matter_and_joins_body() {
    let (front, body) = split_note_text("a---b---c---d").unwrap();
    assert_eq!(front, "b");
    assert_eq!(body, "cd");
}

#[test]
fn split_matches_leftmost_nonoverlapping() {
    let (front, body) = split_note_text("a---b----c").unwrap();
    assert_eq!(front, "b");
    assert_eq!(body, "-c");
}

#[test]
fn split_with_adjacent_delimiters_gives_empty_front() {
    let (front, body) = split_note_text("------body").unwrap();
    assert_eq!(front, "");
    assert_eq!(body, "body");
}

#[test]
fn split_with_one_delimiter_is_malformed() {
    assert!(split_note_text("---only front").is_none());
    assert!(split_note_text("no delimiter at all").is_none());
}

#[test]
fn parse_file_reads_a_whole_note() {
    let raw = note("\ndg: true\npublished: true\ndg_path: notes/a\n", "\nHello\n");
    let page = parse_file(raw, "f.md".to_string()).unwrap();
    assert_eq!(page.metadata.dg, Some(true));
    assert_eq!(page.metadata.published, Some(true));
    assert_eq!(page.metadata.dg_path, Some("notes/a".to_string()));
    assert_eq!(page.content, "\nHello\n");
    assert_eq!(page.filename, "f.md");
}

#[test]
fn parse_file_without_two_delimiters_is_malformed() {
    let r = parse_file("dg: true".to_string(), "f.md".to_string());
    assert_eq!(r.unwrap_err(), ParseError::MalformedNote);
}

#[test]
fn parse_file_with_bad_front_matter_is_a_metadata_failure() {
    let raw = note("\ndg: [unclosed\n", "body");
    let r = parse_file(raw, "f.md".to_string());
    assert_eq!(r.unwrap_err(), ParseError::MetadataParseFailure);
}

#[test]
fn trim_removes_edge_whitespace_only() {
    assert_eq!(trim_str("  a b \n"), "a b");
    assert_eq!(trim_str("\u{3000}a\u{3000}"), "a");
    assert_eq!(trim_str("   \n\t"), "");
    assert_eq!(trim_str("inner  kept"), "inner  kept");
}

#[test]
fn file_diff_ignores_edge_whitespace() {
    assert!(!has_file_diff(&"x ".to_string(), &" x".to_string()));
    assert!(!has_file_diff(&"Hello".to_string(), &"Hello\n".to_string()));
}

#[test]
fn file_diff_sees_internal_changes() {
    assert!(has_file_diff(&"He llo".to_string(), &"Hello".to_string()));
    assert!(has_file_diff(&"a".to_string(), &"b".to_string()));
}

#[test]
fn paths_are_built_under_the_publish_root() {
    let dir = build_path("notes/a".to_string());
    assert_eq!(dir, "./dist/notes/a");
    assert_eq!(index_file_path(&dir), "./dist/notes/a/index.md");
}

#[test]
fn destname_cuts_the_timestamp_prefix() {
    assert_eq!(filename_to_destname("202301011200__Title".to_string()), "_Title");
}

#[test]
fn first_publish_writes_the_trimmed_body() {
    let raw = note("\ndg: true\npublished: true\ndg_path: notes/a\n", "\nHello\n");
    let page = parse_file(raw, "f.md".to_string()).unwrap();
    let written = check_and_update_file(&page, &DestState::Missing);
    assert_eq!(written, Some("Hello".to_string()));
}

#[test]
fn unchanged_destination_is_not_rewritten() {
    let raw = note("\ndg: true\npublished: true\ndg_path: notes/a\n", "\nHello\n");
    let page = parse_file(raw, "f.md".to_string()).unwrap();
    let dest = DestState::Existing("Hello\n".to_string());
    assert!(!check_update_need(&page, &dest));
    assert_eq!(check_and_update_file(&page, &dest), None);
}

#[test]
fn publishing_twice_writes_once() {
    let raw = note("\ndg: true\npublished: true\ndg_path: notes/a\n", "\nHello\n");
    let page = parse_file(raw, "f.md".to_string()).unwrap();
    let written = check_and_update_file(&page, &DestState::Missing).unwrap();
    let second = check_and_update_file(&page, &DestState::Existing(written));
    assert_eq!(second, None);
}

#[test]
fn changed_destination_is_rewritten() {
    let raw = note("\ndg: true\npublished: true\ndg_path: notes/a\n", "\nHello\n");
    let page = parse_file(raw, "f.md".to_string()).unwrap();
    let dest = DestState::Existing("Something else".to_string());
    assert!(check_update_need(&page, &dest));
    assert_eq!(check_and_update_file(&page, &dest), Some("Hello".to_string()));
}

#[test]
fn unreadable_destination_is_left_alone() {
    let raw = note("\ndg: true\npublished: true\ndg_path: notes/a\n", "\nHello\n");
    let page = parse_file(raw, "f.md".to_string()).unwrap();
    assert_eq!(check_and_update_file(&page, &DestState::Unreadable), None);
}

#[test]
fn note_without_dg_is_never_written() {
    let raw = note("\npublished: true\ndg_path: notes/a\n", "\nHello\n");
    let page = parse_file(raw, "f.md".to_string()).unwrap();
    assert_eq!(check_and_update_file(&page, &DestState::Missing), None);
    let raw = note("\ndg: false\npublished: true\ndg_path: notes/a\n", "\nHello\n");
    let page = parse_file(raw, "f.md".to_string()).unwrap();
    assert_eq!(check_and_update_file(&page, &DestState::Missing), None);
}

#[test]
fn note_without_published_is_never_written() {
    let raw = note("\ndg: true\npublished: false\ndg_path: notes/a\n", "\nHello\n");
    let page = parse_file(raw, "f.md".to_string()).unwrap();
    let differing = DestState::Existing("quite different".to_string());
    assert_eq!(check_and_update_file(&page, &differing), None);
    assert_eq!(check_and_update_file(&page, &DestState::Missing), None);
}

#[test]
fn note_without_dg_path_is_never_written() {
    let raw = note("\ndg: true\npublished: true\n", "\nHello\n");
    let page = parse_file(raw, "f.md".to_string()).unwrap();
    assert!(!check_update_need(&page, &DestState::Missing));
    assert_eq!(check_and_update_file(&page, &DestState::Missing), None);
}
