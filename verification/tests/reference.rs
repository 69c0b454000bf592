use snow_api::glider::{GlideReference, PreprocessedGlideRef};

fn parse(link: &str) -> GlideReference {
    PreprocessedGlideRef::into_glide_ref(PreprocessedGlideRef { link: link.to_string() })
}

#[test]
fn link_with_host_and_path_names_table_and_identifier() {
    let reference = parse("https://host/api/now/table/incident/abc123");
    assert_eq!(reference.table(), "incident");
    assert_eq!(reference.sys_id(), "abc123");
}

#[test]
fn link_without_any_slash_is_the_empty_reference() {
    let reference = parse("abc123");
    assert_eq!(reference.table(), "");
    assert_eq!(reference.sys_id(), "");
}

#[test]
fn empty_link_is_the_empty_reference() {
    let reference = parse("");
    assert_eq!(reference.table(), "");
    assert_eq!(reference.sys_id(), "");
}

#[test]
fn default_reference_is_empty() {
    let reference = GlideReference::default();
    assert_eq!(reference.table(), "");
    assert_eq!(reference.sys_id(), "");
}

#[test]
fn link_of_two_segments_names_both() {
    let reference = parse("incident/abc123");
    assert_eq!(reference.table(), "incident");
    assert_eq!(reference.sys_id(), "abc123");
}

#[test]
fn link_that_ends_in_a_slash_has_an_empty_identifier() {
    let reference = parse("api/incident/");
    assert_eq!(reference.table(), "incident");
    assert_eq!(reference.sys_id(), "");
}

#[test]
fn link_that_starts_with_its_only_slash_has_an_empty_table() {
    let reference = parse("/abc123");
    assert_eq!(reference.table(), "");
    assert_eq!(reference.sys_id(), "abc123");
}

#[test]
fn link_of_a_single_slash_names_two_empty_parts() {
    let reference = parse("/");
    assert_eq!(reference.table(), "");
    assert_eq!(reference.sys_id(), "");
}

#[test]
fn doubled_slash_gives_an_empty_table() {
    let reference = parse("host//abc");
    assert_eq!(reference.table(), "");
    assert_eq!(reference.sys_id(), "abc");
}

#[test]
fn only_the_last_two_segments_count() {
    let reference = parse("a/b/c/d/e");
    assert_eq!(reference.table(), "d");
    assert_eq!(reference.sys_id(), "e");
}

#[test]
fn characters_beyond_ascii_are_kept_whole() {
    let reference = parse("https://hôte/tâble/ïd→7");
    assert_eq!(reference.table(), "tâble");
    assert_eq!(reference.sys_id(), "ïd→7");
}

#[test]
fn reference_made_of_parts_holds_them() {
    let reference = GlideReference::new("incident".to_string(), "abc123".to_string());
    assert_eq!(reference.table(), "incident");
    assert_eq!(reference.sys_id(), "abc123");
}

#[test]
fn written_link_reads_back() {
    for (table, sys_id) in [("incident", "abc123"), ("", "x"), ("t", ""), ("sys_user", "6816f79cc0a8016401c5a33be04be441")] {
        let link = format!("https://dev.example.com/api/now/table/{}/{}", table, sys_id);
        let reference = parse(&link);
        assert_eq!(reference.table(), table);
        assert_eq!(reference.sys_id(), sys_id);
    }
}
