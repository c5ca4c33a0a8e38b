use subgraph_resolver::detect::{any_name_is_link, schema_contains_link_directive};

const FED_TWO_SDL: &str = "extend schema @link(url: \"https://specs.apollo.dev/federation/v2.0\") { query: Query } type Query { a: String }";

#[test]
fn link_on_schema_extension_is_detected() {
    assert!(schema_contains_link_directive(FED_TWO_SDL));
}

#[test]
fn link_on_schema_definition_is_detected() {
    let sdl = "schema @link(url: \"https://specs.apollo.dev/federation/v2.0\") { query: Query } type Query { a: String }";
    assert!(schema_contains_link_directive(sdl));
}

#[test]
fn plain_schema_is_not_detected() {
    assert!(!schema_contains_link_directive("type Query { a: String }"));
}

#[test]
fn non_link_schema_directive_is_not_detected() {
    let sdl = "extend schema @compose(directives: [\"@tag\"]) { query: Query } type Query { a: String }";
    assert!(!schema_contains_link_directive(sdl));
}

#[test]
fn link_directive_on_an_object_is_not_detected() {
    let sdl = "type Query @link(url: \"https://specs.apollo.dev/federation/v2.0\") { a: String }";
    assert!(!schema_contains_link_directive(sdl));
}

#[test]
fn link_directive_on_a_field_is_not_detected() {
    let sdl = "type Query { a: String @link(url: \"https://specs.apollo.dev/federation/v2.0\") }";
    assert!(!schema_contains_link_directive(sdl));
}

#[test]
fn detector_is_total_on_invalid_sdl() {
    assert!(!schema_contains_link_directive("this is } not { valid GraphQL %%%"));
    assert!(!schema_contains_link_directive(""));
    assert!(!schema_contains_link_directive("schema @"));
    assert!(!schema_contains_link_directive("\u{0}\u{fffd}@link"));
}

#[test]
fn any_name_is_link_finds_exact_name_only() {
    assert!(any_name_is_link(&vec!["foo".to_string(), "link".to_string()]));
    assert!(!any_name_is_link(&vec!["foo".to_string(), "linked".to_string()]));
    assert!(!any_name_is_link(&vec!["Link".to_string()]));
    assert!(!any_name_is_link(&Vec::new()));
}
