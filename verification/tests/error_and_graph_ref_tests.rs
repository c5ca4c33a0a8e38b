use subgraph_resolver::error::{ResolveSubgraphError, RoverClientError};
use subgraph_resolver::graph_ref::GraphRef;

#[test]
fn graph_ref_with_variant_parses_into_both_parts() {
    let parsed = GraphRef::from_str("my-graph_1@prod").unwrap();
    assert_eq!(parsed.name, "my-graph_1");
    assert_eq!(parsed.variant, "prod");
}

#[test]
fn graph_ref_without_variant_names_current() {
    let parsed = GraphRef::from_str("mygraph").unwrap();
    assert_eq!(parsed.name, "mygraph");
    assert_eq!(parsed.variant, "current");
}

#[test]
fn graph_ref_variant_may_hold_any_characters() {
    let parsed = GraphRef::from_str("mygraph@pr 42/#7").unwrap();
    assert_eq!(parsed.variant, "pr 42/#7");
}

#[test]
fn graph_ref_name_must_begin_with_a_letter() {
    let err = GraphRef::from_str("1graph@prod").unwrap_err();
    assert_eq!(err.input, "1graph@prod");
}

#[test]
fn graph_ref_name_rejects_odd_characters() {
    assert!(GraphRef::from_str("my graph@prod").is_err());
    assert!(GraphRef::from_str("@prod").is_err());
    assert!(GraphRef::from_str("").is_err());
    assert!(GraphRef::from_str("mygraph@").is_err());
}

#[test]
fn graph_ref_name_is_capped_at_sixty_four_characters() {
    let long_name: String = "g".repeat(64);
    assert!(GraphRef::from_str(&long_name).is_ok());
    let too_long: String = "g".repeat(65);
    assert!(GraphRef::from_str(&too_long).is_err());
}

#[test]
fn graph_ref_parse_error_message_names_the_shape() {
    let err = GraphRef::from_str("@prod").unwrap_err();
    assert!(err.message().starts_with("graph references must be of the form NAME or NAME@VARIANT"));
}

#[test]
fn resolve_error_messages_carry_identity_and_cause() {
    let err = ResolveSubgraphError::MalformedPath { path: "a\u{0}b".to_string() };
    assert_eq!(
        err.message(),
        "subgraph schema path is not a well-formed relative path: a\u{0}b"
    );
    let err = ResolveSubgraphError::Fs { source: "permission denied".to_string() };
    assert_eq!(err.message(), "failed to read subgraph schema file: permission denied");
    let err = ResolveSubgraphError::InvalidGraphRef {
        graph_ref: "@prod".to_string(),
        source: "no name".to_string(),
    };
    assert_eq!(err.message(), "invalid graph reference @prod: no name");
    let err = ResolveSubgraphError::ServiceReady { source: "connection refused".to_string() };
    assert_eq!(
        err.message(),
        "subgraph resolver service failed to become ready: connection refused"
    );
    let err = ResolveSubgraphError::FetchRemoteSdlError {
        subgraph_name: "products".to_string(),
        source: "timeout".to_string(),
    };
    assert_eq!(err.message(), "failed to fetch the remote SDL for subgraph products: timeout");
}

#[test]
fn client_error_messages_match_their_variants() {
    let err = RoverClientError::GraphQL { msg: "unknown field".to_string() };
    assert_eq!(
        err.message(),
        "encountered a GraphQL error, registry responded with: unknown field"
    );
    let err = RoverClientError::InvalidHeaderName { source: "bad name".to_string() };
    assert_eq!(err.message(), "invalid header name");
    let err = RoverClientError::InvalidHeaderValue { source: "bad value".to_string() };
    assert_eq!(err.message(), "invalid header value");
    let err = RoverClientError::HandleResponse { msg: "truncated body".to_string() };
    assert_eq!(err.message(), "encountered an error handling the response: truncated body");
    let err = RoverClientError::SendRequest { source: "dns failure".to_string() };
    assert_eq!(err.message(), "encountered an error while sending a request");
    assert_eq!(
        RoverClientError::NoData.message(),
        "the response from the server was malformed: no data was found in the response body"
    );
}
