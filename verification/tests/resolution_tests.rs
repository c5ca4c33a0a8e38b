use subgraph_resolver::config::{SchemaSource, SubgraphConfig, UnresolvedSubgraph};
use subgraph_resolver::error::ResolveSubgraphError;
use subgraph_resolver::subgraph::{FullyResolveSubgraphService, FullyResolvedSubgraph};

const PLAIN_SDL: &str = "type Query { a: String }";
const FED_TWO_SDL: &str = "extend schema @link(url: \"https://specs.apollo.dev/federation/v2.0\") { query: Query } type Query { a: String }";

fn root() -> String {
    "supergraph".to_string()
}

#[test]
fn constructor_computes_fed_two_false_for_plain_schema() {
    let subgraph = FullyResolvedSubgraph::new(
        "subgraphA".to_string(),
        PLAIN_SDL.to_string(),
        None,
        SchemaSource::Sdl { sdl: PLAIN_SDL.to_string() },
    );
    assert!(!subgraph.is_fed_two());
    assert_eq!(subgraph.name(), "subgraphA");
    assert_eq!(subgraph.schema(), PLAIN_SDL);
    assert_eq!(subgraph.routing_url(), &None);
}

#[test]
fn constructor_computes_fed_two_true_for_linked_schema() {
    let subgraph = FullyResolvedSubgraph::new(
        "subgraphB".to_string(),
        FED_TWO_SDL.to_string(),
        Some("https://products.example.com".to_string()),
        SchemaSource::Sdl { sdl: FED_TWO_SDL.to_string() },
    );
    assert!(subgraph.is_fed_two());
    assert_eq!(
        subgraph.routing_url(),
        &Some("https://products.example.com".to_string())
    );
}

#[test]
fn update_schema_replaces_text_but_keeps_the_flag() {
    let mut subgraph = FullyResolvedSubgraph::new(
        "subgraphA".to_string(),
        PLAIN_SDL.to_string(),
        None,
        SchemaSource::Sdl { sdl: PLAIN_SDL.to_string() },
    );
    assert!(!subgraph.is_fed_two());
    subgraph.update_schema(FED_TWO_SDL.to_string());
    assert_eq!(subgraph.schema(), FED_TWO_SDL);
    // The flag is the decision made at construction time.
    assert!(!subgraph.is_fed_two());
}

#[test]
fn file_source_dispatches_to_the_file_resolver() {
    let unresolved = UnresolvedSubgraph::new(
        "subgraphA".to_string(),
        SchemaSource::File { file: "subgraphA.graphql".to_string() },
        Some("https://a.example.com".to_string()),
    );
    let service = FullyResolvedSubgraph::resolver(&root(), unresolved).unwrap();
    match service {
        FullyResolveSubgraphService::File(resolver) => {
            assert!(resolver.poll_ready());
            assert_eq!(resolver.file_path(), "supergraph/subgraphA.graphql");
            let resolved = resolver.complete(PLAIN_SDL.to_string());
            assert_eq!(resolved.name(), "subgraphA");
            assert_eq!(resolved.schema(), PLAIN_SDL);
            assert_eq!(
                resolved.routing_url(),
                &Some("https://a.example.com".to_string())
            );
            assert_eq!(
                resolved.schema_source(),
                &SchemaSource::File { file: "subgraphA.graphql".to_string() }
            );
            assert!(!resolved.is_fed_two());
        }
        other => panic!("expected a file resolver, got {:?}", other),
    }
}

#[test]
fn file_resolution_omits_an_undeclared_routing_url() {
    let unresolved = UnresolvedSubgraph::new(
        "subgraphA".to_string(),
        SchemaSource::File { file: "subgraphA.graphql".to_string() },
        None,
    );
    let service = FullyResolvedSubgraph::resolver(&root(), unresolved).unwrap();
    match service {
        FullyResolveSubgraphService::File(resolver) => {
            let resolved = resolver.complete(PLAIN_SDL.to_string());
            assert_eq!(resolved.routing_url(), &None);
        }
        other => panic!("expected a file resolver, got {:?}", other),
    }
}

#[test]
fn empty_path_fails_as_malformed_before_any_io() {
    let unresolved = UnresolvedSubgraph::new(
        "subgraphA".to_string(),
        SchemaSource::File { file: String::new() },
        None,
    );
    let err = FullyResolvedSubgraph::resolver(&root(), unresolved).unwrap_err();
    assert_eq!(err, ResolveSubgraphError::MalformedPath { path: String::new() });
}

#[test]
fn nul_bearing_path_fails_as_malformed() {
    let unresolved = UnresolvedSubgraph::new(
        "subgraphA".to_string(),
        SchemaSource::File { file: "schemas\u{0}A.graphql".to_string() },
        None,
    );
    let err = FullyResolvedSubgraph::resolver(&root(), unresolved).unwrap_err();
    assert_eq!(
        err,
        ResolveSubgraphError::MalformedPath { path: "schemas\u{0}A.graphql".to_string() }
    );
}

#[test]
fn introspection_dispatch_defaults_absent_headers_to_empty() {
    let unresolved = UnresolvedSubgraph::new(
        "subgraphA".to_string(),
        SchemaSource::SubgraphIntrospection {
            subgraph_url: "https://a.example.com/graphql".to_string(),
            introspection_headers: None,
        },
        Some("https://a.example.com".to_string()),
    );
    let service = FullyResolvedSubgraph::resolver(&root(), unresolved).unwrap();
    match service {
        FullyResolveSubgraphService::Introspect(request) => {
            assert_eq!(request.endpoint, "https://a.example.com/graphql");
            assert!(request.headers.is_empty());
            assert_eq!(request.routing_url, Some("https://a.example.com".to_string()));
            assert_eq!(request.subgraph_name, "subgraphA");
        }
        other => panic!("expected an introspection request, got {:?}", other),
    }
}

#[test]
fn introspection_dispatch_keeps_declared_headers() {
    let headers = vec![("x-api-version".to_string(), "2".to_string())];
    let unresolved = UnresolvedSubgraph::new(
        "subgraphA".to_string(),
        SchemaSource::SubgraphIntrospection {
            subgraph_url: "https://a.example.com/graphql".to_string(),
            introspection_headers: Some(headers.clone()),
        },
        None,
    );
    let service = FullyResolvedSubgraph::resolver(&root(), unresolved).unwrap();
    match service {
        FullyResolveSubgraphService::Introspect(request) => {
            assert_eq!(request.headers, headers);
            assert_eq!(request.routing_url, None);
        }
        other => panic!("expected an introspection request, got {:?}", other),
    }
}

#[test]
fn registry_dispatch_parses_the_graph_reference() {
    let unresolved = UnresolvedSubgraph::new(
        "products".to_string(),
        SchemaSource::Subgraph {
            graphref: "mygraph@staging".to_string(),
            subgraph: "products".to_string(),
        },
        Some("https://products.example.com".to_string()),
    );
    let service = FullyResolvedSubgraph::resolver(&root(), unresolved).unwrap();
    match service {
        FullyResolveSubgraphService::Remote(remote) => {
            assert_eq!(remote.graph_ref.name, "mygraph");
            assert_eq!(remote.graph_ref.variant, "staging");
            assert_eq!(remote.subgraph_name, "products");
            assert_eq!(
                remote.routing_url,
                Some("https://products.example.com".to_string())
            );
        }
        other => panic!("expected a remote resolver, got {:?}", other),
    }
}

#[test]
fn registry_dispatch_rejects_an_invalid_graph_reference() {
    let unresolved = UnresolvedSubgraph::new(
        "products".to_string(),
        SchemaSource::Subgraph {
            graphref: "@staging".to_string(),
            subgraph: "products".to_string(),
        },
        None,
    );
    let err = FullyResolvedSubgraph::resolver(&root(), unresolved).unwrap_err();
    match err {
        ResolveSubgraphError::InvalidGraphRef { graph_ref, source } => {
            assert_eq!(graph_ref, "@staging");
            assert!(source.contains("NAME or NAME@VARIANT"));
        }
        other => panic!("expected an invalid graph ref error, got {:?}", other),
    }
}

#[test]
fn sdl_dispatch_never_fails_and_resolves_deterministically() {
    let unresolved = UnresolvedSubgraph::new(
        "subgraphB".to_string(),
        SchemaSource::Sdl { sdl: FED_TWO_SDL.to_string() },
        None,
    );
    let service = FullyResolvedSubgraph::resolver(&root(), unresolved).unwrap();
    match service {
        FullyResolveSubgraphService::Sdl(resolver) => {
            assert!(resolver.poll_ready());
            let first = resolver.call();
            let second = resolver.call();
            assert_eq!(first, second);
            assert_eq!(first.schema(), FED_TWO_SDL);
            assert!(first.is_fed_two());
            assert_eq!(
                first.schema_source(),
                &SchemaSource::Sdl { sdl: FED_TWO_SDL.to_string() }
            );
        }
        other => panic!("expected an inline resolver, got {:?}", other),
    }
}

#[test]
fn cloned_services_are_value_identical() {
    let unresolved = UnresolvedSubgraph::new(
        "subgraphA".to_string(),
        SchemaSource::File { file: "subgraphA.graphql".to_string() },
        None,
    );
    let service = FullyResolvedSubgraph::resolver(&root(), unresolved).unwrap();
    assert_eq!(service.clone(), service);
}

#[test]
fn subgraph_config_keeps_routing_url_and_collapses_to_inline_sdl() {
    let resolved = FullyResolvedSubgraph::new(
        "subgraphA".to_string(),
        PLAIN_SDL.to_string(),
        Some("https://a.example.com".to_string()),
        SchemaSource::File { file: "subgraphA.graphql".to_string() },
    );
    let record = SubgraphConfig::from(resolved);
    assert_eq!(record.routing_url, Some("https://a.example.com".to_string()));
    assert_eq!(record.schema, SchemaSource::Sdl { sdl: PLAIN_SDL.to_string() });
}

#[test]
fn round_trip_through_the_record_keeps_the_schema_text() {
    let resolved = FullyResolvedSubgraph::new(
        "subgraphA".to_string(),
        PLAIN_SDL.to_string(),
        Some("https://a.example.com".to_string()),
        SchemaSource::File { file: "subgraphA.graphql".to_string() },
    );
    let record = SubgraphConfig::from(resolved.clone());
    let declared = UnresolvedSubgraph::new(
        "subgraphA".to_string(),
        record.schema,
        record.routing_url,
    );
    let service = FullyResolvedSubgraph::resolver(&root(), declared).unwrap();
    match service {
        FullyResolveSubgraphService::Sdl(resolver) => {
            let back = resolver.call();
            assert_eq!(back.schema(), resolved.schema());
            assert_eq!(back.routing_url(), resolved.routing_url());
        }
        other => panic!("expected an inline resolver, got {:?}", other),
    }
}
