//! The canonical resolved subgraph and the resolution dispatcher.
//!
//! A [`FullyResolvedSubgraph`] is a subgraph reduced to one normalized form:
//! a name, a concrete SDL text, the source it came from, an optional routing
//! URL, and the computed federation-version flag. The dispatcher maps each
//! declared schema source onto the resolver that can produce that form.

use vstd::prelude::*;

use crate::config::{
    clone_opt_string, SchemaSource, SchemaSourceView, SubgraphConfig, SubgraphConfigView,
    UnresolvedSubgraph, UnresolvedSubgraphView,
};
use crate::detect::{contains_link, schema_contains_link_directive, schema_level_directive_names};
use crate::error::{ResolveSubgraphError, ResolveSubgraphErrorView};
use crate::file::{check_path, well_formed_path, ResolveFileSubgraph, ResolveFileSubgraphView};
use crate::graph_ref::{
    graph_ref_name_part, graph_ref_parse_error_text, graph_ref_variant_part, valid_graph_ref,
    GraphRef, GraphRefView,
};

verus! {

/// A subgraph that has been resolved down to an SDL text. The federation
/// version flag is derived, never set directly: the only constructor runs
/// the federation version detector over the schema text.
#[derive(Debug, PartialEq, Eq)]
pub struct FullyResolvedSubgraph {
    name: String,
    pub(crate) routing_url: Option<String>,
    schema: String,
    schema_source: SchemaSource,
    pub(crate) is_fed_two: bool,
}

/// The mathematical model of a [`FullyResolvedSubgraph`].
pub struct FullyResolvedSubgraphView {
    pub name: Seq<char>,
    pub routing_url: Option<Seq<char>>,
    pub schema: Seq<char>,
    pub schema_source: SchemaSourceView,
    pub is_fed_two: bool,
}

impl View for FullyResolvedSubgraph {
    type V = FullyResolvedSubgraphView;

    closed spec fn view(&self) -> FullyResolvedSubgraphView {
        FullyResolvedSubgraphView {
            name: self.name@,
            routing_url: self.routing_url.deep_view(),
            schema: self.schema@,
            schema_source: self.schema_source@,
            is_fed_two: self.is_fed_two,
        }
    }
}

impl FullyResolvedSubgraph {
    /// The single constructive entry point. The federation version flag is
    /// always exactly the detector's verdict on `schema` at construction
    /// time; no construction path takes the flag from a caller.
    pub fn new(
        name: String,
        schema: String,
        routing_url: Option<String>,
        schema_source: SchemaSource,
    ) -> (r: FullyResolvedSubgraph)
        ensures
            r@.name == name@,
            r@.schema == schema@,
            r@.routing_url == routing_url.deep_view(),
            r@.schema_source == schema_source@,
            r@.is_fed_two == contains_link(schema_level_directive_names(schema@)),
    {
        let is_fed_two = schema_contains_link_directive(schema.as_str());
        FullyResolvedSubgraph { name, schema, routing_url, is_fed_two, schema_source }
    }

    /// The subgraph's name.
    pub fn name(&self) -> (r: &String)
        ensures
            r@ == self@.name,
    {
        &self.name
    }

    /// The subgraph's routing URL, if the configuration declared one.
    pub fn routing_url(&self) -> (r: &Option<String>)
        ensures
            r.deep_view() == self@.routing_url,
    {
        &self.routing_url
    }

    /// The resolved SDL text.
    pub fn schema(&self) -> (r: &String)
        ensures
            r@ == self@.schema,
    {
        &self.schema
    }

    /// The source the schema was resolved from.
    pub fn schema_source(&self) -> (r: &SchemaSource)
        ensures
            r@ == self@.schema_source,
    {
        &self.schema_source
    }

    /// Whether the schema declared a federation-two `@link` directive at
    /// construction time.
    pub fn is_fed_two(&self) -> (r: bool)
        ensures
            r == self@.is_fed_two,
    {
        self.is_fed_two
    }

    /// Replaces this subgraph's schema text. The federation version flag is
    /// the decision made at construction time and is deliberately not
    /// recomputed here: a caller that mutates the text must treat the flag
    /// as made once, not as continuously consistent with the latest text.
    pub fn update_schema(&mut self, schema: String)
        ensures
            final(self)@ == (FullyResolvedSubgraphView { schema: schema@, ..old(self)@ }),
    {
        self.schema = schema;
    }
}

impl Clone for FullyResolvedSubgraph {
    /// Cloning keeps the subgraph's model.
    fn clone(&self) -> (r: Self)
        ensures
            r@ == self@,
    {
        FullyResolvedSubgraph {
            name: self.name.clone(),
            routing_url: clone_opt_string(&self.routing_url),
            schema: self.schema.clone(),
            schema_source: self.schema_source.clone(),
            is_fed_two: self.is_fed_two,
        }
    }
}

/// What collapsing a resolved subgraph to its persistable record yields: the
/// routing URL kept, the schema text carried as an inline SDL source, the
/// name and the version flag dropped.
pub open spec fn subgraph_config_of(v: FullyResolvedSubgraphView) -> SubgraphConfigView {
    SubgraphConfigView {
        routing_url: v.routing_url,
        schema: SchemaSourceView::Sdl { sdl: v.schema },
    }
}

impl From<FullyResolvedSubgraph> for SubgraphConfig {
    /// Collapses the resolved subgraph into the persistable subgraph-config
    /// record.
    fn from(value: FullyResolvedSubgraph) -> (r: SubgraphConfig) {
        SubgraphConfig {
            routing_url: value.routing_url,
            schema: SchemaSource::Sdl { sdl: value.schema },
        }
    }
}

impl vstd::std_specs::convert::FromSpecImpl<FullyResolvedSubgraph> for SubgraphConfig {
    open spec fn obeys_from_spec() -> bool {
        true
    }

    closed spec fn from_spec(t: FullyResolvedSubgraph) -> SubgraphConfig {
        SubgraphConfig {
            routing_url: t.routing_url,
            schema: SchemaSource::Sdl { sdl: t.schema },
        }
    }
}

/// Law: converting a resolved subgraph into the persistable record keeps the
/// routing URL and carries the exact schema text as an inline SDL source.
pub proof fn lemma_subgraph_config_from(value: FullyResolvedSubgraph)
    ensures
        <SubgraphConfig as vstd::std_specs::convert::FromSpec<
            FullyResolvedSubgraph,
        >>::obeys_from_spec(),
        <SubgraphConfig as vstd::std_specs::convert::FromSpec<FullyResolvedSubgraph>>::from_spec(
            value,
        )@ == subgraph_config_of(value@),
{
}

/// The typed request the dispatcher hands to the introspection resolver
/// factory: endpoint, headers (empty when the configuration declared none),
/// the declared routing URL, and the subgraph's name.
#[derive(Debug, PartialEq, Eq)]
pub struct MakeResolveIntrospectSubgraphRequest {
    pub endpoint: String,
    pub headers: Vec<(String, String)>,
    pub routing_url: Option<String>,
    pub subgraph_name: String,
}

/// The mathematical model of a [`MakeResolveIntrospectSubgraphRequest`].
pub struct MakeResolveIntrospectSubgraphRequestView {
    pub endpoint: Seq<char>,
    pub headers: Seq<(Seq<char>, Seq<char>)>,
    pub routing_url: Option<Seq<char>>,
    pub subgraph_name: Seq<char>,
}

impl View for MakeResolveIntrospectSubgraphRequest {
    type V = MakeResolveIntrospectSubgraphRequestView;

    open spec fn view(&self) -> MakeResolveIntrospectSubgraphRequestView {
        MakeResolveIntrospectSubgraphRequestView {
            endpoint: self.endpoint@,
            headers: self.headers.deep_view(),
            routing_url: self.routing_url.deep_view(),
            subgraph_name: self.subgraph_name@,
        }
    }
}

impl MakeResolveIntrospectSubgraphRequest {
    /// Builds the introspection request; absent headers default to the
    /// empty list.
    pub fn new(
        endpoint: String,
        headers: Option<Vec<(String, String)>>,
        routing_url: Option<String>,
        subgraph_name: String,
    ) -> (r: Self)
        ensures
            r@.endpoint == endpoint@,
            r@.headers == (match headers.deep_view() {
                Option::<Seq<(Seq<char>, Seq<char>)>>::None => Seq::<(Seq<char>, Seq<char>)>::empty(),
                Option::<Seq<(Seq<char>, Seq<char>)>>::Some(h) => h,
            }),
            r@.routing_url == routing_url.deep_view(),
            r@.subgraph_name == subgraph_name@,
    {
        let headers = match headers {
            None => Vec::new(),
            Some(h) => h,
        };
        MakeResolveIntrospectSubgraphRequest { endpoint, headers, routing_url, subgraph_name }
    }
}

impl Clone for MakeResolveIntrospectSubgraphRequest {
    /// Cloning keeps the request's model.
    fn clone(&self) -> (r: Self)
        ensures
            r@ == self@,
    {
        MakeResolveIntrospectSubgraphRequest {
            endpoint: self.endpoint.clone(),
            headers: crate::config::clone_headers(&self.headers),
            routing_url: clone_opt_string(&self.routing_url),
            subgraph_name: self.subgraph_name.clone(),
        }
    }
}

/// The registry resolver the dispatcher prepares for a subgraph declared by
/// graph reference: the parsed reference, the subgraph's name, and the
/// declared routing URL. The driving layer pairs it with the fetch service
/// the remote-fetch factory produced.
#[derive(Debug, PartialEq, Eq)]
pub struct ResolveRemoteSubgraph {
    pub graph_ref: GraphRef,
    pub subgraph_name: String,
    pub routing_url: Option<String>,
}

/// The mathematical model of a [`ResolveRemoteSubgraph`].
pub struct ResolveRemoteSubgraphView {
    pub graph_ref: GraphRefView,
    pub subgraph_name: Seq<char>,
    pub routing_url: Option<Seq<char>>,
}

impl View for ResolveRemoteSubgraph {
    type V = ResolveRemoteSubgraphView;

    open spec fn view(&self) -> ResolveRemoteSubgraphView {
        ResolveRemoteSubgraphView {
            graph_ref: self.graph_ref@,
            subgraph_name: self.subgraph_name@,
            routing_url: self.routing_url.deep_view(),
        }
    }
}

impl Clone for ResolveRemoteSubgraph {
    /// Cloning keeps the resolver's model.
    fn clone(&self) -> (r: Self)
        ensures
            r@ == self@,
    {
        ResolveRemoteSubgraph {
            graph_ref: self.graph_ref.clone(),
            subgraph_name: self.subgraph_name.clone(),
            routing_url: clone_opt_string(&self.routing_url),
        }
    }
}

/// The trivial resolver for a subgraph whose configuration carries its SDL
/// inline.
#[derive(Debug, PartialEq, Eq)]
pub struct ResolveSdlSubgraph {
    pub name: String,
    pub routing_url: Option<String>,
    pub sdl: String,
}

/// The mathematical model of a [`ResolveSdlSubgraph`].
pub struct ResolveSdlSubgraphView {
    pub name: Seq<char>,
    pub routing_url: Option<Seq<char>>,
    pub sdl: Seq<char>,
}

impl View for ResolveSdlSubgraph {
    type V = ResolveSdlSubgraphView;

    open spec fn view(&self) -> ResolveSdlSubgraphView {
        ResolveSdlSubgraphView {
            name: self.name@,
            routing_url: self.routing_url.deep_view(),
            sdl: self.sdl@,
        }
    }
}

/// What resolving an inline-SDL subgraph yields: the literal text as the
/// schema, echoed as the source, with the detector's verdict on it.
pub open spec fn sdl_resolution(s: ResolveSdlSubgraphView) -> FullyResolvedSubgraphView {
    FullyResolvedSubgraphView {
        name: s.name,
        routing_url: s.routing_url,
        schema: s.sdl,
        schema_source: SchemaSourceView::Sdl { sdl: s.sdl },
        is_fed_two: contains_link(schema_level_directive_names(s.sdl)),
    }
}

impl ResolveSdlSubgraph {
    /// The inline resolver waits on no external resource: it is always
    /// immediately ready.
    pub fn poll_ready(&self) -> (r: bool)
        ensures
            r,
    {
        true
    }

    /// Resolves the literal SDL. No input, no I/O, no failure: the result is
    /// a function of the resolver's bindings alone, so any number of calls
    /// yield model-identical results.
    pub fn call(&self) -> (r: FullyResolvedSubgraph)
        ensures
            r@ == sdl_resolution(self@),
    {
        FullyResolvedSubgraph::new(
            self.name.clone(),
            self.sdl.clone(),
            clone_opt_string(&self.routing_url),
            SchemaSource::Sdl { sdl: self.sdl.clone() },
        )
    }
}

impl Clone for ResolveSdlSubgraph {
    /// Cloning keeps the resolver's bindings: clones share no state.
    fn clone(&self) -> (r: Self)
        ensures
            r@ == self@,
    {
        ResolveSdlSubgraph {
            name: self.name.clone(),
            routing_url: clone_opt_string(&self.routing_url),
            sdl: self.sdl.clone(),
        }
    }
}

/// Law: resolving an inline-SDL subgraph is deterministic — any two results
/// of calling the same resolver are model-identical.
pub proof fn lemma_sdl_resolution_deterministic(
    s: ResolveSdlSubgraph,
    r1: FullyResolvedSubgraph,
    r2: FullyResolvedSubgraph,
)
    requires
        call_ensures(ResolveSdlSubgraph::call, (&s,), r1),
        call_ensures(ResolveSdlSubgraph::call, (&s,), r2),
    ensures
        r1@ == r2@,
{
}

/// The closed union of resolvers the dispatcher can select: one variant per
/// schema-source kind. The file and inline resolvers are complete here; the
/// introspection and registry variants carry what the driving layer hands to
/// the corresponding external factory.
#[derive(Debug, PartialEq, Eq)]
pub enum FullyResolveSubgraphService {
    File(ResolveFileSubgraph),
    Introspect(MakeResolveIntrospectSubgraphRequest),
    Remote(ResolveRemoteSubgraph),
    Sdl(ResolveSdlSubgraph),
}

/// The mathematical model of a [`FullyResolveSubgraphService`].
pub enum FullyResolveSubgraphServiceView {
    File(ResolveFileSubgraphView),
    Introspect(MakeResolveIntrospectSubgraphRequestView),
    Remote(ResolveRemoteSubgraphView),
    Sdl(ResolveSdlSubgraphView),
}

impl View for FullyResolveSubgraphService {
    type V = FullyResolveSubgraphServiceView;

    open spec fn view(&self) -> FullyResolveSubgraphServiceView {
        match self {
            FullyResolveSubgraphService::File(s) => FullyResolveSubgraphServiceView::File(s@),
            FullyResolveSubgraphService::Introspect(s) => (
                FullyResolveSubgraphServiceView::Introspect(s@)
            ),
            FullyResolveSubgraphService::Remote(s) => FullyResolveSubgraphServiceView::Remote(s@),
            FullyResolveSubgraphService::Sdl(s) => FullyResolveSubgraphServiceView::Sdl(s@),
        }
    }
}

/// What the dispatcher decides for one subgraph: which resolver serves its
/// declared schema source, or which error rejects it.
///
/// A file source with a path that does not convert to a well-formed relative
/// path is rejected as a malformed path, before any file I/O could happen; a
/// registry source with an unparseable graph reference is rejected as an
/// invalid graph reference. Introspection and inline sources always
/// dispatch.
pub open spec fn dispatch_spec(root: Seq<char>, u: UnresolvedSubgraphView) -> Result<
    FullyResolveSubgraphServiceView,
    ResolveSubgraphErrorView,
> {
    match u.schema {
        SchemaSourceView::File { file } => if well_formed_path(file) {
            Ok(
                FullyResolveSubgraphServiceView::File(
                    ResolveFileSubgraphView {
                        supergraph_config_root: root,
                        path: file,
                        unresolved_subgraph: u,
                    },
                ),
            )
        } else {
            Err(ResolveSubgraphErrorView::MalformedPath { path: file })
        },
        SchemaSourceView::SubgraphIntrospection { subgraph_url, introspection_headers } => Ok(
            FullyResolveSubgraphServiceView::Introspect(
                MakeResolveIntrospectSubgraphRequestView {
                    endpoint: subgraph_url,
                    headers: match introspection_headers {
                        Option::None => Seq::empty(),
                        Option::Some(h) => h,
                    },
                    routing_url: u.routing_url,
                    subgraph_name: u.name,
                },
            ),
        ),
        SchemaSourceView::Subgraph { graphref, subgraph } => if valid_graph_ref(graphref) {
            Ok(
                FullyResolveSubgraphServiceView::Remote(
                    ResolveRemoteSubgraphView {
                        graph_ref: GraphRefView {
                            name: graph_ref_name_part(graphref),
                            variant: graph_ref_variant_part(graphref),
                        },
                        subgraph_name: subgraph,
                        routing_url: u.routing_url,
                    },
                ),
            )
        } else {
            Err(
                ResolveSubgraphErrorView::InvalidGraphRef {
                    graph_ref: graphref,
                    source: graph_ref_parse_error_text(),
                },
            )
        },
        SchemaSourceView::Sdl { sdl } => Ok(
            FullyResolveSubgraphServiceView::Sdl(
                ResolveSdlSubgraphView { name: u.name, routing_url: u.routing_url, sdl },
            ),
        ),
    }
}

impl FullyResolvedSubgraph {
    /// The resolution dispatcher: an exhaustive match over the subgraph's
    /// declared schema source that selects and constructs the resolver for
    /// it. Performs no I/O itself and follows [`dispatch_spec`] exactly.
    pub fn resolver(
        supergraph_config_root: &String,
        unresolved_subgraph: UnresolvedSubgraph,
    ) -> (r: Result<FullyResolveSubgraphService, ResolveSubgraphError>)
        ensures
            (match r {
                Ok(s) => Ok::<FullyResolveSubgraphServiceView, ResolveSubgraphErrorView>(s@),
                Err(e) => Err(e@),
            }) == dispatch_spec(supergraph_config_root@, unresolved_subgraph@),
    {
        let UnresolvedSubgraph { name, schema, routing_url } = unresolved_subgraph;
        match schema {
            SchemaSource::File { file } => {
                if check_path(file.as_str()) {
                    let path = file.clone();
                    let unresolved = UnresolvedSubgraph {
                        name,
                        schema: SchemaSource::File { file },
                        routing_url,
                    };
                    let service = ResolveFileSubgraph::new(
                        supergraph_config_root.clone(),
                        path,
                        unresolved,
                    );
                    Ok(FullyResolveSubgraphService::File(service))
                } else {
                    Err(ResolveSubgraphError::MalformedPath { path: file })
                }
            },
            SchemaSource::SubgraphIntrospection { subgraph_url, introspection_headers } => {
                let request = MakeResolveIntrospectSubgraphRequest::new(
                    subgraph_url,
                    introspection_headers,
                    routing_url,
                    name,
                );
                Ok(FullyResolveSubgraphService::Introspect(request))
            },
            SchemaSource::Subgraph { graphref, subgraph } => {
                match GraphRef::from_str(graphref.as_str()) {
                    Ok(graph_ref) => Ok(
                        FullyResolveSubgraphService::Remote(
                            ResolveRemoteSubgraph { graph_ref, subgraph_name: subgraph, routing_url },
                        ),
                    ),
                    Err(err) => {
                        let source = err.message();
                        Err(ResolveSubgraphError::InvalidGraphRef { graph_ref: graphref, source })
                    },
                }
            },
            SchemaSource::Sdl { sdl } => Ok(
                FullyResolveSubgraphService::Sdl(ResolveSdlSubgraph { name, routing_url, sdl }),
            ),
        }
    }
}

impl Clone for FullyResolveSubgraphService {
    /// Cloning keeps the selected resolver's model: clones never share
    /// in-flight call state.
    fn clone(&self) -> (r: Self)
        ensures
            r@ == self@,
    {
        match self {
            FullyResolveSubgraphService::File(s) => FullyResolveSubgraphService::File(s.clone()),
            FullyResolveSubgraphService::Introspect(s) => (
                FullyResolveSubgraphService::Introspect(s.clone())
            ),
            FullyResolveSubgraphService::Remote(s) => (
                FullyResolveSubgraphService::Remote(s.clone())
            ),
            FullyResolveSubgraphService::Sdl(s) => FullyResolveSubgraphService::Sdl(s.clone()),
        }
    }
}

/// Law: round trip. Converting a resolved subgraph to its persistable
/// record, declaring a subgraph from that record, and dispatching it yields
/// the inline resolver, and resolving there yields the same schema text,
/// bit-identical; the routing URL is also kept, while the name and the
/// version metadata were dropped by the record.
pub proof fn lemma_config_round_trip(
    value: FullyResolvedSubgraph,
    name: Seq<char>,
    root: Seq<char>,
)
    ensures
        ({
            let record = subgraph_config_of(value@);
            let declared = UnresolvedSubgraphView {
                name: name,
                schema: record.schema,
                routing_url: record.routing_url,
            };
            let dispatched = dispatch_spec(root, declared);
            &&& dispatched is Ok
            &&& dispatched->Ok_0 matches FullyResolveSubgraphServiceView::Sdl(s)
                && sdl_resolution(s).schema == value@.schema
                && sdl_resolution(s).routing_url == value@.routing_url
        }),
{
}

/// Law: dispatching a file source whose path does not convert to a
/// well-formed relative path fails with the malformed-path error. No
/// resolver is constructed, so no file I/O can follow.
pub proof fn lemma_malformed_path_rejected(
    root: Seq<char>,
    u: UnresolvedSubgraphView,
    file: Seq<char>,
)
    requires
        u.schema == (SchemaSourceView::File { file }),
        !well_formed_path(file),
    ensures
        dispatch_spec(root, u) == Err::<FullyResolveSubgraphServiceView, _>(
            ResolveSubgraphErrorView::MalformedPath { path: file },
        ),
{
}

} // verus!
