//! The configuration-side data model: where a subgraph's schema comes from,
//! the subgraph as the configuration declares it, and the persistable
//! subgraph-config record that a resolved subgraph can be written back into.

use vstd::prelude::*;
use vstd::string::StringExecFns;

verus! {

/// Where a subgraph's schema comes from: a local file, a live introspection
/// endpoint, a published registry subgraph, or an inline SDL string.
///
/// Paths and URLs are carried as plain UTF-8 strings; introspection headers
/// are an ordered list of name/value pairs.
#[derive(Debug, PartialEq, Eq)]
pub enum SchemaSource {
    File { file: String },
    SubgraphIntrospection {
        subgraph_url: String,
        introspection_headers: Option<Vec<(String, String)>>,
    },
    Subgraph { graphref: String, subgraph: String },
    Sdl { sdl: String },
}

/// The mathematical model of a [`SchemaSource`].
pub enum SchemaSourceView {
    File { file: Seq<char> },
    SubgraphIntrospection {
        subgraph_url: Seq<char>,
        introspection_headers: Option<Seq<(Seq<char>, Seq<char>)>>,
    },
    Subgraph { graphref: Seq<char>, subgraph: Seq<char> },
    Sdl { sdl: Seq<char> },
}

impl View for SchemaSource {
    type V = SchemaSourceView;

    open spec fn view(&self) -> SchemaSourceView {
        match self {
            SchemaSource::File { file } => SchemaSourceView::File { file: file@ },
            SchemaSource::SubgraphIntrospection { subgraph_url, introspection_headers } => (
                SchemaSourceView::SubgraphIntrospection {
                    subgraph_url: subgraph_url@,
                    introspection_headers: introspection_headers.deep_view(),
                }
            ),
            SchemaSource::Subgraph { graphref, subgraph } => (
                SchemaSourceView::Subgraph { graphref: graphref@, subgraph: subgraph@ }
            ),
            SchemaSource::Sdl { sdl } => SchemaSourceView::Sdl { sdl: sdl@ },
        }
    }
}

/// Clones an optional string, keeping the value.
pub fn clone_opt_string(o: &Option<String>) -> (r: Option<String>)
    ensures
        r == *o,
{
    match o {
        None => None,
        Some(s) => Some(s.clone()),
    }
}

/// Clones a header list, keeping the pairs.
pub fn clone_headers(h: &Vec<(String, String)>) -> (r: Vec<(String, String)>)
    ensures
        r.deep_view() == h.deep_view(),
{
    let mut out: Vec<(String, String)> = Vec::new();
    let mut i: usize = 0;
    while i < h.len()
        invariant
            i <= h.len(),
            out.len() == i,
            forall|j: int| 0 <= j < i ==> out.deep_view()[j] == h.deep_view()[j],
        decreases h.len() - i,
    {
        let pair = (h[i].0.clone(), h[i].1.clone());
        out.push(pair);
        i = i + 1;
    }
    assert(out.deep_view() =~= h.deep_view());
    out
}

impl Clone for SchemaSource {
    /// Cloning keeps the source's model.
    fn clone(&self) -> (r: Self)
        ensures
            r@ == self@,
    {
        match self {
            SchemaSource::File { file } => SchemaSource::File { file: file.clone() },
            SchemaSource::SubgraphIntrospection { subgraph_url, introspection_headers } => {
                let headers = match introspection_headers {
                    None => None,
                    Some(h) => Some(clone_headers(h)),
                };
                SchemaSource::SubgraphIntrospection {
                    subgraph_url: subgraph_url.clone(),
                    introspection_headers: headers,
                }
            },
            SchemaSource::Subgraph { graphref, subgraph } => SchemaSource::Subgraph {
                graphref: graphref.clone(),
                subgraph: subgraph.clone(),
            },
            SchemaSource::Sdl { sdl } => SchemaSource::Sdl { sdl: sdl.clone() },
        }
    }
}

/// A subgraph as the supergraph configuration declares it: a name, a schema
/// source, and an optional routing URL. Immutable input to the resolution
/// pipeline, owned by the configuration layer.
#[derive(Debug, PartialEq, Eq)]
pub struct UnresolvedSubgraph {
    pub name: String,
    pub schema: SchemaSource,
    pub routing_url: Option<String>,
}

/// The mathematical model of an [`UnresolvedSubgraph`].
pub struct UnresolvedSubgraphView {
    pub name: Seq<char>,
    pub schema: SchemaSourceView,
    pub routing_url: Option<Seq<char>>,
}

impl View for UnresolvedSubgraph {
    type V = UnresolvedSubgraphView;

    open spec fn view(&self) -> UnresolvedSubgraphView {
        UnresolvedSubgraphView {
            name: self.name@,
            schema: self.schema@,
            routing_url: self.routing_url.deep_view(),
        }
    }
}

/// A relative path joined onto the supergraph configuration root.
pub open spec fn joined_path(root: Seq<char>, path: Seq<char>) -> Seq<char> {
    root + "/"@ + path
}

impl UnresolvedSubgraph {
    /// Builds a configured subgraph record.
    pub fn new(name: String, schema: SchemaSource, routing_url: Option<String>) -> (r: Self)
        ensures
            r@.name == name@,
            r@.schema == schema@,
            r@.routing_url == routing_url.deep_view(),
    {
        UnresolvedSubgraph { name, schema, routing_url }
    }

    /// The subgraph's configured name.
    pub fn name(&self) -> (r: &String)
        ensures
            r@ == self@.name,
    {
        &self.name
    }

    /// The subgraph's declared schema source.
    pub fn schema(&self) -> (r: &SchemaSource)
        ensures
            r@ == self@.schema,
    {
        &self.schema
    }

    /// The subgraph's declared routing URL, if any.
    pub fn routing_url(&self) -> (r: &Option<String>)
        ensures
            r.deep_view() == self@.routing_url,
    {
        &self.routing_url
    }

    /// Resolves a schema path declared relative to the supergraph
    /// configuration root into the path the file is read from.
    pub fn resolve_file_path(&self, root: &String, path: &String) -> (r: String)
        ensures
            r@ == joined_path(root@, path@),
    {
        let mut out = String::from_str(root.as_str());
        out.append("/");
        out.append(path.as_str());
        out
    }
}

impl Clone for UnresolvedSubgraph {
    /// Cloning keeps the subgraph's model.
    fn clone(&self) -> (r: Self)
        ensures
            r@ == self@,
    {
        UnresolvedSubgraph {
            name: self.name.clone(),
            schema: self.schema.clone(),
            routing_url: clone_opt_string(&self.routing_url),
        }
    }
}

/// The persistable subgraph-config record a resolved subgraph is written
/// back into: the routing URL and the schema source, with the source
/// collapsed to inline SDL.
#[derive(Debug, PartialEq, Eq)]
pub struct SubgraphConfig {
    pub routing_url: Option<String>,
    pub schema: SchemaSource,
}

/// The mathematical model of a [`SubgraphConfig`].
pub struct SubgraphConfigView {
    pub routing_url: Option<Seq<char>>,
    pub schema: SchemaSourceView,
}

impl View for SubgraphConfig {
    type V = SubgraphConfigView;

    open spec fn view(&self) -> SubgraphConfigView {
        SubgraphConfigView {
            routing_url: self.routing_url.deep_view(),
            schema: self.schema@,
        }
    }
}

} // verus!
