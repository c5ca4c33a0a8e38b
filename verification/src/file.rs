//! The file resolver: the service that resolves a file-based subgraph from a
//! schema path declared relative to the supergraph configuration root.
//!
//! The resolver itself never touches the filesystem: it computes the path to
//! read and completes a call from the text that was read, so the read sits
//! at the driving layer's edge and everything around it is checked.

use vstd::prelude::*;
use vstd::string::StrSliceExecFns;

use crate::config::{clone_opt_string, joined_path, UnresolvedSubgraph, UnresolvedSubgraphView};
use crate::detect::{contains_link, schema_level_directive_names};
use crate::subgraph::FullyResolvedSubgraph;

verus! {

/// A path text that converts to a well-formed relative path: nonempty and
/// free of NUL characters, which no file path can carry.
pub open spec fn well_formed_path(p: Seq<char>) -> bool {
    p.len() > 0 && forall|i: int| 0 <= i < p.len() ==> p[i] != '\0'
}

/// Checks that a declared schema path converts to a well-formed relative
/// path.
pub fn check_path(p: &str) -> (r: bool)
    ensures
        r == well_formed_path(p@),
{
    let len = p.unicode_len();
    if len == 0 {
        return false;
    }
    let mut i: usize = 0;
    while i < len
        invariant
            i <= len,
            len == p@.len(),
            len > 0,
            forall|j: int| 0 <= j < i ==> p@[j] != '\0',
        decreases len - i,
    {
        if p.get_char(i) == '\0' {
            return false;
        }
        i = i + 1;
    }
    true
}

/// Service that resolves a file-based subgraph: bound to the supergraph
/// configuration root, the declared schema path, and the subgraph it
/// resolves.
#[derive(Debug, PartialEq, Eq)]
pub struct ResolveFileSubgraph {
    supergraph_config_root: String,
    path: String,
    unresolved_subgraph: UnresolvedSubgraph,
}

/// The mathematical model of a [`ResolveFileSubgraph`].
pub struct ResolveFileSubgraphView {
    pub supergraph_config_root: Seq<char>,
    pub path: Seq<char>,
    pub unresolved_subgraph: UnresolvedSubgraphView,
}

impl View for ResolveFileSubgraph {
    type V = ResolveFileSubgraphView;

    closed spec fn view(&self) -> ResolveFileSubgraphView {
        ResolveFileSubgraphView {
            supergraph_config_root: self.supergraph_config_root@,
            path: self.path@,
            unresolved_subgraph: self.unresolved_subgraph@,
        }
    }
}

impl ResolveFileSubgraph {
    /// Builds a file resolver from its three bindings.
    pub fn new(
        supergraph_config_root: String,
        path: String,
        unresolved_subgraph: UnresolvedSubgraph,
    ) -> (r: Self)
        ensures
            r@ == (ResolveFileSubgraphView {
                supergraph_config_root: supergraph_config_root@,
                path: path@,
                unresolved_subgraph: unresolved_subgraph@,
            }),
    {
        ResolveFileSubgraph { supergraph_config_root, path, unresolved_subgraph }
    }

    /// The file resolver waits on no external resource: it is always
    /// immediately ready.
    pub fn poll_ready(&self) -> (r: bool)
        ensures
            r,
    {
        true
    }

    /// The path each call reads: the declared schema path resolved against
    /// the supergraph configuration root. Every call re-reads it; nothing is
    /// cached between calls.
    pub fn file_path(&self) -> (r: String)
        ensures
            r@ == joined_path(self@.supergraph_config_root, self@.path),
    {
        self.unresolved_subgraph.resolve_file_path(&self.supergraph_config_root, &self.path)
    }

    /// Completes a call of the resolver from the text that was read: the
    /// resolved subgraph carries the configured name, the file's text
    /// exactly as read, the declared source echoed for round-tripping, a
    /// routing URL exactly when the configuration declared one, and the
    /// federation version computed from the text.
    pub fn complete(&self, schema: String) -> (r: FullyResolvedSubgraph)
        ensures
            r@.name == self@.unresolved_subgraph.name,
            r@.schema == schema@,
            r@.schema_source == self@.unresolved_subgraph.schema,
            r@.routing_url == self@.unresolved_subgraph.routing_url,
            r@.routing_url is Some <==> self@.unresolved_subgraph.routing_url is Some,
            r@.is_fed_two == contains_link(schema_level_directive_names(schema@)),
    {
        FullyResolvedSubgraph::new(
            self.unresolved_subgraph.name().clone(),
            schema,
            clone_opt_string(self.unresolved_subgraph.routing_url()),
            self.unresolved_subgraph.schema().clone(),
        )
    }
}

impl Clone for ResolveFileSubgraph {
    /// Cloning keeps the resolver's bindings: clones share no state.
    fn clone(&self) -> (r: Self)
        ensures
            r@ == self@,
    {
        ResolveFileSubgraph {
            supergraph_config_root: self.supergraph_config_root.clone(),
            path: self.path.clone(),
            unresolved_subgraph: self.unresolved_subgraph.clone(),
        }
    }
}

} // verus!
