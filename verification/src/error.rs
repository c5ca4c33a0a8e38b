//! The error currency of the resolution pipeline, and the client-side error
//! taxonomy that downstream registry and introspection services surface.
//!
//! Underlying causes are flattened to owned message strings at the boundary,
//! so every variant stays a plain value.

use vstd::prelude::*;
use vstd::string::StringExecFns;

verus! {

/// Every failure a subgraph resolver can surface: a schema path that does
/// not convert to a well-formed relative path, a filesystem failure, an
/// unparseable graph reference, a downstream service that never became
/// ready, and a failed registry fetch. Each variant that wraps an external
/// failure keeps the cause, and enough identity (subgraph name or graph
/// reference) to say which subgraph failed.
#[derive(Debug, PartialEq, Eq)]
pub enum ResolveSubgraphError {
    MalformedPath { path: String },
    Fs { source: String },
    InvalidGraphRef { graph_ref: String, source: String },
    ServiceReady { source: String },
    FetchRemoteSdlError { subgraph_name: String, source: String },
}

/// The mathematical model of a [`ResolveSubgraphError`].
pub enum ResolveSubgraphErrorView {
    MalformedPath { path: Seq<char> },
    Fs { source: Seq<char> },
    InvalidGraphRef { graph_ref: Seq<char>, source: Seq<char> },
    ServiceReady { source: Seq<char> },
    FetchRemoteSdlError { subgraph_name: Seq<char>, source: Seq<char> },
}

impl View for ResolveSubgraphError {
    type V = ResolveSubgraphErrorView;

    open spec fn view(&self) -> ResolveSubgraphErrorView {
        match self {
            ResolveSubgraphError::MalformedPath { path } => (
                ResolveSubgraphErrorView::MalformedPath { path: path@ }
            ),
            ResolveSubgraphError::Fs { source } => (
                ResolveSubgraphErrorView::Fs { source: source@ }
            ),
            ResolveSubgraphError::InvalidGraphRef { graph_ref, source } => (
                ResolveSubgraphErrorView::InvalidGraphRef {
                    graph_ref: graph_ref@,
                    source: source@,
                }
            ),
            ResolveSubgraphError::ServiceReady { source } => (
                ResolveSubgraphErrorView::ServiceReady { source: source@ }
            ),
            ResolveSubgraphError::FetchRemoteSdlError { subgraph_name, source } => (
                ResolveSubgraphErrorView::FetchRemoteSdlError {
                    subgraph_name: subgraph_name@,
                    source: source@,
                }
            ),
        }
    }
}

/// The diagnostic line of a [`ResolveSubgraphError`].
pub open spec fn resolve_error_message(e: ResolveSubgraphErrorView) -> Seq<char> {
    match e {
        ResolveSubgraphErrorView::MalformedPath { path } => (
            "subgraph schema path is not a well-formed relative path: "@ + path
        ),
        ResolveSubgraphErrorView::Fs { source } => (
            "failed to read subgraph schema file: "@ + source
        ),
        ResolveSubgraphErrorView::InvalidGraphRef { graph_ref, source } => (
            "invalid graph reference "@ + graph_ref + ": "@ + source
        ),
        ResolveSubgraphErrorView::ServiceReady { source } => (
            "subgraph resolver service failed to become ready: "@ + source
        ),
        ResolveSubgraphErrorView::FetchRemoteSdlError { subgraph_name, source } => (
            "failed to fetch the remote SDL for subgraph "@ + subgraph_name + ": "@ + source
        ),
    }
}

impl ResolveSubgraphError {
    /// Renders the error as a diagnostic line that names the failing
    /// subgraph or graph reference beside the wrapped cause.
    pub fn message(&self) -> (r: String)
        ensures
            r@ == resolve_error_message(self@),
    {
        match self {
            ResolveSubgraphError::MalformedPath { path } => {
                let mut s = String::from_str(
                    "subgraph schema path is not a well-formed relative path: ",
                );
                s.append(path.as_str());
                s
            },
            ResolveSubgraphError::Fs { source } => {
                let mut s = String::from_str("failed to read subgraph schema file: ");
                s.append(source.as_str());
                s
            },
            ResolveSubgraphError::InvalidGraphRef { graph_ref, source } => {
                let mut s = String::from_str("invalid graph reference ");
                s.append(graph_ref.as_str());
                s.append(": ");
                s.append(source.as_str());
                s
            },
            ResolveSubgraphError::ServiceReady { source } => {
                let mut s = String::from_str(
                    "subgraph resolver service failed to become ready: ",
                );
                s.append(source.as_str());
                s
            },
            ResolveSubgraphError::FetchRemoteSdlError { subgraph_name, source } => {
                let mut s = String::from_str("failed to fetch the remote SDL for subgraph ");
                s.append(subgraph_name.as_str());
                s.append(": ");
                s.append(source.as_str());
                s
            },
        }
    }
}

/// Every failure that can occur during a client request against the
/// registry or an introspection endpoint. Wrapped causes are carried as
/// owned message strings.
#[derive(Debug, PartialEq, Eq)]
pub enum RoverClientError {
    /// The registry responded with a GraphQL error.
    GraphQL { msg: String },
    /// A header map was built with an invalid header name.
    InvalidHeaderName { source: String },
    /// A header map was built with an invalid header value.
    InvalidHeaderValue { source: String },
    /// Handling the received response failed.
    HandleResponse { msg: String },
    /// Sending the request failed.
    SendRequest { source: String },
    /// The response carried neither errors nor data.
    NoData,
}

/// The mathematical model of a [`RoverClientError`].
pub enum RoverClientErrorView {
    GraphQL { msg: Seq<char> },
    InvalidHeaderName { source: Seq<char> },
    InvalidHeaderValue { source: Seq<char> },
    HandleResponse { msg: Seq<char> },
    SendRequest { source: Seq<char> },
    NoData,
}

impl View for RoverClientError {
    type V = RoverClientErrorView;

    open spec fn view(&self) -> RoverClientErrorView {
        match self {
            RoverClientError::GraphQL { msg } => RoverClientErrorView::GraphQL { msg: msg@ },
            RoverClientError::InvalidHeaderName { source } => (
                RoverClientErrorView::InvalidHeaderName { source: source@ }
            ),
            RoverClientError::InvalidHeaderValue { source } => (
                RoverClientErrorView::InvalidHeaderValue { source: source@ }
            ),
            RoverClientError::HandleResponse { msg } => (
                RoverClientErrorView::HandleResponse { msg: msg@ }
            ),
            RoverClientError::SendRequest { source } => (
                RoverClientErrorView::SendRequest { source: source@ }
            ),
            RoverClientError::NoData => RoverClientErrorView::NoData,
        }
    }
}

/// The diagnostic line of a [`RoverClientError`].
pub open spec fn client_error_message(e: RoverClientErrorView) -> Seq<char> {
    match e {
        RoverClientErrorView::GraphQL { msg } => (
            "encountered a GraphQL error, registry responded with: "@ + msg
        ),
        RoverClientErrorView::InvalidHeaderName { source: _ } => "invalid header name"@,
        RoverClientErrorView::InvalidHeaderValue { source: _ } => "invalid header value"@,
        RoverClientErrorView::HandleResponse { msg } => (
            "encountered an error handling the response: "@ + msg
        ),
        RoverClientErrorView::SendRequest { source: _ } => (
            "encountered an error while sending a request"@
        ),
        RoverClientErrorView::NoData => (
            "the response from the server was malformed: no data was found in the response body"@
        ),
    }
}

impl RoverClientError {
    /// Renders the error as a diagnostic line.
    pub fn message(&self) -> (r: String)
        ensures
            r@ == client_error_message(self@),
    {
        match self {
            RoverClientError::GraphQL { msg } => {
                let mut s = String::from_str(
                    "encountered a GraphQL error, registry responded with: ",
                );
                s.append(msg.as_str());
                s
            },
            RoverClientError::InvalidHeaderName { source: _ } => (
                String::from_str("invalid header name")
            ),
            RoverClientError::InvalidHeaderValue { source: _ } => (
                String::from_str("invalid header value")
            ),
            RoverClientError::HandleResponse { msg } => {
                let mut s = String::from_str("encountered an error handling the response: ");
                s.append(msg.as_str());
                s
            },
            RoverClientError::SendRequest { source: _ } => (
                String::from_str("encountered an error while sending a request")
            ),
            RoverClientError::NoData => String::from_str(
                "the response from the server was malformed: no data was found in the response body",
            ),
        }
    }
}

} // verus!
