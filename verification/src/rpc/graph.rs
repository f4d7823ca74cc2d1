//! The `telividb.graph.v1.Graph` service.
use crate::text::same_text;
use vstd::prelude::*;

verus! {

/// The service's fully qualified name.
pub const SERVICE_NAME: &'static str = "telividb.graph.v1.Graph";

/// A method of the `telividb.graph.v1.Graph` service.
#[derive(Debug, Clone, Copy, PartialEq, Eq, Structural)]
pub enum GraphMethod {
    /// Create an edge.
    CreateEdge,
    /// Retrieve a single edge.
    GetEdge,
    /// List edges.
    ListEdges,
    /// Create several edges in one request.
    BatchCreateEdges,
    /// Soft-delete an edge, returning the tombstoned edge.
    DeleteEdge,
    /// Traverse the graph outward from a set of seeds, best first and bounded.
    TraverseGraph,
    /// Create an edge type, declaring the default weight its edges take.
    CreateEdgeType,
    /// Retrieve a single edge type.
    GetEdgeType,
    /// List edge types.
    ListEdgeTypes,
    /// Soft-delete an edge type.
    DeleteEdgeType,
}

/// The request path a method is called at.
pub open spec fn graph_path(m: GraphMethod) -> Seq<char> {
    match m {
        GraphMethod::CreateEdge => "/telividb.graph.v1.Graph/CreateEdge"@,
        GraphMethod::GetEdge => "/telividb.graph.v1.Graph/GetEdge"@,
        GraphMethod::ListEdges => "/telividb.graph.v1.Graph/ListEdges"@,
        GraphMethod::BatchCreateEdges => "/telividb.graph.v1.Graph/BatchCreateEdges"@,
        GraphMethod::DeleteEdge => "/telividb.graph.v1.Graph/DeleteEdge"@,
        GraphMethod::TraverseGraph => "/telividb.graph.v1.Graph/TraverseGraph"@,
        GraphMethod::CreateEdgeType => "/telividb.graph.v1.Graph/CreateEdgeType"@,
        GraphMethod::GetEdgeType => "/telividb.graph.v1.Graph/GetEdgeType"@,
        GraphMethod::ListEdgeTypes => "/telividb.graph.v1.Graph/ListEdgeTypes"@,
        GraphMethod::DeleteEdgeType => "/telividb.graph.v1.Graph/DeleteEdgeType"@,
    }
}

/// The method a request path selects, if any.
pub open spec fn graph_route(path: Seq<char>) -> Option<GraphMethod> {
    if path == graph_path(GraphMethod::CreateEdge) {
        Some(GraphMethod::CreateEdge)
    } else if path == graph_path(GraphMethod::GetEdge) {
        Some(GraphMethod::GetEdge)
    } else if path == graph_path(GraphMethod::ListEdges) {
        Some(GraphMethod::ListEdges)
    } else if path == graph_path(GraphMethod::BatchCreateEdges) {
        Some(GraphMethod::BatchCreateEdges)
    } else if path == graph_path(GraphMethod::DeleteEdge) {
        Some(GraphMethod::DeleteEdge)
    } else if path == graph_path(GraphMethod::TraverseGraph) {
        Some(GraphMethod::TraverseGraph)
    } else if path == graph_path(GraphMethod::CreateEdgeType) {
        Some(GraphMethod::CreateEdgeType)
    } else if path == graph_path(GraphMethod::GetEdgeType) {
        Some(GraphMethod::GetEdgeType)
    } else if path == graph_path(GraphMethod::ListEdgeTypes) {
        Some(GraphMethod::ListEdgeTypes)
    } else if path == graph_path(GraphMethod::DeleteEdgeType) {
        Some(GraphMethod::DeleteEdgeType)
    } else {
        None
    }
}

impl GraphMethod {
    /// The request path this method is called at.
    pub fn path(self) -> (path: &'static str)
        ensures
            path@ == graph_path(self),
    {
        match self {
            GraphMethod::CreateEdge => "/telividb.graph.v1.Graph/CreateEdge",
            GraphMethod::GetEdge => "/telividb.graph.v1.Graph/GetEdge",
            GraphMethod::ListEdges => "/telividb.graph.v1.Graph/ListEdges",
            GraphMethod::BatchCreateEdges => "/telividb.graph.v1.Graph/BatchCreateEdges",
            GraphMethod::DeleteEdge => "/telividb.graph.v1.Graph/DeleteEdge",
            GraphMethod::TraverseGraph => "/telividb.graph.v1.Graph/TraverseGraph",
            GraphMethod::CreateEdgeType => "/telividb.graph.v1.Graph/CreateEdgeType",
            GraphMethod::GetEdgeType => "/telividb.graph.v1.Graph/GetEdgeType",
            GraphMethod::ListEdgeTypes => "/telividb.graph.v1.Graph/ListEdgeTypes",
            GraphMethod::DeleteEdgeType => "/telividb.graph.v1.Graph/DeleteEdgeType",
        }
    }

    /// The method a request path selects; `None` is answered `UNIMPLEMENTED`.
    pub fn route(path: &str) -> (method: Option<GraphMethod>)
        ensures
            method == graph_route(path@),
    {
        if same_text(path, GraphMethod::CreateEdge.path()) {
            Some(GraphMethod::CreateEdge)
        } else if same_text(path, GraphMethod::GetEdge.path()) {
            Some(GraphMethod::GetEdge)
        } else if same_text(path, GraphMethod::ListEdges.path()) {
            Some(GraphMethod::ListEdges)
        } else if same_text(path, GraphMethod::BatchCreateEdges.path()) {
            Some(GraphMethod::BatchCreateEdges)
        } else if same_text(path, GraphMethod::DeleteEdge.path()) {
            Some(GraphMethod::DeleteEdge)
        } else if same_text(path, GraphMethod::TraverseGraph.path()) {
            Some(GraphMethod::TraverseGraph)
        } else if same_text(path, GraphMethod::CreateEdgeType.path()) {
            Some(GraphMethod::CreateEdgeType)
        } else if same_text(path, GraphMethod::GetEdgeType.path()) {
            Some(GraphMethod::GetEdgeType)
        } else if same_text(path, GraphMethod::ListEdgeTypes.path()) {
            Some(GraphMethod::ListEdgeTypes)
        } else if same_text(path, GraphMethod::DeleteEdgeType.path()) {
            Some(GraphMethod::DeleteEdgeType)
        } else {
            None
        }
    }
}

/// A client and a server agree: the path a method is called at routes back
/// to that same method.
pub proof fn graph_paths_route_back(m: GraphMethod)
    ensures
        graph_route(graph_path(m)) == Some(m),
{
    reveal_strlit("/telividb.graph.v1.Graph/CreateEdge");
    reveal_strlit("/telividb.graph.v1.Graph/GetEdge");
    reveal_strlit("/telividb.graph.v1.Graph/ListEdges");
    reveal_strlit("/telividb.graph.v1.Graph/BatchCreateEdges");
    reveal_strlit("/telividb.graph.v1.Graph/DeleteEdge");
    reveal_strlit("/telividb.graph.v1.Graph/TraverseGraph");
    reveal_strlit("/telividb.graph.v1.Graph/CreateEdgeType");
    reveal_strlit("/telividb.graph.v1.Graph/GetEdgeType");
    reveal_strlit("/telividb.graph.v1.Graph/ListEdgeTypes");
    reveal_strlit("/telividb.graph.v1.Graph/DeleteEdgeType");
    assert(graph_path(GraphMethod::CreateEdge).len() == 35);
    assert(graph_path(GraphMethod::GetEdge).len() == 32);
    assert(graph_path(GraphMethod::ListEdges).len() == 34);
    assert(graph_path(GraphMethod::BatchCreateEdges).len() == 41);
    assert(graph_path(GraphMethod::DeleteEdge).len() == 35);
    assert(graph_path(GraphMethod::TraverseGraph).len() == 38);
    assert(graph_path(GraphMethod::CreateEdgeType).len() == 39);
    assert(graph_path(GraphMethod::GetEdgeType).len() == 36);
    assert(graph_path(GraphMethod::ListEdgeTypes).len() == 38);
    assert(graph_path(GraphMethod::DeleteEdgeType).len() == 39);
    assert(graph_path(GraphMethod::CreateEdge)[25] != graph_path(GraphMethod::DeleteEdge)[25]);
    assert(graph_path(GraphMethod::TraverseGraph)[25] != graph_path(GraphMethod::ListEdgeTypes)[25]);
    assert(graph_path(GraphMethod::CreateEdgeType)[25] != graph_path(GraphMethod::DeleteEdgeType)[25]);
}

/// Every method is called at `/telividb.graph.v1.Graph/` followed by its own name:
/// no two methods trade paths, and each path routes to its own method.
pub proof fn graph_paths_name_their_methods()
    ensures
        graph_path(GraphMethod::CreateEdge) == "/telividb.graph.v1.Graph/CreateEdge"@,
        graph_path(GraphMethod::GetEdge) == "/telividb.graph.v1.Graph/GetEdge"@,
        graph_path(GraphMethod::ListEdges) == "/telividb.graph.v1.Graph/ListEdges"@,
        graph_path(GraphMethod::BatchCreateEdges) == "/telividb.graph.v1.Graph/BatchCreateEdges"@,
        graph_path(GraphMethod::DeleteEdge) == "/telividb.graph.v1.Graph/DeleteEdge"@,
        graph_path(GraphMethod::TraverseGraph) == "/telividb.graph.v1.Graph/TraverseGraph"@,
        graph_path(GraphMethod::CreateEdgeType) == "/telividb.graph.v1.Graph/CreateEdgeType"@,
        graph_path(GraphMethod::GetEdgeType) == "/telividb.graph.v1.Graph/GetEdgeType"@,
        graph_path(GraphMethod::ListEdgeTypes) == "/telividb.graph.v1.Graph/ListEdgeTypes"@,
        graph_path(GraphMethod::DeleteEdgeType) == "/telividb.graph.v1.Graph/DeleteEdgeType"@,
        graph_route("/telividb.graph.v1.Graph/CreateEdge"@) == Some(GraphMethod::CreateEdge),
        graph_route("/telividb.graph.v1.Graph/GetEdge"@) == Some(GraphMethod::GetEdge),
        graph_route("/telividb.graph.v1.Graph/ListEdges"@) == Some(GraphMethod::ListEdges),
        graph_route("/telividb.graph.v1.Graph/BatchCreateEdges"@) == Some(GraphMethod::BatchCreateEdges),
        graph_route("/telividb.graph.v1.Graph/DeleteEdge"@) == Some(GraphMethod::DeleteEdge),
        graph_route("/telividb.graph.v1.Graph/TraverseGraph"@) == Some(GraphMethod::TraverseGraph),
        graph_route("/telividb.graph.v1.Graph/CreateEdgeType"@) == Some(GraphMethod::CreateEdgeType),
        graph_route("/telividb.graph.v1.Graph/GetEdgeType"@) == Some(GraphMethod::GetEdgeType),
        graph_route("/telividb.graph.v1.Graph/ListEdgeTypes"@) == Some(GraphMethod::ListEdgeTypes),
        graph_route("/telividb.graph.v1.Graph/DeleteEdgeType"@) == Some(GraphMethod::DeleteEdgeType),
{
    graph_paths_route_back(GraphMethod::CreateEdge);
    graph_paths_route_back(GraphMethod::GetEdge);
    graph_paths_route_back(GraphMethod::ListEdges);
    graph_paths_route_back(GraphMethod::BatchCreateEdges);
    graph_paths_route_back(GraphMethod::DeleteEdge);
    graph_paths_route_back(GraphMethod::TraverseGraph);
    graph_paths_route_back(GraphMethod::CreateEdgeType);
    graph_paths_route_back(GraphMethod::GetEdgeType);
    graph_paths_route_back(GraphMethod::ListEdgeTypes);
    graph_paths_route_back(GraphMethod::DeleteEdgeType);
}

} // verus!
