use telividb::rpc::conversations::ConversationsMethod;
use telividb::rpc::graph::GraphMethod;
use telividb::rpc::points::{PointsMethod, SERVICE_NAME};

#[test]
fn a_point_method_is_called_at_its_service_path() {
    assert_eq!(PointsMethod::CreatePoint.path(), "/telividb.point.v1.Points/CreatePoint");
    assert_eq!(PointsMethod::SearchPoints.path(), "/telividb.point.v1.Points/SearchPoints");
    assert_eq!(SERVICE_NAME, "telividb.point.v1.Points");
}

#[test]
fn every_point_path_routes_back_to_its_method() {
    for m in [
        PointsMethod::CreatePoint,
        PointsMethod::GetPoint,
        PointsMethod::ListPoints,
        PointsMethod::DeletePoint,
        PointsMethod::BatchCreatePoints,
        PointsMethod::BatchGetPoints,
        PointsMethod::BatchDeletePoints,
        PointsMethod::SearchPoints,
    ] {
        assert_eq!(PointsMethod::route(m.path()), Some(m));
    }
}

#[test]
fn an_unknown_path_is_unimplemented() {
    assert_eq!(PointsMethod::route("/telividb.point.v1.Points/Nope"), None);
    assert_eq!(PointsMethod::route("/telividb.graph.v1.Graph/GetEdge"), None);
    assert_eq!(GraphMethod::route("/telividb.point.v1.Points/GetPoint"), None);
    assert_eq!(ConversationsMethod::route(""), None);
}

#[test]
fn graph_and_conversation_paths_route_back() {
    assert_eq!(GraphMethod::route("/telividb.graph.v1.Graph/TraverseGraph"), Some(GraphMethod::TraverseGraph));
    assert_eq!(GraphMethod::route(GraphMethod::DeleteEdgeType.path()), Some(GraphMethod::DeleteEdgeType));
    assert_eq!(
        ConversationsMethod::route("/telividb.conversation.v1.Conversations/ListSummaries"),
        Some(ConversationsMethod::ListSummaries)
    );
    assert_eq!(
        ConversationsMethod::route(ConversationsMethod::UnsuppressConversation.path()),
        Some(ConversationsMethod::UnsuppressConversation)
    );
}
