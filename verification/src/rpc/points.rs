//! The `telividb.point.v1.Points` service.
use crate::text::same_text;
use vstd::prelude::*;

verus! {

/// The service's fully qualified name.
pub const SERVICE_NAME: &'static str = "telividb.point.v1.Points";

/// A method of the `telividb.point.v1.Points` service.
#[derive(Debug, Clone, Copy, PartialEq, Eq, Structural)]
pub enum PointsMethod {
    /// Create one point.
    CreatePoint,
    /// Retrieve a single point.
    GetPoint,
    /// List the points of a collection.
    ListPoints,
    /// Delete a point, returning the tombstoned point.
    DeletePoint,
    /// Create several points in one request.
    BatchCreatePoints,
    /// Retrieve several points in one request.
    BatchGetPoints,
    /// Delete several points in one request.
    BatchDeletePoints,
    /// Search a collection for the points nearest a query vector.
    SearchPoints,
}

/// The request path a method is called at.
pub open spec fn points_path(m: PointsMethod) -> Seq<char> {
    match m {
        PointsMethod::CreatePoint => "/telividb.point.v1.Points/CreatePoint"@,
        PointsMethod::GetPoint => "/telividb.point.v1.Points/GetPoint"@,
        PointsMethod::ListPoints => "/telividb.point.v1.Points/ListPoints"@,
        PointsMethod::DeletePoint => "/telividb.point.v1.Points/DeletePoint"@,
        PointsMethod::BatchCreatePoints => "/telividb.point.v1.Points/BatchCreatePoints"@,
        PointsMethod::BatchGetPoints => "/telividb.point.v1.Points/BatchGetPoints"@,
        PointsMethod::BatchDeletePoints => "/telividb.point.v1.Points/BatchDeletePoints"@,
        PointsMethod::SearchPoints => "/telividb.point.v1.Points/SearchPoints"@,
    }
}

/// The method a request path selects, if any.
pub open spec fn points_route(path: Seq<char>) -> Option<PointsMethod> {
    if path == points_path(PointsMethod::CreatePoint) {
        Some(PointsMethod::CreatePoint)
    } else if path == points_path(PointsMethod::GetPoint) {
        Some(PointsMethod::GetPoint)
    } else if path == points_path(PointsMethod::ListPoints) {
        Some(PointsMethod::ListPoints)
    } else if path == points_path(PointsMethod::DeletePoint) {
        Some(PointsMethod::DeletePoint)
    } else if path == points_path(PointsMethod::BatchCreatePoints) {
        Some(PointsMethod::BatchCreatePoints)
    } else if path == points_path(PointsMethod::BatchGetPoints) {
        Some(PointsMethod::BatchGetPoints)
    } else if path == points_path(PointsMethod::BatchDeletePoints) {
        Some(PointsMethod::BatchDeletePoints)
    } else if path == points_path(PointsMethod::SearchPoints) {
        Some(PointsMethod::SearchPoints)
    } else {
        None
    }
}

impl PointsMethod {
    /// The request path this method is called at.
    pub fn path(self) -> (path: &'static str)
        ensures
            path@ == points_path(self),
    {
        match self {
            PointsMethod::CreatePoint => "/telividb.point.v1.Points/CreatePoint",
            PointsMethod::GetPoint => "/telividb.point.v1.Points/GetPoint",
            PointsMethod::ListPoints => "/telividb.point.v1.Points/ListPoints",
            PointsMethod::DeletePoint => "/telividb.point.v1.Points/DeletePoint",
            PointsMethod::BatchCreatePoints => "/telividb.point.v1.Points/BatchCreatePoints",
            PointsMethod::BatchGetPoints => "/telividb.point.v1.Points/BatchGetPoints",
            PointsMethod::BatchDeletePoints => "/telividb.point.v1.Points/BatchDeletePoints",
            PointsMethod::SearchPoints => "/telividb.point.v1.Points/SearchPoints",
        }
    }

    /// The method a request path selects; `None` is answered `UNIMPLEMENTED`.
    pub fn route(path: &str) -> (method: Option<PointsMethod>)
        ensures
            method == points_route(path@),
    {
        if same_text(path, PointsMethod::CreatePoint.path()) {
            Some(PointsMethod::CreatePoint)
        } else if same_text(path, PointsMethod::GetPoint.path()) {
            Some(PointsMethod::GetPoint)
        } else if same_text(path, PointsMethod::ListPoints.path()) {
            Some(PointsMethod::ListPoints)
        } else if same_text(path, PointsMethod::DeletePoint.path()) {
            Some(PointsMethod::DeletePoint)
        } else if same_text(path, PointsMethod::BatchCreatePoints.path()) {
            Some(PointsMethod::BatchCreatePoints)
        } else if same_text(path, PointsMethod::BatchGetPoints.path()) {
            Some(PointsMethod::BatchGetPoints)
        } else if same_text(path, PointsMethod::BatchDeletePoints.path()) {
            Some(PointsMethod::BatchDeletePoints)
        } else if same_text(path, PointsMethod::SearchPoints.path()) {
            Some(PointsMethod::SearchPoints)
        } else {
            None
        }
    }
}

/// A client and a server agree: the path a method is called at routes back
/// to that same method.
pub proof fn points_paths_route_back(m: PointsMethod)
    ensures
        points_route(points_path(m)) == Some(m),
{
    reveal_strlit("/telividb.point.v1.Points/CreatePoint");
    reveal_strlit("/telividb.point.v1.Points/GetPoint");
    reveal_strlit("/telividb.point.v1.Points/ListPoints");
    reveal_strlit("/telividb.point.v1.Points/DeletePoint");
    reveal_strlit("/telividb.point.v1.Points/BatchCreatePoints");
    reveal_strlit("/telividb.point.v1.Points/BatchGetPoints");
    reveal_strlit("/telividb.point.v1.Points/BatchDeletePoints");
    reveal_strlit("/telividb.point.v1.Points/SearchPoints");
    assert(points_path(PointsMethod::CreatePoint).len() == 37);
    assert(points_path(PointsMethod::GetPoint).len() == 34);
    assert(points_path(PointsMethod::ListPoints).len() == 36);
    assert(points_path(PointsMethod::DeletePoint).len() == 37);
    assert(points_path(PointsMethod::BatchCreatePoints).len() == 43);
    assert(points_path(PointsMethod::BatchGetPoints).len() == 40);
    assert(points_path(PointsMethod::BatchDeletePoints).len() == 43);
    assert(points_path(PointsMethod::SearchPoints).len() == 38);
    assert(points_path(PointsMethod::CreatePoint)[26] != points_path(PointsMethod::DeletePoint)[26]);
    assert(points_path(PointsMethod::BatchCreatePoints)[31] != points_path(PointsMethod::BatchDeletePoints)[31]);
}

/// Every method is called at `/telividb.point.v1.Points/` followed by its own name:
/// no two methods trade paths, and each path routes to its own method.
pub proof fn points_paths_name_their_methods()
    ensures
        points_path(PointsMethod::CreatePoint) == "/telividb.point.v1.Points/CreatePoint"@,
        points_path(PointsMethod::GetPoint) == "/telividb.point.v1.Points/GetPoint"@,
        points_path(PointsMethod::ListPoints) == "/telividb.point.v1.Points/ListPoints"@,
        points_path(PointsMethod::DeletePoint) == "/telividb.point.v1.Points/DeletePoint"@,
        points_path(PointsMethod::BatchCreatePoints) == "/telividb.point.v1.Points/BatchCreatePoints"@,
        points_path(PointsMethod::BatchGetPoints) == "/telividb.point.v1.Points/BatchGetPoints"@,
        points_path(PointsMethod::BatchDeletePoints) == "/telividb.point.v1.Points/BatchDeletePoints"@,
        points_path(PointsMethod::SearchPoints) == "/telividb.point.v1.Points/SearchPoints"@,
        points_route("/telividb.point.v1.Points/CreatePoint"@) == Some(PointsMethod::CreatePoint),
        points_route("/telividb.point.v1.Points/GetPoint"@) == Some(PointsMethod::GetPoint),
        points_route("/telividb.point.v1.Points/ListPoints"@) == Some(PointsMethod::ListPoints),
        points_route("/telividb.point.v1.Points/DeletePoint"@) == Some(PointsMethod::DeletePoint),
        points_route("/telividb.point.v1.Points/BatchCreatePoints"@) == Some(PointsMethod::BatchCreatePoints),
        points_route("/telividb.point.v1.Points/BatchGetPoints"@) == Some(PointsMethod::BatchGetPoints),
        points_route("/telividb.point.v1.Points/BatchDeletePoints"@) == Some(PointsMethod::BatchDeletePoints),
        points_route("/telividb.point.v1.Points/SearchPoints"@) == Some(PointsMethod::SearchPoints),
{
    points_paths_route_back(PointsMethod::CreatePoint);
    points_paths_route_back(PointsMethod::GetPoint);
    points_paths_route_back(PointsMethod::ListPoints);
    points_paths_route_back(PointsMethod::DeletePoint);
    points_paths_route_back(PointsMethod::BatchCreatePoints);
    points_paths_route_back(PointsMethod::BatchGetPoints);
    points_paths_route_back(PointsMethod::BatchDeletePoints);
    points_paths_route_back(PointsMethod::SearchPoints);
}

} // verus!
