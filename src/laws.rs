//! Properties of the conversion that hold for every input.

use vstd::prelude::*;

use crate::convert::{
    document_of, metadata_block, metadata_of, route_feature, track_feature, waypoint_feature,
};
use crate::geometry::{coord_of, line_of, point_of};
use crate::source::{Metadata, SourceDocument, Waypoint};
use crate::target::{AltitudeMode, GeometryModel, TargetDocument};

verus! {

/// The document holds exactly one feature per waypoint, route and track, after
/// the marker and the metadata block: first all waypoints, then all routes,
/// then all tracks, each group in source order.
pub proof fn lemma_feature_order(s: SourceDocument)
    ensures
        ({
            let c = document_of(s).children;
            let k = 1 + metadata_of(s).len();
            let w = s.waypoints@.len();
            let r = s.routes@.len();
            &&& c.len() == k + w + r + s.tracks@.len()
            &&& forall|i: int| 0 <= i < w ==> c[k + i] == waypoint_feature(#[trigger] s.waypoints@[i])
            &&& forall|i: int| 0 <= i < r ==> c[k + w + i] == route_feature(#[trigger] s.routes@[i])
            &&& forall|i: int|
                0 <= i < s.tracks@.len() ==> c[k + w + r + i] == track_feature(
                    #[trigger] s.tracks@[i],
                )
        }),
{
    let c = document_of(s).children;
    let k = 1 + metadata_of(s).len();
    let w = s.waypoints@.len();
    let r = s.routes@.len();
    assert forall|i: int| 0 <= i < w implies c[k + i] == waypoint_feature(
        #[trigger] s.waypoints@[i],
    ) by {}
    assert forall|i: int| 0 <= i < r implies c[k + w + i] == route_feature(
        #[trigger] s.routes@[i],
    ) by {}
    assert forall|i: int| 0 <= i < s.tracks@.len() implies c[k + w + r + i] == track_feature(
        #[trigger] s.tracks@[i],
    ) by {}
}

/// A waypoint becomes a point at its own position; the z-component is its
/// elevation, and the altitude mode is absolute exactly when it has one.
pub proof fn lemma_point_altitude(w: Waypoint)
    ensures
        point_of(w) matches GeometryModel::Point { coord, altitude_mode } && coord.x == w.lon
            && coord.y == w.lat && coord.z == w.elevation && (altitude_mode
            == AltitudeMode::Absolute <==> w.elevation is Some) && (w.elevation is None
            ==> altitude_mode == AltitudeMode::ClampToGround),
{
}

/// A line keeps every point at its own position, in order, and is absolute as
/// soon as one point has an elevation.
pub proof fn lemma_line_altitude(points: Seq<Waypoint>)
    ensures
        line_of(points).tessellate,
        line_of(points).coords.len() == points.len(),
        forall|i: int|
            0 <= i < points.len() ==> line_of(points).coords[i] == coord_of(#[trigger] points[i]),
        line_of(points).altitude_mode == AltitudeMode::Absolute <==> exists|i: int|
            0 <= i < points.len() && (#[trigger] points[i]).elevation is Some,
{
}

/// Metadata whose fields are all absent, without a creator, gives no node at
/// all, and in particular no description.
pub proof fn lemma_empty_metadata_is_silent(m: Metadata)
    requires
        m.name is None,
        m.author is None,
        m.links@.len() == 0,
        m.description is None,
        m.time is None,
        m.keywords is None,
        m.copyright is None,
    ensures
        metadata_block(m, None, None).len() == 0,
{
}

/// The conversion is a function of its input: two runs on the same document
/// give the same tree.
pub proof fn lemma_conversion_deterministic(s: SourceDocument, a: TargetDocument, b: TargetDocument)
    requires
        a@ == document_of(s),
        b@ == document_of(s),
    ensures
        a@ == b@,
{
}

} // verus!
