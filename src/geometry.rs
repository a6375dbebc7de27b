//! Mapping of points and point sequences to geometries.

use vstd::prelude::*;

use crate::source::{TrackSegment, Waypoint};
use crate::target::{AltitudeMode, Coord, Geometry, GeometryModel, LineString, LineStringModel};

verus! {

/// Tessellation of lines is always enabled.
pub const DEFAULT_TESSELLATE: bool = true;

/// The position of a waypoint: longitude, latitude, elevation if any.
pub open spec fn coord_of(w: Waypoint) -> Coord {
    Coord { x: w.lon, y: w.lat, z: w.elevation }
}

/// The altitude mode: absolute when elevation data is there, else the default.
pub open spec fn mode_for(elevated: bool) -> AltitudeMode {
    if elevated {
        AltitudeMode::Absolute
    } else {
        AltitudeMode::ClampToGround
    }
}

/// Whether at least one of the points has an elevation.
pub open spec fn has_elevation(points: Seq<Waypoint>) -> bool {
    exists|i: int| 0 <= i < points.len() && (#[trigger] points[i]).elevation is Some
}

/// A single waypoint as a point: absolute iff that waypoint has an elevation.
pub open spec fn point_of(w: Waypoint) -> GeometryModel {
    GeometryModel::Point { coord: coord_of(w), altitude_mode: mode_for(w.elevation is Some) }
}

/// A sequence of waypoints as a tessellated line: absolute iff at least one
/// point has an elevation.
pub open spec fn line_of(points: Seq<Waypoint>) -> LineStringModel {
    LineStringModel {
        tessellate: true,
        altitude_mode: mode_for(has_elevation(points)),
        coords: points.map_values(|w: Waypoint| coord_of(w)),
    }
}

/// The segments of a track as one line each, in order.
pub open spec fn multi_of(segments: Seq<TrackSegment>) -> GeometryModel {
    GeometryModel::MultiGeometry(segments.map_values(|s: TrackSegment| line_of(s.points@)))
}

fn altitude_mode(elevated: bool) -> (r: AltitudeMode)
    ensures
        r == mode_for(elevated),
{
    if elevated {
        AltitudeMode::Absolute
    } else {
        AltitudeMode::ClampToGround
    }
}

/// The point geometry of a single waypoint.
pub fn point_geometry(w: &Waypoint) -> (r: Geometry)
    ensures
        r@ == point_of(*w),
{
    Geometry::Point {
        coord: Coord { x: w.lon, y: w.lat, z: w.elevation },
        altitude_mode: altitude_mode(w.elevation.is_some()),
    }
}

/// The line through `points`, in order.
pub fn line_string(points: &Vec<Waypoint>) -> (r: LineString)
    ensures
        r@ == line_of(points@),
{
    let mut coords: Vec<Coord> = Vec::new();
    let mut elevated = false;
    let mut i: usize = 0;
    while i < points.len()
        invariant
            i <= points@.len(),
            coords@.len() == i,
            forall|j: int| 0 <= j < i ==> coords@[j] == coord_of(#[trigger] points@[j]),
            elevated == exists|j: int| 0 <= j < i && (#[trigger] points@[j]).elevation is Some,
        decreases points@.len() - i,
    {
        let w = &points[i];
        coords.push(Coord { x: w.lon, y: w.lat, z: w.elevation });
        elevated = elevated || w.elevation.is_some();
        i += 1;
    }
    assert(coords@ =~= points@.map_values(|w: Waypoint| coord_of(w)));
    LineString {
        tessellate: DEFAULT_TESSELLATE,
        altitude_mode: altitude_mode(elevated),
        coords,
    }
}

/// A single track segment as a line; an empty segment gives a line without
/// coordinates.
pub fn convert_segment(segment: &TrackSegment) -> (r: LineString)
    ensures
        r@ == line_of(segment.points@),
{
    line_string(&segment.points)
}

/// The segments of a track as a multi-geometry of one line per segment, in
/// order; no segment is dropped.
pub fn track_geometry(segments: &Vec<TrackSegment>) -> (r: Geometry)
    ensures
        r@ == multi_of(segments@),
{
    let mut lines: Vec<LineString> = Vec::new();
    let mut i: usize = 0;
    while i < segments.len()
        invariant
            i <= segments@.len(),
            lines@.len() == i,
            forall|j: int| 0 <= j < i ==> (#[trigger] lines@[j])@ == line_of(segments@[j].points@),
        decreases segments@.len() - i,
    {
        lines.push(convert_segment(&segments[i]));
        i += 1;
    }
    assert(lines@.map_values(|l: LineString| l@) =~= segments@.map_values(
        |s: TrackSegment| line_of(s.points@),
    ));
    Geometry::MultiGeometry(lines)
}

} // verus!
