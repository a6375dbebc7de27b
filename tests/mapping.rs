use gpx_kml_convert::convert::{convert, convert_route, convert_track, convert_waypoint, push_metadata};
use gpx_kml_convert::describe::{compose, DescriptionParts};
use gpx_kml_convert::geometry::{convert_segment, line_string, point_geometry};
use gpx_kml_convert::instant::format_time;
use gpx_kml_convert::placemark::{atom_link, create_placemark, simple_element, PlacemarkArgs};
use gpx_kml_convert::source::{
    Author, Copyright, Link, Metadata, Route, SourceDocument, Timestamp, Track, TrackSegment,
    Waypoint,
};
use gpx_kml_convert::target::{AltitudeMode, Coord, Element, Geometry, Node, Placemark};

fn text(s: &str) -> Option<String> {
    Some(s.to_string())
}

fn bits(v: f64) -> u64 {
    v.to_bits()
}

fn point(lon: f64, lat: f64, ele: Option<f64>) -> Waypoint {
    Waypoint {
        lon: bits(lon),
        lat: bits(lat),
        elevation: ele.map(bits),
        name: None,
        links: vec![],
        description: None,
        comment: None,
        time: None,
        source: None,
        kind: None,
    }
}

fn empty_metadata() -> Metadata {
    Metadata {
        name: None,
        author: None,
        links: vec![],
        description: None,
        time: None,
        keywords: None,
        copyright: None,
    }
}

fn document(metadata: Option<Metadata>, creator: Option<String>) -> SourceDocument {
    SourceDocument { metadata, creator, waypoints: vec![], routes: vec![], tracks: vec![] }
}

fn no_parts() -> DescriptionParts {
    DescriptionParts {
        description: None,
        comment: None,
        time: None,
        creator: None,
        keywords: None,
        copyright: None,
        source: None,
        kind: None,
    }
}

fn placemark(n: &Node) -> &Placemark {
    match n {
        Node::Placemark(p) => p,
        other => panic!("not a placemark: {:?}", other),
    }
}

fn element(n: &Node) -> &Element {
    match n {
        Node::Element(e) => e,
        other => panic!("not an element: {:?}", other),
    }
}

fn is_text(e: &Element, name: &str, content: &str) -> bool {
    e.name == name && e.content.as_deref() == Some(content) && e.attrs.is_empty()
}

fn is_link(e: &Element, href: &str) -> bool {
    e.name == "atom:link"
        && e.content.is_none()
        && e.attrs.len() == 1
        && e.attrs[0].0 == "href"
        && e.attrs[0].1 == href
}

#[test]
fn root_declares_namespaces_and_marker() {
    let doc = convert(document(None, None));
    assert_eq!(doc.namespaces.len(), 2);
    assert_eq!(doc.namespaces[0], ("xmlns".to_string(), "http://www.opengis.net/kml/2.2".to_string()));
    assert_eq!(doc.namespaces[1], ("xmlns:atom".to_string(), "http://www.w3.org/2005/Atom".to_string()));
    assert!(is_text(element(&doc.children[0]), "open", "1"));
    assert_eq!(doc.children.len(), 1);
}

#[test]
fn features_follow_source_order() {
    let mut w1 = point(1.0, 2.0, None);
    w1.name = text("w1");
    let mut w2 = point(3.0, 4.0, None);
    w2.name = text("w2");
    let route = Route {
        points: vec![point(5.0, 6.0, None)],
        name: text("r1"),
        links: vec![],
        description: None,
        comment: None,
        source: None,
        kind: None,
    };
    let track = Track {
        segments: vec![],
        name: text("t1"),
        links: vec![],
        description: None,
        comment: None,
        source: None,
        kind: None,
    };
    let mut src = document(None, None);
    src.waypoints = vec![w1, w2];
    src.routes = vec![route];
    src.tracks = vec![track];
    let doc = convert(src);
    assert_eq!(doc.children.len(), 1 + 4);
    let names: Vec<Option<String>> =
        doc.children[1..].iter().map(|n| placemark(n).name.clone()).collect();
    assert_eq!(names, vec![text("w1"), text("w2"), text("r1"), text("t1")]);
    assert!(matches!(placemark(&doc.children[3]).geometry, Geometry::LineString(_)));
    assert!(matches!(placemark(&doc.children[4]).geometry, Geometry::MultiGeometry(_)));
}

#[test]
fn waypoint_without_elevation_is_clamped_point() {
    let g = point_geometry(&point(2.2945, 48.858222, None));
    match g {
        Geometry::Point { coord, altitude_mode } => {
            assert_eq!(altitude_mode, AltitudeMode::ClampToGround);
            assert_eq!(coord, Coord { x: bits(2.2945), y: bits(48.858222), z: None });
        }
        other => panic!("unexpected geometry {:?}", other),
    }
}

#[test]
fn waypoint_with_elevation_is_absolute_point() {
    let g = point_geometry(&point(2.2945, 48.858222, Some(12.5)));
    match g {
        Geometry::Point { coord, altitude_mode } => {
            assert_eq!(altitude_mode, AltitudeMode::Absolute);
            assert_eq!(coord.z, Some(bits(12.5)));
            assert_eq!(f64::from_bits(coord.z.unwrap()), 12.5);
            assert_eq!(coord.x, bits(2.2945));
            assert_eq!(coord.y, bits(48.858222));
        }
        other => panic!("unexpected geometry {:?}", other),
    }
}

#[test]
fn partial_elevation_makes_whole_line_absolute() {
    let points = vec![point(0.0, 1.0, None), point(2.0, 3.0, Some(5.0)), point(4.0, 5.0, None)];
    let line = line_string(&points);
    assert!(line.tessellate);
    assert_eq!(line.altitude_mode, AltitudeMode::Absolute);
    assert_eq!(
        line.coords,
        vec![
            Coord { x: bits(0.0), y: bits(1.0), z: None },
            Coord { x: bits(2.0), y: bits(3.0), z: Some(bits(5.0)) },
            Coord { x: bits(4.0), y: bits(5.0), z: None },
        ]
    );
}

#[test]
fn line_without_elevation_is_clamped() {
    let points = vec![point(0.0, 1.0, None), point(2.0, 3.0, None)];
    let line = line_string(&points);
    assert_eq!(line.altitude_mode, AltitudeMode::ClampToGround);
    assert_eq!(line.coords.len(), 2);
}

#[test]
fn empty_segment_keeps_degenerate_line() {
    let track = Track {
        segments: vec![
            TrackSegment { points: vec![] },
            TrackSegment { points: vec![point(1.0, 2.0, Some(3.0))] },
        ],
        name: None,
        links: vec![],
        description: None,
        comment: None,
        source: None,
        kind: None,
    };
    let node = convert_track(track);
    match &placemark(&node).geometry {
        Geometry::MultiGeometry(lines) => {
            assert_eq!(lines.len(), 2);
            assert!(lines[0].coords.is_empty());
            assert_eq!(lines[0].altitude_mode, AltitudeMode::ClampToGround);
            assert_eq!(lines[1].altitude_mode, AltitudeMode::Absolute);
        }
        other => panic!("unexpected geometry {:?}", other),
    }
    let single = convert_segment(&TrackSegment { points: vec![] });
    assert!(single.coords.is_empty());
    assert!(single.tessellate);
}

#[test]
fn metadata_without_fields_has_no_description() {
    let doc = convert(document(Some(empty_metadata()), None));
    assert_eq!(doc.children.len(), 1);
    let mut nodes = vec![];
    push_metadata(empty_metadata(), None, None, &mut nodes);
    assert!(nodes.is_empty());
}

#[test]
fn metadata_description_text() {
    let mut m = empty_metadata();
    m.description = text("Hike");
    m.keywords = text("alps,summer");
    m.copyright = Some(Copyright { author: None, year: text("2020"), license: None });
    let doc = convert(document(Some(m), None));
    assert_eq!(doc.children.len(), 2);
    assert!(is_text(
        element(&doc.children[1]),
        "description",
        "Hike\nKeywords: alps,summer\nCopyright 2020\n"
    ));
}

#[test]
fn creator_alone_gives_created_line() {
    let doc = convert(document(None, text("GPSBabel")));
    assert_eq!(doc.children.len(), 2);
    assert!(is_text(element(&doc.children[1]), "description", "Created by GPSBabel\n"));
}

#[test]
fn metadata_full_block_order() {
    let mut m = empty_metadata();
    m.name = text("Trip");
    m.author = Some(Author {
        name: text("Ann"),
        email: text("ann@example.org"),
        link: Some(Link { href: "https://example.org/ann".to_string() }),
    });
    m.links = vec![Link { href: "a".to_string() }, Link { href: "b".to_string() }];
    m.copyright = Some(Copyright { author: text("Ann"), year: text("2021"), license: text("CC0") });
    let mut nodes = vec![];
    push_metadata(m, text("2021-05-01T10:00:00Z"), text("tool"), &mut nodes);
    assert_eq!(nodes.len(), 5);
    assert!(is_text(element(&nodes[0]), "name", "Trip"));
    match &nodes[1] {
        Node::Group { name, children } => {
            assert_eq!(name, "atom:author");
            assert_eq!(children.len(), 2);
            assert!(is_text(&children[0], "atom:name", "Ann <ann@example.org>"));
            assert!(is_link(&children[1], "https://example.org/ann"));
        }
        other => panic!("unexpected node {:?}", other),
    }
    assert!(is_link(element(&nodes[2]), "a"));
    assert!(is_link(element(&nodes[3]), "b"));
    assert!(is_text(
        element(&nodes[4]),
        "description",
        "Created 2021-05-01T10:00:00Z by tool\nCopyright Ann 2021 under CC0\n"
    ));
}

#[test]
fn author_with_mail_only() {
    let mut m = empty_metadata();
    m.author = Some(Author { name: None, email: text("x@y.z"), link: None });
    let mut nodes = vec![];
    push_metadata(m, None, None, &mut nodes);
    assert_eq!(nodes.len(), 1);
    match &nodes[0] {
        Node::Group { children, .. } => {
            assert_eq!(children.len(), 1);
            assert!(is_text(&children[0], "atom:name", "<x@y.z>"));
        }
        other => panic!("unexpected node {:?}", other),
    }
}

#[test]
fn author_without_anything_is_dropped() {
    let mut m = empty_metadata();
    m.author = Some(Author { name: None, email: text(""), link: None });
    m.copyright = Some(Copyright { author: None, year: None, license: None });
    let mut nodes = vec![];
    push_metadata(m, None, None, &mut nodes);
    assert!(nodes.is_empty());
}

#[test]
fn waypoint_links_in_order() {
    let mut w = point(1.0, 2.0, None);
    w.links = vec![Link { href: "a".to_string() }, Link { href: "b".to_string() }];
    let node = convert_waypoint(w);
    let p = placemark(&node);
    assert_eq!(p.children.len(), 2);
    assert!(is_link(&p.children[0], "a"));
    assert!(is_link(&p.children[1], "b"));
    assert!(p.name.is_none());
    assert!(p.description.is_none());
}

#[test]
fn repeated_conversion_is_identical() {
    let build = || {
        let mut w = point(7.5, 46.25, Some(1200.0));
        w.name = text("Summit");
        w.comment = text("windy");
        let mut src = document(None, text("me"));
        src.waypoints = vec![w];
        src
    };
    let a = format!("{:?}", convert(build()));
    let b = format!("{:?}", convert(build()));
    assert_eq!(a, b);
}

#[test]
fn feature_description_clause_order() {
    let mut parts = no_parts();
    parts.description = text("desc");
    parts.comment = text("note");
    parts.time = text("T");
    parts.source = text("GPS");
    parts.kind = text("peak");
    assert_eq!(
        compose(parts),
        text("desc\nnote\nCreated T\nSource: GPS\nType: peak\n")
    );
}

#[test]
fn description_absent_when_nothing_fires() {
    assert_eq!(compose(no_parts()), None);
    let mut parts = no_parts();
    parts.copyright = Some(Copyright { author: None, year: None, license: None });
    assert_eq!(compose(parts), None);
}

#[test]
fn empty_description_field_still_fires() {
    let mut parts = no_parts();
    parts.description = text("");
    assert_eq!(compose(parts), text("\n"));
}

#[test]
fn route_feature_fields() {
    let route = Route {
        points: vec![point(1.0, 2.0, None), point(3.0, 4.0, None)],
        name: text("Loop"),
        links: vec![Link { href: "r".to_string() }],
        description: None,
        comment: text("easy"),
        source: None,
        kind: text("hiking"),
    };
    let node = convert_route(route);
    let p = placemark(&node);
    assert_eq!(p.name, text("Loop"));
    assert_eq!(p.description, text("easy\nType: hiking\n"));
    assert!(is_link(&p.children[0], "r"));
    match &p.geometry {
        Geometry::LineString(l) => {
            assert_eq!(l.coords.len(), 2);
            assert_eq!(l.altitude_mode, AltitudeMode::ClampToGround);
        }
        other => panic!("unexpected geometry {:?}", other),
    }
}

#[test]
fn placemark_from_shared_shape() {
    let node = create_placemark(PlacemarkArgs {
        name: text("n"),
        links: vec![],
        description: None,
        comment: None,
        time: text("2020-01-01T00:00:00Z"),
        source: text("s"),
        kind: None,
        geometry: point_geometry(&point(0.0, 0.0, None)),
    });
    let p = placemark(&node);
    assert_eq!(p.description, text("Created 2020-01-01T00:00:00Z\nSource: s\n"));
}

#[test]
fn small_elements() {
    assert!(is_text(&simple_element("name", "x".to_string()), "name", "x"));
    assert!(is_link(&atom_link("h".to_string()), "h"));
}

#[test]
fn timestamp_renders_iso8601() {
    let t = Timestamp { unix_nanos: 0 };
    assert_eq!(format_time(Some(t)), text("1970-01-01T00:00:00.000000000Z"));
    assert_eq!(format_time(None), None);
}

#[test]
fn waypoint_time_in_description() {
    let mut w = point(1.0, 2.0, None);
    w.time = Some(Timestamp { unix_nanos: 1_546_300_800_000_000_000 });
    let node = convert_waypoint(w);
    assert_eq!(
        placemark(&node).description,
        text("Created 2019-01-01T00:00:00.000000000Z\n")
    );
}
