//! The mapping engine: a source document to a target document tree.

use vstd::prelude::*;

use crate::describe::{compose, description_of, ClauseText, DescriptionParts};
use crate::geometry::{line_of, line_string, multi_of, point_geometry, point_of, track_geometry};
use crate::instant::{format_time, time_text};
use crate::placemark::{
    atom_link, create_placemark, feature_clauses, feature_of, link_model, simple_element,
    simple_kelem, text_model, PlacemarkArgs,
};
use crate::source::{opt_view, Author, Link, Metadata, Route, SourceDocument, Track, Waypoint};
use crate::target::{
    elements_model, DocumentModel, ElementModel, Geometry, GeometryModel, Node, NodeModel, TargetDocument,
    nodes_model,
};

verus! {

/// Namespace of the visualization schema, the document's default namespace.
pub const KML_NAMESPACE: &'static str = "http://www.opengis.net/kml/2.2";

/// Namespace of the syndication vocabulary used for authors and links.
pub const ATOM_NAMESPACE: &'static str = "http://www.w3.org/2005/Atom";

/// Value of the marker element that opens the document.
pub const DEFAULT_OPEN: &'static str = "1";

/// The feature of a waypoint: a point, and the waypoint's descriptive fields.
pub open spec fn waypoint_feature(w: Waypoint) -> NodeModel {
    feature_of(
        opt_view(w.name),
        w.links@,
        feature_clauses(
            opt_view(w.description),
            opt_view(w.comment),
            time_text(w.time),
            opt_view(w.source),
            opt_view(w.kind),
        ),
        point_of(w),
    )
}

/// The feature of a route: a line through its points.
pub open spec fn route_feature(r: Route) -> NodeModel {
    feature_of(
        opt_view(r.name),
        r.links@,
        feature_clauses(
            opt_view(r.description),
            opt_view(r.comment),
            None,
            opt_view(r.source),
            opt_view(r.kind),
        ),
        GeometryModel::LineString(line_of(r.points@)),
    )
}

/// The feature of a track: one line per segment.
pub open spec fn track_feature(t: Track) -> NodeModel {
    feature_of(
        opt_view(t.name),
        t.links@,
        feature_clauses(
            opt_view(t.description),
            opt_view(t.comment),
            None,
            opt_view(t.source),
            opt_view(t.kind),
        ),
        multi_of(t.segments@),
    )
}

/// An optional field as text, the empty text when absent.
pub open spec fn or_empty(o: Option<Seq<char>>) -> Seq<char> {
    match o {
        Some(s) => s,
        None => Seq::empty(),
    }
}

/// The author's label: the name, then the mail address in angle brackets,
/// separated by a space where both are there.
pub open spec fn author_label(name: Seq<char>, mail: Seq<char>) -> Seq<char> {
    if mail.len() == 0 {
        name
    } else if name.len() == 0 {
        "<"@ + mail + ">"@
    } else {
        name + " "@ + "<"@ + mail + ">"@
    }
}

/// The children of the author element: a name element where the label is not
/// empty, then a link element where the author has a link.
pub open spec fn author_children(a: Author) -> Seq<ElementModel> {
    let label = author_label(or_empty(opt_view(a.name)), or_empty(opt_view(a.email)));
    (if label.len() > 0 {
        seq![text_model("atom:name"@, label)]
    } else {
        Seq::empty()
    }) + match a.link {
        Some(l) => seq![link_model(l.href@)],
        None => Seq::empty(),
    }
}

/// The author element, where there is an author and it has children.
pub open spec fn author_block(author: Option<Author>) -> Seq<NodeModel> {
    match author {
        Some(a) => if author_children(a).len() > 0 {
            seq![NodeModel::Group { name: "atom:author"@, children: author_children(a) }]
        } else {
            Seq::empty()
        },
        None => Seq::empty(),
    }
}

/// The clauses of the document's description.
pub open spec fn metadata_clauses(m: Metadata, time: Option<Seq<char>>, creator: Option<Seq<char>>) -> ClauseText {
    ClauseText {
        description: opt_view(m.description),
        comment: None,
        time,
        creator,
        keywords: opt_view(m.keywords),
        copyright: crate::source::copyright_view(m.copyright),
        source: None,
        kind: None,
    }
}

/// The metadata block: the name, the author, one link element per link and
/// the description, each only where there is something to show.
pub open spec fn metadata_block(m: Metadata, time: Option<Seq<char>>, creator: Option<Seq<char>>) -> Seq<NodeModel> {
    (match m.name {
        Some(n) => seq![NodeModel::Element(text_model("name"@, n@))],
        None => Seq::empty(),
    }) + author_block(m.author) + m.links@.map_values(
        |l: Link| NodeModel::Element(link_model(l.href@)),
    ) + match description_of(metadata_clauses(m, time, creator)) {
        Some(d) => seq![NodeModel::Element(text_model("description"@, d))],
        None => Seq::empty(),
    }
}

/// Converts a waypoint to a feature with a point geometry.
pub fn convert_waypoint(w: Waypoint) -> (r: Node)
    ensures
        r@ == waypoint_feature(w),
{
    let geometry = point_geometry(&w);
    let time = format_time(w.time);
    create_placemark(
        PlacemarkArgs {
            name: w.name,
            links: w.links,
            description: w.description,
            comment: w.comment,
            time,
            source: w.source,
            kind: w.kind,
            geometry,
        },
    )
}

/// Converts a route to a feature with a line through its points.
pub fn convert_route(route: Route) -> (r: Node)
    ensures
        r@ == route_feature(route),
{
    let geometry = Geometry::LineString(line_string(&route.points));
    create_placemark(
        PlacemarkArgs {
            name: route.name,
            links: route.links,
            description: route.description,
            comment: route.comment,
            time: None,
            source: route.source,
            kind: route.kind,
            geometry,
        },
    )
}

/// Converts a track to a feature with one line per segment.
pub fn convert_track(track: Track) -> (r: Node)
    ensures
        r@ == track_feature(track),
{
    let geometry = track_geometry(&track.segments);
    create_placemark(
        PlacemarkArgs {
            name: track.name,
            links: track.links,
            description: track.description,
            comment: track.comment,
            time: None,
            source: track.source,
            kind: track.kind,
            geometry,
        },
    )
}

impl Metadata {
    /// Metadata with every field absent.
    pub fn empty() -> (r: Metadata)
        ensures
            r.name is None,
            r.author is None,
            r.links@.len() == 0,
            r.description is None,
            r.time is None,
            r.keywords is None,
            r.copyright is None,
    {
        Metadata {
            name: None,
            author: None,
            links: Vec::new(),
            description: None,
            time: None,
            keywords: None,
            copyright: None,
        }
    }
}

/// The author's label from its optional name and mail address.
fn author_text(name: Option<String>, email: Option<String>) -> (r: String)
    ensures
        r@ == author_label(or_empty(opt_view(name)), or_empty(opt_view(email))),
{
    let mut label = match name {
        Some(n) => n,
        None => String::new(),
    };
    let mail = match email {
        Some(m) => m,
        None => String::new(),
    };
    let ghost n = label@;
    let name_empty = label.as_str().is_empty();
    let mail_empty = mail.as_str().is_empty();
    if !name_empty && !mail_empty {
        label.append(" ");
    }
    if !mail_empty {
        label.append("<");
        label.append(mail.as_str());
        label.append(">");
    }
    assert(label@ =~= author_label(n, mail@));
    label
}

/// Appends the author element to `elements`, where the author has a label or
/// a link.
fn push_author(author: Option<Author>, elements: &mut Vec<Node>)
    ensures
        nodes_model(final(elements)@) == nodes_model(old(elements)@) + author_block(author),
{
    match author {
        Some(a) => {
            let ghost spec_author = a;
            let Author { name, email, link } = a;
            let label = author_text(name, email);
            let mut children: Vec<crate::target::Element> = Vec::new();
            if !label.as_str().is_empty() {
                children.push(simple_element("atom:name", label));
            }
            match link {
                Some(l) => {
                    children.push(atom_link(l.href));
                },
                None => {},
            }
            assert(elements_model(children@) =~= author_children(spec_author));
            if children.len() > 0 {
                elements.push(Node::Group { name: String::from_str("atom:author"), children });
                assert(nodes_model(final(elements)@) =~= nodes_model(old(elements)@) + author_block(
                    Some(spec_author),
                ));
            } else {
                assert(nodes_model(final(elements)@) =~= nodes_model(old(elements)@) + author_block(
                    Some(spec_author),
                ));
            }
        },
        None => {
            assert(nodes_model(final(elements)@) =~= nodes_model(old(elements)@) + author_block(
                author,
            ));
        },
    }
}

/// Converts the document's metadata and creator, and appends the nodes to
/// `elements`: the name, the author, one link element per link, then the
/// description. `time` is the rendering of the metadata's timestamp.
pub fn push_metadata(
    metadata: Metadata,
    time: Option<String>,
    creator: Option<String>,
    elements: &mut Vec<Node>,
)
    ensures
        nodes_model(final(elements)@) == nodes_model(old(elements)@) + metadata_block(
            metadata,
            opt_view(time),
            opt_view(creator),
        ),
{
    let ghost m = metadata;
    let ghost start = nodes_model(elements@);
    let Metadata { name, author, links, description, time: _, keywords, copyright } = metadata;
    match name {
        Some(n) => {
            elements.push(simple_kelem("name", n));
        },
        None => {},
    }
    let ghost after_name = nodes_model(elements@);
    assert(after_name =~= start + match m.name {
        Some(n) => seq![NodeModel::Element(text_model("name"@, n@))],
        None => Seq::<NodeModel>::empty(),
    });
    push_author(author, elements);
    let ghost after_author = nodes_model(elements@);
    let ghost base = after_author.len();
    let mut i: usize = 0;
    while i < links.len()
        invariant
            i <= links@.len(),
            links@ == m.links@,
            elements@.len() == base + i,
            forall|j: int| 0 <= j < base ==> (#[trigger] elements@[j])@ == after_author[j],
            forall|j: int|
                0 <= j < i ==> (#[trigger] elements@[base + j])@ == NodeModel::Element(
                    link_model(links@[j].href@),
                ),
        decreases links@.len() - i,
    {
        elements.push(Node::Element(atom_link(links[i].href.clone())));
        i += 1;
        assert forall|j: int| 0 <= j < i implies (#[trigger] elements@[base + j])@
            == NodeModel::Element(link_model(links@[j].href@)) by {
            if j < i - 1 {
            }
        }
    }
    let ghost link_nodes = links@.map_values(|l: Link| NodeModel::Element(link_model(l.href@)));
    assert forall|k: int| 0 <= k < elements@.len() implies nodes_model(elements@)[k] == (
    after_author + link_nodes)[k] by {
        if k >= base {
            let j = k - base;
            assert(elements@[base + j]@ == NodeModel::Element(link_model(links@[j].href@)));
        }
    }
    assert(nodes_model(elements@) =~= after_author + links@.map_values(
        |l: Link| NodeModel::Element(link_model(l.href@)),
    ));
    let ghost after_links = nodes_model(elements@);
    let ghost clauses = metadata_clauses(m, opt_view(time), opt_view(creator));
    let text = compose(
        DescriptionParts {
            description,
            comment: None,
            time,
            creator,
            keywords,
            copyright,
            source: None,
            kind: None,
        },
    );
    match text {
        Some(d) => {
            elements.push(simple_kelem("description", d));
        },
        None => {},
    }
    assert(nodes_model(elements@) =~= after_links + match description_of(clauses) {
        Some(d) => seq![NodeModel::Element(text_model("description"@, d))],
        None => Seq::<NodeModel>::empty(),
    });
}

/// The namespace declarations of the document root, in order.
pub open spec fn root_namespaces() -> Seq<(Seq<char>, Seq<char>)> {
    seq![("xmlns"@, KML_NAMESPACE@), ("xmlns:atom"@, ATOM_NAMESPACE@)]
}

/// The fixed marker element that opens the document.
pub open spec fn marker() -> NodeModel {
    NodeModel::Element(text_model("open"@, DEFAULT_OPEN@))
}

/// The metadata block of a document without metadata: at most the
/// description that names the creator.
pub open spec fn creator_block(creator: Option<Seq<char>>) -> Seq<NodeModel> {
    let clauses = ClauseText {
        description: None,
        comment: None,
        time: None,
        creator,
        keywords: None,
        copyright: None,
        source: None,
        kind: None,
    };
    match description_of(clauses) {
        Some(d) => seq![NodeModel::Element(text_model("description"@, d))],
        None => Seq::empty(),
    }
}

/// The metadata block of a document.
pub open spec fn metadata_of(s: SourceDocument) -> Seq<NodeModel> {
    match s.metadata {
        Some(m) => metadata_block(m, time_text(m.time), opt_view(s.creator)),
        None => creator_block(opt_view(s.creator)),
    }
}

/// One feature per waypoint, in order.
pub open spec fn waypoint_features(s: SourceDocument) -> Seq<NodeModel> {
    s.waypoints@.map_values(|w: Waypoint| waypoint_feature(w))
}

/// One feature per route, in order.
pub open spec fn route_features(s: SourceDocument) -> Seq<NodeModel> {
    s.routes@.map_values(|r: Route| route_feature(r))
}

/// One feature per track, in order.
pub open spec fn track_features(s: SourceDocument) -> Seq<NodeModel> {
    s.tracks@.map_values(|t: Track| track_feature(t))
}

/// The target document of a source document: the marker, the metadata
/// block, then all waypoints, all routes and all tracks.
pub open spec fn document_of(s: SourceDocument) -> DocumentModel {
    DocumentModel {
        namespaces: root_namespaces(),
        children: seq![marker()] + metadata_of(s) + waypoint_features(s) + route_features(s)
            + track_features(s),
    }
}

/// Appends one feature per waypoint to `elements`, in order.
fn push_waypoints(waypoints: Vec<Waypoint>, elements: &mut Vec<Node>)
    ensures
        nodes_model(final(elements)@) == nodes_model(old(elements)@) + waypoints@.map_values(
            |w: Waypoint| waypoint_feature(w),
        ),
{
    let ghost ws = waypoints@;
    let ghost start = nodes_model(elements@);
    let ghost base = start.len();
    for w in it: waypoints.into_iter()
        invariant
            it.seq() == ws,
            elements@.len() == base + it.index(),
            forall|j: int| 0 <= j < base ==> (#[trigger] elements@[j])@ == start[j],
            forall|j: int|
                0 <= j < it.index() ==> (#[trigger] elements@[base + j])@ == waypoint_feature(
                    ws[j],
                ),
    {
        elements.push(convert_waypoint(w));
    }
    let ghost features = ws.map_values(|w: Waypoint| waypoint_feature(w));
    assert forall|k: int| 0 <= k < elements@.len() implies nodes_model(elements@)[k] == (start
        + features)[k] by {
        if k >= base {
            let j = k - base;
            assert(elements@[base + j]@ == waypoint_feature(ws[j]));
        }
    }
    assert(nodes_model(elements@) =~= start + features);
}

/// Appends one feature per route to `elements`, in order.
fn push_routes(routes: Vec<Route>, elements: &mut Vec<Node>)
    ensures
        nodes_model(final(elements)@) == nodes_model(old(elements)@) + routes@.map_values(
            |r: Route| route_feature(r),
        ),
{
    let ghost rs = routes@;
    let ghost start = nodes_model(elements@);
    let ghost base = start.len();
    for r in it: routes.into_iter()
        invariant
            it.seq() == rs,
            elements@.len() == base + it.index(),
            forall|j: int| 0 <= j < base ==> (#[trigger] elements@[j])@ == start[j],
            forall|j: int|
                0 <= j < it.index() ==> (#[trigger] elements@[base + j])@ == route_feature(
                    rs[j],
                ),
    {
        elements.push(convert_route(r));
    }
    let ghost features = rs.map_values(|r: Route| route_feature(r));
    assert forall|k: int| 0 <= k < elements@.len() implies nodes_model(elements@)[k] == (start
        + features)[k] by {
        if k >= base {
            let j = k - base;
            assert(elements@[base + j]@ == route_feature(rs[j]));
        }
    }
    assert(nodes_model(elements@) =~= start + features);
}

/// Appends one feature per waypoint to `elements`, in order.
fn push_tracks(tracks: Vec<Track>, elements: &mut Vec<Node>)
    ensures
        nodes_model(final(elements)@) == nodes_model(old(elements)@) + tracks@.map_values(
            |t: Track| track_feature(t),
        ),
{
    let ghost ts = tracks@;
    let ghost start = nodes_model(elements@);
    let ghost base = start.len();
    for t in it: tracks.into_iter()
        invariant
            it.seq() == ts,
            elements@.len() == base + it.index(),
            forall|j: int| 0 <= j < base ==> (#[trigger] elements@[j])@ == start[j],
            forall|j: int|
                0 <= j < it.index() ==> (#[trigger] elements@[base + j])@ == track_feature(
                    ts[j],
                ),
    {
        elements.push(convert_track(t));
    }
    let ghost features = ts.map_values(|t: Track| track_feature(t));
    assert forall|k: int| 0 <= k < elements@.len() implies nodes_model(elements@)[k] == (start
        + features)[k] by {
        if k >= base {
            let j = k - base;
            assert(elements@[base + j]@ == track_feature(ts[j]));
        }
    }
    assert(nodes_model(elements@) =~= start + features);
}

/// Converts a whole document: the fixed marker, the metadata block, then one
/// feature per waypoint, per route and per track, each group in source order.
/// The root declares the visualization namespace as default and the
/// syndication namespace as `atom`.
pub fn convert(source: SourceDocument) -> (r: TargetDocument)
    ensures
        r@ == document_of(source),
        r@.namespaces == root_namespaces(),
        r@.children.len() >= 1,
        r@.children[0] == marker(),
{
    let ghost s = source;
    let SourceDocument { metadata, creator, waypoints, routes, tracks } = source;
    let mut elements: Vec<Node> = Vec::new();
    elements.push(simple_kelem("open", String::from_str(DEFAULT_OPEN)));
    let metadata = match metadata {
        Some(m) => m,
        None => Metadata::empty(),
    };
    let ghost m = metadata;
    let time = format_time(metadata.time);
    push_metadata(metadata, time, creator, &mut elements);
    proof {
        if s.metadata is None {
            assert(m.links@.map_values(|l: Link| NodeModel::Element(link_model(l.href@)))
                =~= Seq::<NodeModel>::empty());
            assert(metadata_block(m, None, opt_view(s.creator)) =~= creator_block(
                opt_view(s.creator),
            ));
        }
    }
    push_waypoints(waypoints, &mut elements);
    push_routes(routes, &mut elements);
    push_tracks(tracks, &mut elements);
    let mut namespaces: Vec<(String, String)> = Vec::new();
    namespaces.push((String::from_str("xmlns"), String::from_str(KML_NAMESPACE)));
    namespaces.push((String::from_str("xmlns:atom"), String::from_str(ATOM_NAMESPACE)));
    let r = TargetDocument { namespaces, children: elements };
    assert(r@.namespaces =~= root_namespaces());
    assert(r@.children =~= document_of(s).children);
    r
}

} // verus!
