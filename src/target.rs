//! The target document tree, and its mathematical model.
//!
//! Each executable type has a view that replaces strings by their characters
//! and vectors by sequences; the contracts of the mapping speak of the views.

use vstd::prelude::*;

verus! {

/// Whether a geometry's z-components are absolute elevations.
#[derive(Clone, Copy, Debug, PartialEq, Eq, Structural)]
pub enum AltitudeMode {
    /// The default: heights are clamped to the ground.
    ClampToGround,
    /// The z-components are elevations above sea level.
    Absolute,
}

/// A position: longitude, latitude and optional elevation, as IEEE-754 bit
/// patterns.
#[derive(Clone, Copy, Debug, PartialEq, Eq)]
pub struct Coord {
    pub x: u64,
    pub y: u64,
    pub z: Option<u64>,
}

/// A leaf element: a name, attributes in order, and optional text content.
#[derive(Debug)]
pub struct Element {
    pub name: String,
    pub attrs: Vec<(String, String)>,
    pub content: Option<String>,
}

/// The model of an [`Element`].
pub struct ElementModel {
    pub name: Seq<char>,
    pub attrs: Seq<(Seq<char>, Seq<char>)>,
    pub content: Option<Seq<char>>,
}

impl View for Element {
    type V = ElementModel;

    open spec fn view(&self) -> ElementModel {
        ElementModel {
            name: self.name@,
            attrs: self.attrs@.map_values(|a: (String, String)| (a.0@, a.1@)),
            content: match self.content {
                Some(c) => Some(c@),
                None => None,
            },
        }
    }
}

/// The views of a sequence of elements.
pub open spec fn elements_model(s: Seq<Element>) -> Seq<ElementModel> {
    s.map_values(|e: Element| e@)
}

/// An open polyline.
#[derive(Debug)]
pub struct LineString {
    pub tessellate: bool,
    pub altitude_mode: AltitudeMode,
    pub coords: Vec<Coord>,
}

/// The model of a [`LineString`].
pub struct LineStringModel {
    pub tessellate: bool,
    pub altitude_mode: AltitudeMode,
    pub coords: Seq<Coord>,
}

impl View for LineString {
    type V = LineStringModel;

    open spec fn view(&self) -> LineStringModel {
        LineStringModel {
            tessellate: self.tessellate,
            altitude_mode: self.altitude_mode,
            coords: self.coords@,
        }
    }
}

/// The geometry of a feature.
#[derive(Debug)]
pub enum Geometry {
    Point { coord: Coord, altitude_mode: AltitudeMode },
    LineString(LineString),
    MultiGeometry(Vec<LineString>),
}

/// The model of a [`Geometry`].
pub enum GeometryModel {
    Point { coord: Coord, altitude_mode: AltitudeMode },
    LineString(LineStringModel),
    MultiGeometry(Seq<LineStringModel>),
}

impl View for Geometry {
    type V = GeometryModel;

    open spec fn view(&self) -> GeometryModel {
        match self {
            Geometry::Point { coord, altitude_mode } => GeometryModel::Point {
                coord: *coord,
                altitude_mode: *altitude_mode,
            },
            Geometry::LineString(l) => GeometryModel::LineString(l@),
            Geometry::MultiGeometry(ls) => GeometryModel::MultiGeometry(
                ls@.map_values(|l: LineString| l@),
            ),
        }
    }
}

/// A feature: a name and description paired with a geometry, and its links.
#[derive(Debug)]
pub struct Placemark {
    pub name: Option<String>,
    pub description: Option<String>,
    pub geometry: Geometry,
    pub children: Vec<Element>,
}

/// The model of a [`Placemark`].
pub struct PlacemarkModel {
    pub name: Option<Seq<char>>,
    pub description: Option<Seq<char>>,
    pub geometry: GeometryModel,
    pub children: Seq<ElementModel>,
}

impl View for Placemark {
    type V = PlacemarkModel;

    open spec fn view(&self) -> PlacemarkModel {
        PlacemarkModel {
            name: match self.name {
                Some(n) => Some(n@),
                None => None,
            },
            description: match self.description {
                Some(d) => Some(d@),
                None => None,
            },
            geometry: self.geometry@,
            children: elements_model(self.children@),
        }
    }
}

/// A child of the document.
#[derive(Debug)]
pub enum Node {
    Element(Element),
    /// An element whose content is a list of leaf elements.
    Group { name: String, children: Vec<Element> },
    Placemark(Placemark),
}

/// The model of a [`Node`].
pub enum NodeModel {
    Element(ElementModel),
    Group { name: Seq<char>, children: Seq<ElementModel> },
    Placemark(PlacemarkModel),
}

impl View for Node {
    type V = NodeModel;

    open spec fn view(&self) -> NodeModel {
        match self {
            Node::Element(e) => NodeModel::Element(e@),
            Node::Group { name, children } => NodeModel::Group {
                name: name@,
                children: elements_model(children@),
            },
            Node::Placemark(p) => NodeModel::Placemark(p@),
        }
    }
}

/// The views of a sequence of nodes.
pub open spec fn nodes_model(s: Seq<Node>) -> Seq<NodeModel> {
    s.map_values(|n: Node| n@)
}

/// The whole target document: the root's namespace declarations, in order,
/// and the children of its document node.
#[derive(Debug)]
pub struct TargetDocument {
    pub namespaces: Vec<(String, String)>,
    pub children: Vec<Node>,
}

/// The model of a [`TargetDocument`].
pub struct DocumentModel {
    pub namespaces: Seq<(Seq<char>, Seq<char>)>,
    pub children: Seq<NodeModel>,
}

impl View for TargetDocument {
    type V = DocumentModel;

    open spec fn view(&self) -> DocumentModel {
        DocumentModel {
            namespaces: self.namespaces@.map_values(|a: (String, String)| (a.0@, a.1@)),
            children: nodes_model(self.children@),
        }
    }
}

} // verus!
