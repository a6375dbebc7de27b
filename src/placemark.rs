//! Construction of features and of the small elements around them.

use vstd::prelude::*;

use crate::describe::{compose, description_of, ClauseText, DescriptionParts};
use crate::source::{opt_view, Link};
use crate::target::{
    elements_model, Element, ElementModel, Geometry, GeometryModel, Node, NodeModel, Placemark,
    PlacemarkModel,
};

verus! {

/// Name of the element that links to a resource.
pub const LINK_ELEMENT: &'static str = "atom:link";

/// Name of the attribute that holds a link's target.
pub const HREF_ATTRIBUTE: &'static str = "href";

/// An element `name` with text `content`, without attributes.
pub open spec fn text_model(name: Seq<char>, content: Seq<char>) -> ElementModel {
    ElementModel { name, attrs: Seq::empty(), content: Some(content) }
}

/// A link element: only the target is carried, as its one attribute.
pub open spec fn link_model(href: Seq<char>) -> ElementModel {
    ElementModel { name: LINK_ELEMENT@, attrs: seq![(HREF_ATTRIBUTE@, href)], content: None }
}

/// One link element per link, in order.
pub open spec fn links_model(links: Seq<Link>) -> Seq<ElementModel> {
    links.map_values(|l: Link| link_model(l.href@))
}

/// The clauses of a feature's description: no creator, keywords or
/// copyright.
pub open spec fn feature_clauses(
    description: Option<Seq<char>>,
    comment: Option<Seq<char>>,
    time: Option<Seq<char>>,
    source: Option<Seq<char>>,
    kind: Option<Seq<char>>,
) -> ClauseText {
    ClauseText {
        description,
        comment,
        time,
        creator: None,
        keywords: None,
        copyright: None,
        source,
        kind,
    }
}

/// The feature built from the shared parameter shape.
pub open spec fn feature_of(
    name: Option<Seq<char>>,
    links: Seq<Link>,
    clauses: ClauseText,
    geometry: GeometryModel,
) -> NodeModel {
    NodeModel::Placemark(
        PlacemarkModel {
            name,
            description: description_of(clauses),
            geometry,
            children: links_model(links),
        },
    )
}

/// The parameters shared by every kind of feature.
pub struct PlacemarkArgs {
    pub name: Option<String>,
    pub links: Vec<Link>,
    pub description: Option<String>,
    pub comment: Option<String>,
    /// The rendered timestamp, if there is one.
    pub time: Option<String>,
    pub source: Option<String>,
    /// The free-form type of the feature.
    pub kind: Option<String>,
    pub geometry: Geometry,
}

/// The feature that [`create_placemark`] builds from `args`.
pub open spec fn placemark_of(args: PlacemarkArgs) -> NodeModel {
    feature_of(
        opt_view(args.name),
        args.links@,
        feature_clauses(
            opt_view(args.description),
            opt_view(args.comment),
            opt_view(args.time),
            opt_view(args.source),
            opt_view(args.kind),
        ),
        args.geometry@,
    )
}

/// An element `name` with text `content`.
pub fn simple_element(name: &str, content: String) -> (r: Element)
    ensures
        r@ == text_model(name@, content@),
{
    let r = Element { name: String::from_str(name), attrs: Vec::new(), content: Some(content) };
    assert(r@.attrs =~= Seq::<(Seq<char>, Seq<char>)>::empty());
    r
}

/// An element `name` with text `content`, as a document child.
pub fn simple_kelem(name: &str, content: String) -> (r: Node)
    ensures
        r@ == NodeModel::Element(text_model(name@, content@)),
{
    Node::Element(simple_element(name, content))
}

/// A link element that refers to `href`.
pub fn atom_link(href: String) -> (r: Element)
    ensures
        r@ == link_model(href@),
{
    let mut attrs: Vec<(String, String)> = Vec::new();
    attrs.push((String::from_str(HREF_ATTRIBUTE), href));
    let r = Element { name: String::from_str(LINK_ELEMENT), attrs, content: None };
    assert(r@.attrs =~= seq![(HREF_ATTRIBUTE@, href@)]);
    r
}

/// One link element per link, in order, each with only the target.
pub fn link_elements(links: &Vec<Link>) -> (r: Vec<Element>)
    ensures
        elements_model(r@) == links_model(links@),
{
    let mut out: Vec<Element> = Vec::new();
    let mut i: usize = 0;
    while i < links.len()
        invariant
            i <= links@.len(),
            out@.len() == i,
            forall|j: int| 0 <= j < i ==> (#[trigger] out@[j])@ == link_model(links@[j].href@),
        decreases links@.len() - i,
    {
        out.push(atom_link(links[i].href.clone()));
        i += 1;
    }
    assert(elements_model(out@) =~= links_model(links@));
    out
}

/// Builds one feature: the name as given (absent stays absent), one link
/// element per link, the feature variant of the description, and the
/// geometry.
pub fn create_placemark(args: PlacemarkArgs) -> (r: Node)
    ensures
        r@ == placemark_of(args),
{
    let ghost spec_args = args;
    let children = link_elements(&args.links);
    let PlacemarkArgs { name, links, description, comment, time, source, kind, geometry } = args;
    let description = compose(
        DescriptionParts {
            description,
            comment,
            time,
            creator: None,
            keywords: None,
            copyright: None,
            source,
            kind,
        },
    );
    let r = Node::Placemark(Placemark { name, description, geometry, children });
    assert(r@ == placemark_of(spec_args));
    r
}

} // verus!
