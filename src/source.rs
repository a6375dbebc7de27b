//! The source data model: a GPS exchange document as plain values.
//!
//! Coordinates are carried as the IEEE-754 bit patterns of the parsed
//! double-precision values: the library never computes with them, it only
//! passes them through at source precision.

use vstd::prelude::*;

verus! {

/// A hyperlink; only its target is kept.
pub struct Link {
    pub href: String,
}

/// A person credited with a document.
pub struct Author {
    pub name: Option<String>,
    pub email: Option<String>,
    pub link: Option<Link>,
}

/// Copyright holder, year and license of a document.
pub struct Copyright {
    pub author: Option<String>,
    pub year: Option<String>,
    pub license: Option<String>,
}

/// An instant, as nanoseconds since the Unix epoch (UTC).
#[derive(Clone, Copy)]
pub struct Timestamp {
    pub unix_nanos: i128,
}

/// Descriptive data of a whole document.
pub struct Metadata {
    pub name: Option<String>,
    pub author: Option<Author>,
    pub links: Vec<Link>,
    pub description: Option<String>,
    pub time: Option<Timestamp>,
    pub keywords: Option<String>,
    pub copyright: Option<Copyright>,
}

/// A single point with its descriptive fields.
///
/// `lon`, `lat` and `elevation` hold IEEE-754 bit patterns of degrees and
/// meters.
pub struct Waypoint {
    pub lon: u64,
    pub lat: u64,
    pub elevation: Option<u64>,
    pub name: Option<String>,
    pub links: Vec<Link>,
    pub description: Option<String>,
    pub comment: Option<String>,
    pub time: Option<Timestamp>,
    pub source: Option<String>,
    pub kind: Option<String>,
}

/// A planned path through an ordered sequence of waypoints.
pub struct Route {
    pub points: Vec<Waypoint>,
    pub name: Option<String>,
    pub links: Vec<Link>,
    pub description: Option<String>,
    pub comment: Option<String>,
    pub source: Option<String>,
    pub kind: Option<String>,
}

/// One continuous recorded stretch of a track.
pub struct TrackSegment {
    pub points: Vec<Waypoint>,
}

/// A recorded path, made of segments with possible gaps between them.
pub struct Track {
    pub segments: Vec<TrackSegment>,
    pub name: Option<String>,
    pub links: Vec<Link>,
    pub description: Option<String>,
    pub comment: Option<String>,
    pub source: Option<String>,
    pub kind: Option<String>,
}

/// A whole GPS exchange document.
pub struct SourceDocument {
    pub metadata: Option<Metadata>,
    pub creator: Option<String>,
    pub waypoints: Vec<Waypoint>,
    pub routes: Vec<Route>,
    pub tracks: Vec<Track>,
}

/// The view of an optional string.
pub open spec fn opt_view(o: Option<String>) -> Option<Seq<char>> {
    match o {
        Some(s) => Some(s@),
        None => None,
    }
}

/// The text of a copyright record.
pub struct CopyrightText {
    pub author: Option<Seq<char>>,
    pub year: Option<Seq<char>>,
    pub license: Option<Seq<char>>,
}

impl View for Copyright {
    type V = CopyrightText;

    open spec fn view(&self) -> CopyrightText {
        CopyrightText {
            author: opt_view(self.author),
            year: opt_view(self.year),
            license: opt_view(self.license),
        }
    }
}

/// The view of an optional copyright record.
pub open spec fn copyright_view(o: Option<Copyright>) -> Option<CopyrightText> {
    match o {
        Some(c) => Some(c@),
        None => None,
    }
}

} // verus!
