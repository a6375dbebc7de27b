//! The steps of one conversion run, from reading the source to the last
//! write, and the errors it can end with.
//!
//! Reading and writing are done by the caller; [`step`] decides, from the
//! current stage and what the last operation gave, what to do next. A failed
//! read ends the run before anything is written; a failed write ends it with
//! no further write.

use kml::Error as KmlError;
use vstd::prelude::*;

verus! {

/// Declares `gpx::errors::GpxError`, the parser's error, which is only carried
/// through.
#[verifier::external_type_specification]
#[verifier::external_body]
pub struct ExGpxError(gpx::errors::GpxError);

/// Declares `kml::Error`, the serializer's error, which is only carried
/// through.
#[verifier::external_type_specification]
#[verifier::external_body]
pub struct ExKmlError(KmlError);

/// The line that opens the output, before the serialized document.
pub const XML_HEAD: &'static str = "<?xml version=\"1.0\" encoding=\"UTF-8\"?>";

/// Error of a conversion, tagged with the phase that failed.
#[derive(Debug)]
pub enum Error {
    /// Reading the source document failed.
    Gpx(gpx::errors::GpxError),
    /// Writing the target document failed.
    Kml(KmlError),
}

/// Where a run stands.
#[derive(Clone, Copy, Debug, PartialEq, Eq, Structural)]
pub enum Stage {
    /// The source is being read.
    Reading,
    /// The head line is being written.
    WritingHead,
    /// The serialized document is being written.
    WritingBody,
    /// The final newline is being written.
    WritingTail,
    /// The run has ended.
    Done,
}

/// What the last operation of the caller gave.
#[derive(Debug)]
pub enum Event {
    /// The source was read and converted.
    Read,
    /// The source could not be read.
    ReadFailed(gpx::errors::GpxError),
    /// The last write succeeded.
    Written,
    /// The last write failed.
    WriteFailed(KmlError),
}

/// The part of the output to write next.
#[derive(Clone, Copy, Debug, PartialEq, Eq, Structural)]
pub enum Part {
    /// The head line, [`head_line`].
    Head,
    /// The serialized document.
    Body,
    /// The final newline, [`tail_line`].
    Tail,
}

/// What the caller does next.
#[derive(Debug)]
pub enum Action {
    Write(Part),
    /// End the run with this result.
    Finish(Result<(), Error>),
}

/// Whether an action writes to the sink.
pub open spec fn writes(a: Action) -> bool {
    a is Write
}

/// Whether `event` can follow an operation of `stage`: a read outcome while
/// reading, a write outcome while writing, and nothing once the run is done.
pub open spec fn fits(stage: Stage, event: Event) -> bool {
    match stage {
        Stage::Reading => event is Read || event is ReadFailed,
        Stage::WritingHead | Stage::WritingBody | Stage::WritingTail => event is Written
            || event is WriteFailed,
        Stage::Done => false,
    }
}

/// Tells whether `event` can follow an operation of `stage`.
pub fn accepts(stage: Stage, event: &Event) -> (r: bool)
    ensures
        r == fits(stage, *event),
{
    match stage {
        Stage::Reading => matches!(event, Event::Read | Event::ReadFailed(_)),
        Stage::WritingHead | Stage::WritingBody | Stage::WritingTail => matches!(
            event,
            Event::Written | Event::WriteFailed(_)
        ),
        Stage::Done => false,
    }
}

/// The next stage and action, for an event that fits the stage.
pub open spec fn next_step(stage: Stage, event: Event) -> (Stage, Action) {
    match (stage, event) {
        (Stage::Reading, Event::Read) => (Stage::WritingHead, Action::Write(Part::Head)),
        (Stage::Reading, Event::ReadFailed(e)) => (Stage::Done, Action::Finish(Err(Error::Gpx(e)))),
        (Stage::WritingHead, Event::Written) => (Stage::WritingBody, Action::Write(Part::Body)),
        (Stage::WritingBody, Event::Written) => (Stage::WritingTail, Action::Write(Part::Tail)),
        (Stage::WritingTail, Event::Written) => (Stage::Done, Action::Finish(Ok(()))),
        (Stage::WritingHead, Event::WriteFailed(e)) => (
            Stage::Done,
            Action::Finish(Err(Error::Kml(e))),
        ),
        (Stage::WritingBody, Event::WriteFailed(e)) => (
            Stage::Done,
            Action::Finish(Err(Error::Kml(e))),
        ),
        (Stage::WritingTail, Event::WriteFailed(e)) => (
            Stage::Done,
            Action::Finish(Err(Error::Kml(e))),
        ),
        _ => arbitrary(),
    }
}

/// Decides the next stage and action from the current stage and the outcome
/// of the last operation.
pub fn step(stage: Stage, event: Event) -> (r: (Stage, Action))
    requires
        fits(stage, event),
    ensures
        r == next_step(stage, event),
{
    match (stage, event) {
        (Stage::Reading, Event::Read) => (Stage::WritingHead, Action::Write(Part::Head)),
        (Stage::Reading, Event::ReadFailed(e)) => (Stage::Done, Action::Finish(Err(Error::Gpx(e)))),
        (Stage::WritingHead, Event::Written) => (Stage::WritingBody, Action::Write(Part::Body)),
        (Stage::WritingBody, Event::Written) => (Stage::WritingTail, Action::Write(Part::Tail)),
        (Stage::WritingTail, Event::Written) => (Stage::Done, Action::Finish(Ok(()))),
        (Stage::WritingHead, Event::WriteFailed(e)) => (
            Stage::Done,
            Action::Finish(Err(Error::Kml(e))),
        ),
        (Stage::WritingBody, Event::WriteFailed(e)) => (
            Stage::Done,
            Action::Finish(Err(Error::Kml(e))),
        ),
        (Stage::WritingTail, Event::WriteFailed(e)) => (
            Stage::Done,
            Action::Finish(Err(Error::Kml(e))),
        ),
        _ => {
            proof {
                assert(false);
            }
            (Stage::Done, Action::Finish(Ok(())))
        },
    }
}

/// The head line of the output, newline-terminated.
pub fn head_line() -> (r: String)
    ensures
        r@ == XML_HEAD@ + "\n"@,
{
    let mut r = String::from_str(XML_HEAD);
    r.append("\n");
    r
}

/// The newline that ends the output.
pub fn tail_line() -> (r: String)
    ensures
        r@ == "\n"@,
{
    String::from_str("\n")
}

/// A source that cannot be read ends the run with the read error, tagged as
/// such, before anything is written.
pub proof fn lemma_read_failure_writes_nothing(e: gpx::errors::GpxError)
    ensures
        next_step(Stage::Reading, Event::ReadFailed(e)) == (
            Stage::Done,
            Action::Finish(Err(Error::Gpx(e))),
        ),
        !writes(next_step(Stage::Reading, Event::ReadFailed(e)).1),
{
}

/// A write that fails ends the run with the write error, tagged as such, and
/// no event can follow it, so nothing is written after it.
pub proof fn lemma_write_failure_stops_writing(stage: Stage, e: KmlError, later: Event)
    requires
        stage == Stage::WritingHead || stage == Stage::WritingBody || stage == Stage::WritingTail,
    ensures
        next_step(stage, Event::WriteFailed(e)) == (Stage::Done, Action::Finish(Err(Error::Kml(e)))),
        !fits(Stage::Done, later),
{
}

} // verus!
