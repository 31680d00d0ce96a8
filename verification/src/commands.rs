//! What a call for content returns, once the controller has routed it and
//! the backend has answered or failed.
//!
//! A call that the model was to serve never fails on the model's account:
//! the offline content takes the place of what the model did not deliver.
//! A call that was not routed to the model hands the failure on as it is.

use vstd::prelude::*;
use vstd::string::*;

use crate::calendar::current_timestamp;
use crate::dashboard::{DashboardDocument, DashboardDocumentView};
use crate::model_manager::ReadingSource;
use crate::stream::{event_views, events_of, stream_events};
use crate::stub::{stub_reading, synthesize_reading};
use crate::stub_dashboard::{stub_dashboard, synthesize_dashboard};
use crate::types::{Reading, ReadingRequest, ReadingView, StreamEvent, StreamEventView};

verus! {

/// A reading with the tag of the source that served it.
pub open spec fn tagged(reading: ReadingView, source: ReadingSource) -> ReadingView {
    ReadingView { source: source.tag(), ..reading }
}

/// Tags a reading that a backend delivered with the source that served it.
pub fn tag_reading(reading: Reading, source: ReadingSource) -> (marked: Reading)
    ensures
        marked@ == tagged(reading@, source),
{
    let mut marked = reading;
    marked.source = String::from_str(source.as_str());
    marked
}

/// What a call for a reading returns, if the offline reading is stamped
/// with `now`.
pub open spec fn reading_result(
    source: ReadingSource,
    outcome: Result<Reading, String>,
    request: ReadingRequest,
    now: Seq<char>,
) -> Result<ReadingView, Seq<char>> {
    match outcome {
        Ok(reading) => Ok(tagged(reading@, source)),
        Err(error) => match source {
            ReadingSource::Model => Ok(stub_reading(request@, now)),
            ReadingSource::Stub => Err(error@),
        },
    }
}

/// A result with the reading or the error as a view.
pub open spec fn reading_result_view(result: Result<Reading, String>) -> Result<
    ReadingView,
    Seq<char>,
> {
    match result {
        Ok(reading) => Ok(reading@),
        Err(error) => Err(error@),
    }
}

/// Settles a call for a reading at the time `now`: a reading that the
/// backend delivered is tagged with its source; where the model failed the
/// offline reading stands in, stamped with `now`; any other failure is
/// returned as it is.
pub fn complete_reading_at(
    source: ReadingSource,
    outcome: Result<Reading, String>,
    request: &ReadingRequest,
    now: String,
) -> (result: Result<Reading, String>)
    ensures
        reading_result_view(result) == reading_result(source, outcome, *request, now@),
{
    match outcome {
        Ok(reading) => Ok(tag_reading(reading, source)),
        Err(error) => match source {
            ReadingSource::Model => Ok(synthesize_reading(request, now)),
            ReadingSource::Stub => Err(error),
        },
    }
}

/// Settles a call for a reading. The clock is read for the stamp of the
/// offline reading, so the result is what `complete_reading_at` gives for
/// some time: where the model failed, the offline reading of the request
/// with the stamp it carries.
pub fn complete_reading(
    source: ReadingSource,
    outcome: Result<Reading, String>,
    request: &ReadingRequest,
) -> (result: Result<Reading, String>)
    ensures
        exists|now: Seq<char>|
            reading_result_view(result) == #[trigger] reading_result(
                source,
                outcome,
                *request,
                now,
            ),
        outcome is Err && source is Model ==> (result matches Ok(reading) && reading@
            == stub_reading(request@, reading@.created_at)),
{
    let now = current_timestamp();
    let ghost stamp = now@;
    let result = complete_reading_at(source, outcome, request, now);
    assert(reading_result_view(result) == reading_result(source, outcome, *request, stamp));
    result
}

/// The events that a streamed call sends for its result: the whole stream
/// of the message where there is a reading, and start and end alone where
/// the call failed.
pub open spec fn events_of_result(result: Result<Reading, String>) -> Seq<StreamEventView> {
    match result {
        Ok(reading) => events_of(reading.message@),
        Err(_) => seq![StreamEventView::Start, StreamEventView::End],
    }
}

/// The events of a streamed call that was routed to a backend, in the
/// order in which they go out. A call that the controller turned away
/// sends none.
pub fn stream_result(result: &Result<Reading, String>) -> (events: Vec<StreamEvent>)
    ensures
        event_views(events@) == events_of_result(*result),
{
    match result {
        Ok(reading) => stream_events(reading.message.as_str()),
        Err(_) => {
            let events = vec![StreamEvent::Start, StreamEvent::End];
            proof {
                assert(event_views(events@) =~= events_of_result(*result));
            }
            events
        },
    }
}

/// What a call for a dashboard hands back: the text that the model wrote,
/// taken as it is, or the offline dashboard, still to be written as JSON.
#[derive(Debug, PartialEq, Eq)]
pub enum DashboardPayload {
    Model { json: String },
    Stub { document: DashboardDocument },
}

/// The view of [`DashboardPayload`].
pub enum DashboardPayloadView {
    Model { json: Seq<char> },
    Stub { document: DashboardDocumentView },
}

impl View for DashboardPayload {
    type V = DashboardPayloadView;

    open spec fn view(&self) -> DashboardPayloadView {
        match self {
            DashboardPayload::Model { json } => DashboardPayloadView::Model { json: json@ },
            DashboardPayload::Stub { document } => DashboardPayloadView::Stub {
                document: document@,
            },
        }
    }
}

/// What a call for a dashboard returns, if the offline dashboard is
/// stamped with `now`.
pub open spec fn dashboard_result(
    source: ReadingSource,
    outcome: Result<String, String>,
    request: ReadingRequest,
    now: Seq<char>,
) -> Result<DashboardPayloadView, Seq<char>> {
    match outcome {
        Ok(json) => Ok(DashboardPayloadView::Model { json: json@ }),
        Err(error) => match source {
            ReadingSource::Model => Ok(
                DashboardPayloadView::Stub { document: stub_dashboard(request@, now) },
            ),
            ReadingSource::Stub => Err(error@),
        },
    }
}

/// A result with the payload or the error as a view.
pub open spec fn dashboard_result_view(result: Result<DashboardPayload, String>) -> Result<
    DashboardPayloadView,
    Seq<char>,
> {
    match result {
        Ok(payload) => Ok(payload@),
        Err(error) => Err(error@),
    }
}

/// Settles a call for a dashboard at the time `now`: the text that the
/// backend delivered is passed on; where the model failed the offline
/// dashboard stands in, stamped with `now`; any other failure is returned
/// as it is.
pub fn complete_dashboard_at(
    source: ReadingSource,
    outcome: Result<String, String>,
    request: &ReadingRequest,
    now: String,
) -> (result: Result<DashboardPayload, String>)
    ensures
        dashboard_result_view(result) == dashboard_result(source, outcome, *request, now@),
{
    match outcome {
        Ok(json) => Ok(DashboardPayload::Model { json }),
        Err(error) => match source {
            ReadingSource::Model => Ok(
                DashboardPayload::Stub { document: synthesize_dashboard(request, now) },
            ),
            ReadingSource::Stub => Err(error),
        },
    }
}

/// Settles a call for a dashboard. The clock is read for the stamp of the
/// offline dashboard, so the result is what `complete_dashboard_at` gives
/// for some time.
pub fn complete_dashboard(
    source: ReadingSource,
    outcome: Result<String, String>,
    request: &ReadingRequest,
) -> (result: Result<DashboardPayload, String>)
    ensures
        exists|now: Seq<char>|
            dashboard_result_view(result) == #[trigger] dashboard_result(
                source,
                outcome,
                *request,
                now,
            ),
{
    let now = current_timestamp();
    let ghost stamp = now@;
    let result = complete_dashboard_at(source, outcome, request, now);
    assert(dashboard_result_view(result) == dashboard_result(source, outcome, *request, stamp));
    result
}

} // verus!
