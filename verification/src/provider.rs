//! The provider's answers, turned into the events that drive a worker.
//!
//! The calls themselves are made outside this library. What comes back is
//! one of four things: no answer at all, an answer with a status that is
//! not a success, a body that cannot be read, or a body that can.

use vstd::prelude::*;
use crate::job::{Segment, Transcription, TranscriptionView};
use crate::text::{join, trim, trimmed};
use crate::worker::{Event, EventView};

verus! {

/// What came back from one call.
#[derive(Debug)]
pub enum Reply<T> {
    /// The request did not get through; the text says why.
    Unreachable(String),
    /// The provider answered with a status outside 200 to 299; the text
    /// is the answer's body.
    Rejected(String),
    /// The body could not be read; the text says why.
    Malformed(String),
    /// The body, read.
    Body(T),
}

/// Whether a status reports success: 200 to 299.
pub fn is_success(status: u16) -> (r: bool)
    ensures
        r == (200 <= status <= 299),
{
    200 <= status && status <= 299
}

/// The fields of a transcription body; each may be missing.
#[derive(Debug)]
pub struct RawTranscript {
    pub text: Option<String>,
    pub segments: Option<Vec<Segment>>,
}

/// The transcription that a body stands for: a missing text is empty, and
/// missing segments are none.
pub open spec fn transcript_of(raw: RawTranscript) -> TranscriptionView {
    TranscriptionView {
        text: match raw.text {
            Some(t) => t@,
            None => Seq::empty(),
        },
        segments: match raw.segments {
            Some(s) => s@.map_values(|x: Segment| x@),
            None => Seq::empty(),
        },
    }
}

/// The event that a transcription call's reply amounts to. Every reply but
/// a readable body fails the job, with a message that names the kind of
/// failure and carries the reply's text.
pub open spec fn transcription_event_spec(reply: Reply<RawTranscript>) -> EventView {
    match reply {
        Reply::Unreachable(e) => EventView::TranscriptionFailed(
            "Transcription request failed: "@ + e@,
        ),
        Reply::Rejected(b) => EventView::TranscriptionFailed("Transcription API error: "@ + b@),
        Reply::Malformed(e) => EventView::TranscriptionFailed(
            "Transcription response unreadable: "@ + e@,
        ),
        Reply::Body(raw) => EventView::Transcribed(transcript_of(raw)),
    }
}

/// The event that a transcription call's reply amounts to.
pub fn transcription_event(reply: Reply<RawTranscript>) -> (e: Event)
    ensures
        e@ == transcription_event_spec(reply),
{
    match reply {
        Reply::Unreachable(e) => Event::TranscriptionFailed(
            join("Transcription request failed: ", e.as_str()),
        ),
        Reply::Rejected(b) => Event::TranscriptionFailed(
            join("Transcription API error: ", b.as_str()),
        ),
        Reply::Malformed(e) => Event::TranscriptionFailed(
            join("Transcription response unreadable: ", e.as_str()),
        ),
        Reply::Body(raw) => {
            let text = match raw.text {
                Some(t) => t,
                None => String::new(),
            };
            let segments = match raw.segments {
                Some(s) => s,
                None => Vec::new(),
            };
            let t = Transcription { text, segments };
            proof {
                assert(t@.segments =~= transcript_of(raw).segments);
            }
            Event::Transcribed(t)
        },
    }
}

/// The event that a summary call's reply amounts to. A readable body gives
/// the summary, without the white space around it; a body without content
/// gives an empty one.
pub open spec fn summary_event_spec(reply: Reply<Option<String>>) -> EventView {
    match reply {
        Reply::Unreachable(e) => EventView::SummaryFailed("Summarization request failed: "@ + e@),
        Reply::Rejected(b) => EventView::SummaryFailed("Summarization API error: "@ + b@),
        Reply::Malformed(e) => EventView::SummaryFailed(
            "Summarization response unreadable: "@ + e@,
        ),
        Reply::Body(content) => EventView::Summarized(
            trimmed(
                match content {
                    Some(c) => c@,
                    None => Seq::empty(),
                },
            ),
        ),
    }
}

/// The event that a summary call's reply amounts to.
pub fn summary_event(reply: Reply<Option<String>>) -> (e: Event)
    ensures
        e@ == summary_event_spec(reply),
{
    match reply {
        Reply::Unreachable(e) => Event::SummaryFailed(
            join("Summarization request failed: ", e.as_str()),
        ),
        Reply::Rejected(b) => Event::SummaryFailed(join("Summarization API error: ", b.as_str())),
        Reply::Malformed(e) => Event::SummaryFailed(
            join("Summarization response unreadable: ", e.as_str()),
        ),
        Reply::Body(content) => {
            let c = match content {
                Some(c) => c,
                None => String::new(),
            };
            Event::Summarized(trim(c.as_str()))
        },
    }
}

/// A failed transcription call never leaves an empty message behind.
pub proof fn failure_messages_are_not_empty(reply: Reply<RawTranscript>)
    requires
        !(reply is Body),
    ensures
        transcription_event_spec(reply) matches EventView::TranscriptionFailed(m) && m.len() > 0,
{
    reveal_strlit("Transcription request failed: ");
    reveal_strlit("Transcription API error: ");
    reveal_strlit("Transcription response unreadable: ");
}

} // verus!
