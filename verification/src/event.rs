//! The events that a session delivers, and the frames that carry them.

use crate::decimal::{decimal, lemma_decimal_shape, to_decimal};
use vstd::prelude::*;

verus! {

/// Whether `text` fits on one line of an event stream: it holds neither a
/// carriage return nor a line feed.
pub open spec fn is_single_line(text: Seq<char>) -> bool {
    forall|i: int| 0 <= i < text.len() ==> #[trigger] text[i] != '\r' && text[i] != '\n'
}

/// The frame type of the transport.
#[verifier::external_type_specification]
#[verifier::external_body]
pub struct ExFrame(axum::response::sse::Event);

/// The frame that `axum` builds for an event of the default type whose only
/// field is `data`.
pub uninterp spec fn data_frame(data: Seq<char>) -> axum::response::sse::Event;

/// Builds the frame with `Event::default().data(data)`.
///
/// Trusted: the frame depends on `data` alone. `Event::data` panics on a
/// carriage return, and on a second call for one event. The first is ruled
/// out here, together with the line feed, which would split the data over
/// several fields; the second cannot arise on an event just made.
#[verifier::external_body]
fn build_data_frame(data: &str) -> (frame: axum::response::sse::Event)
    requires
        is_single_line(data@),
    ensures
        frame == data_frame(data@),
{
    axum::response::sse::Event::default().data(data)
}

/// One delivered unit: the counter value of its tick as decimal text, of the
/// default event type. Its view is the payload.
#[derive(Debug)]
pub struct CounterEvent {
    payload: String,
}

impl View for CounterEvent {
    type V = Seq<char>;

    closed spec fn view(&self) -> Seq<char> {
        self.payload@
    }
}

impl CounterEvent {
    #[verifier::type_invariant]
    spec fn single_line(self) -> bool {
        is_single_line(self.payload@)
    }

    /// The event that reports the counter value `n`.
    pub fn numbered(n: u64) -> (event: CounterEvent)
        ensures
            event@ == decimal(n as nat),
    {
        let payload: String = to_decimal(n);
        proof {
            lemma_decimal_shape(n as nat);
        }
        CounterEvent { payload }
    }

    /// The textual payload.
    pub fn payload(&self) -> (text: &str)
        ensures
            text@ == self@,
    {
        self.payload.as_str()
    }

    /// The frame that carries this event over the transport.
    pub fn frame(&self) -> (frame: axum::response::sse::Event)
        ensures
            frame == data_frame(self@),
    {
        proof {
            use_type_invariant(self);
        }
        build_data_frame(self.payload.as_str())
    }
}

} // verus!
