//! The heartbeat: the keep-alive unit that the transport sends on its own
//! clock, whatever the event counter does.

use crate::event::is_single_line;
use vstd::prelude::*;

verus! {

/// Seconds between two heartbeats.
pub const HEARTBEAT_SECS: u64 = 1;

/// The fixed payload of every heartbeat.
pub open spec fn heartbeat_text() -> Seq<char> {
    "keep-alive_text"@
}

/// The keep-alive configuration type of the transport.
#[verifier::external_type_specification]
#[verifier::external_body]
pub struct ExKeepAlive(axum::response::sse::KeepAlive);

/// The keep-alive configuration that `axum` builds from an interval in whole
/// seconds and a comment text.
pub uninterp spec fn keep_alive_of(secs: u64, text: Seq<char>) -> axum::response::sse::KeepAlive;

/// Builds the configuration with
/// `KeepAlive::default().interval(Duration::from_secs(secs)).text(text)`.
///
/// Trusted: the configuration depends on `secs` and `text` alone.
/// `KeepAlive::text` panics on a carriage return or a line feed, which are
/// ruled out here.
#[verifier::external_body]
fn build_keep_alive(secs: u64, text: &str) -> (config: axum::response::sse::KeepAlive)
    requires
        is_single_line(text@),
    ensures
        config == keep_alive_of(secs, text@),
{
    axum::response::sse::KeepAlive::default().interval(std::time::Duration::from_secs(secs)).text(
        text,
    )
}

/// The heartbeat payload holds no line break, so it fits in one comment line.
pub proof fn lemma_heartbeat_text_single_line()
    ensures
        is_single_line(heartbeat_text()),
{
    reveal_strlit("keep-alive_text");
}

/// The keep-alive configuration of every stream: heartbeats [`HEARTBEAT_SECS`]
/// apart, each with the fixed payload.
pub fn keep_alive() -> (config: axum::response::sse::KeepAlive)
    ensures
        config == keep_alive_of(HEARTBEAT_SECS, heartbeat_text()),
{
    proof {
        lemma_heartbeat_text_single_line();
    }
    build_keep_alive(HEARTBEAT_SECS, "keep-alive_text")
}

} // verus!
