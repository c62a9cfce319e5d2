use vstd::prelude::*;
use vstd::string::*;

use crate::api::{error_text, ApiError};
use crate::text::{contains, contains_seq, lowercase, owned, to_lowercase};
use crate::types::{Shift, TrackerState};

verus! {

/// Heartbeats are sent in batches of at most this many.
pub const HEARTBEAT_BATCH: usize = 500;

/// What a flush of the local queue does after one upload: whether the
/// uploaded items leave the queue, and whether the flush goes on.
#[derive(Debug, Clone, Copy, PartialEq, Eq, Structural)]
pub struct FlushStep {
    pub remove: bool,
    pub proceed: bool,
}

/// After one screenshot sample or app-usage batch was offered to the server:
/// a delivered item leaves the queue and clears the last error; a network
/// failure marks the tracker offline and stops the flush with the item kept;
/// a refused item is dropped and the flush goes on.
pub fn upload_step(state: &mut TrackerState, outcome: &Result<(), ApiError>) -> (r: FlushStep)
    ensures
        match outcome {
            Ok(_) => r == (FlushStep { remove: true, proceed: true }) && *final(state) == (
            TrackerState { last_error: None, ..*old(state) }),
            Err(ApiError::Network(_)) => r == (FlushStep { remove: false, proceed: false })
                && *final(state) == (TrackerState { is_online: false, ..*old(state) }),
            Err(ApiError::Message(_)) => r == (FlushStep { remove: true, proceed: true })
                && *final(state) == *old(state),
        },
{
    match outcome {
        Ok(_) => {
            state.last_error = None;
            FlushStep { remove: true, proceed: true }
        },
        Err(ApiError::Network(_)) => {
            state.is_online = false;
            FlushStep { remove: false, proceed: false }
        },
        Err(ApiError::Message(_)) => FlushStep { remove: true, proceed: true },
    }
}

/// Before a queued screenshot sample is uploaded: a sample whose image file
/// cannot be read is dropped from the queue without an upload and the flush
/// goes on; a readable one is uploaded (`None`).
pub fn sample_read_step(image_read: bool) -> (r: Option<FlushStep>)
    ensures
        image_read ==> r is None,
        !image_read ==> r == Some(FlushStep { remove: true, proceed: true }),
{
    if image_read {
        None
    } else {
        Some(FlushStep { remove: true, proceed: true })
    }
}

/// The message shown while break intervals wait for the network.
pub open spec fn offline_break_message() -> Seq<char> {
    "Offline \u{2014} sleep/idle intervals will sync when the network returns"@
}

/// A refusal that means the server already has the break.
pub open spec fn already_recorded(message: Seq<char>) -> bool {
    let lower = lowercase(message);
    contains_seq(lower, "duplicate"@) || contains_seq(lower, "already"@) || contains_seq(
        lower,
        "idempotent"@,
    )
}

/// A refusal whose message mentions, in any case, a duplicate, a break
/// already recorded, or an idempotent request means the server has the
/// break; any other refusal does not.
pub proof fn law_duplicate_means_recorded(message: Seq<char>)
    ensures
        contains_seq(lowercase(message), "duplicate"@) ==> already_recorded(message),
        contains_seq(lowercase(message), "already"@) ==> already_recorded(message),
        contains_seq(lowercase(message), "idempotent"@) ==> already_recorded(message),
        !contains_seq(lowercase(message), "duplicate"@) && !contains_seq(lowercase(message), "already"@)
            && !contains_seq(lowercase(message), "idempotent"@) ==> !already_recorded(message),
{
}

/// After one closed break interval was offered to the server: a recorded
/// break leaves the queue, the shift the server returned becomes the state's
/// shift and the last error is cleared; a network failure marks
/// the tracker offline with a note and stops; a refusal that says the break
/// is a duplicate drops it and goes on; any other refusal is shown and stops.
pub fn break_sync_step(state: &mut TrackerState, outcome: Result<Shift, ApiError>) -> (r:
    FlushStep)
    ensures
        match outcome {
            Ok(sh) => r == (FlushStep { remove: true, proceed: true }) && *final(state) == (
            TrackerState { shift: Some(sh), last_error: None, ..*old(state) }),
            Err(ApiError::Network(_)) => r == (FlushStep { remove: false, proceed: false }) && (
            *final(state) == TrackerState {
                is_online: false,
                last_error: final(state).last_error,
                ..*old(state)
            }) && final(state).last_error is Some && final(state).last_error->0@
                == offline_break_message(),
            Err(ApiError::Message(m)) => if already_recorded(m@) {
                r == (FlushStep { remove: true, proceed: true }) && *final(state) == *old(state)
            } else {
                r == (FlushStep { remove: false, proceed: false }) && (*final(state)
                    == TrackerState { last_error: final(state).last_error, ..*old(state) })
                    && final(state).last_error is Some && final(state).last_error->0@ == m@
            },
        },
{
    match outcome {
        Ok(sh) => {
            state.shift = Some(sh);
            state.last_error = None;
            FlushStep { remove: true, proceed: true }
        },
        Err(ApiError::Network(_)) => {
            state.is_online = false;
            state.last_error = Some(
                owned("Offline \u{2014} sleep/idle intervals will sync when the network returns"),
            );
            FlushStep { remove: false, proceed: false }
        },
        Err(ApiError::Message(m)) => {
            let lower = to_lowercase(m.as_str());
            let l = lower.as_str();
            if contains(l, "duplicate") || contains(l, "already") || contains(l, "idempotent") {
                FlushStep { remove: true, proceed: true }
            } else {
                state.last_error = Some(m);
                FlushStep { remove: false, proceed: false }
            }
        },
    }
}

/// Whether a heartbeat flush sends anything: always when the shift is
/// stopping (the server must hear of it), else only queued beats.
pub fn heartbeat_should_send(beats: usize, stopping: bool) -> (r: bool)
    ensures
        r == (beats > 0 || stopping),
{
    beats > 0 || stopping
}

/// After a batch of `beats` heartbeats was sent: on success the beats leave
/// the queue, the shift the server returned becomes the state's shift, and
/// the flush goes on only after a full batch and while not
/// stopping; a network failure marks the tracker offline; a refusal is shown.
/// Both failures stop the flush and keep the beats.
pub fn heartbeat_step(
    state: &mut TrackerState,
    outcome: Result<Shift, ApiError>,
    beats: usize,
    stopping: bool,
) -> (r: FlushStep)
    ensures
        match outcome {
            Ok(sh) => r == (FlushStep { remove: beats > 0, proceed: beats >= HEARTBEAT_BATCH
                && !stopping }) && *final(state) == (TrackerState { shift: Some(sh), ..*old(state) }),
            Err(ApiError::Network(_)) => r == (FlushStep { remove: false, proceed: false })
                && *final(state) == (TrackerState { is_online: false, ..*old(state) }),
            Err(ApiError::Message(m)) => r == (FlushStep { remove: false, proceed: false }) && (
            *final(state) == TrackerState { last_error: final(state).last_error, ..*old(state) })
                && final(state).last_error is Some && final(state).last_error->0@ == m@,
        },
{
    match outcome {
        Ok(sh) => {
            state.shift = Some(sh);
            FlushStep { remove: beats > 0, proceed: beats >= HEARTBEAT_BATCH && !stopping }
        },
        Err(ApiError::Network(_)) => {
            state.is_online = false;
            FlushStep { remove: false, proceed: false }
        },
        Err(ApiError::Message(m)) => {
            state.last_error = Some(m);
            FlushStep { remove: false, proceed: false }
        },
    }
}

/// After a break was started or ended on the server: success makes the
/// returned shift the state's shift and clears the last error, a network failure marks the tracker offline, a refusal is shown.
pub fn apply_break_call(state: &mut TrackerState, outcome: Result<Shift, ApiError>)
    ensures
        match outcome {
            Ok(sh) => *final(state) == (TrackerState {
                shift: Some(sh),
                last_error: None,
                ..*old(state)
            }),
            Err(ApiError::Network(_)) => *final(state) == (TrackerState {
                is_online: false,
                ..*old(state)
            }),
            Err(ApiError::Message(m)) => (*final(state) == TrackerState {
                last_error: final(state).last_error,
                ..*old(state)
            }) && final(state).last_error is Some && final(state).last_error->0@ == m@,
        },
{
    match outcome {
        Ok(sh) => {
            state.shift = Some(sh);
            state.last_error = None;
        },
        Err(ApiError::Network(_)) => {
            state.is_online = false;
        },
        Err(ApiError::Message(m)) => {
            state.last_error = Some(m);
        },
    }
}

} // verus!
