//! Streaming-session events and what the orchestration loop does with them.
use vstd::prelude::*;

verus! {

/// Streaming state of one client connection.
#[derive(Debug, Clone, Copy, PartialEq, Eq, Structural)]
pub enum StreamingState {
    Started,
    Ended,
}

/// Streaming state feedback for a client, keyed by its remote address.
#[derive(Debug, Clone, PartialEq)]
pub struct StreamerFeedBack {
    pub remote_ip: String,
    pub streaming_state: StreamingState,
}

impl StreamerFeedBack {
    pub fn new(remote_ip: String, streaming_state: StreamingState) -> (r: StreamerFeedBack)
        ensures
            r.remote_ip@ == remote_ip@,
            r.streaming_state == streaming_state,
    {
        StreamerFeedBack { remote_ip, streaming_state }
    }
}

/// What the orchestration loop does in answer to one feedback event.
#[derive(Debug, Clone, Copy, PartialEq, Eq, Structural)]
pub enum FeedbackAction {
    /// Nothing changes.
    Keep,
    /// Show the renderer's play toggle as on (`true`) or off (`false`).
    SetToggle(bool),
    /// Tell the renderer to play again (auto-resume).
    Resume,
}

/// The loop's decision for one feedback event, over the renderer's toggle
/// state, whether another stream from the same address is still registered,
/// and whether auto-resume is on.
pub open spec fn feedback_action_spec(
    state: StreamingState,
    toggle_on: bool,
    still_streaming: bool,
    auto_resume: bool,
) -> FeedbackAction {
    match state {
        StreamingState::Started => if toggle_on {
            FeedbackAction::Keep
        } else {
            FeedbackAction::SetToggle(true)
        },
        StreamingState::Ended => if still_streaming || !toggle_on {
            FeedbackAction::Keep
        } else if auto_resume {
            FeedbackAction::Resume
        } else {
            FeedbackAction::SetToggle(false)
        },
    }
}

/// Decides what to do with one feedback event. A connection that ended while
/// the toggle was on and no other stream from that address is active is
/// resumed when auto-resume is on, and otherwise shown as stopped.
pub fn feedback_action(
    state: StreamingState,
    toggle_on: bool,
    still_streaming: bool,
    auto_resume: bool,
) -> (r: FeedbackAction)
    ensures
        r == feedback_action_spec(state, toggle_on, still_streaming, auto_resume),
{
    match state {
        StreamingState::Started => {
            if toggle_on {
                FeedbackAction::Keep
            } else {
                FeedbackAction::SetToggle(true)
            }
        },
        StreamingState::Ended => {
            if still_streaming || !toggle_on {
                FeedbackAction::Keep
            } else if auto_resume {
                FeedbackAction::Resume
            } else {
                FeedbackAction::SetToggle(false)
            }
        },
    }
}

} // verus!
