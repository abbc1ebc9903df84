//! Sequencing of renderer control calls: `play` first points the renderer at
//! the stream (set transport URI) and only then starts the transport; a
//! failure at either step ends the sequence as one failure.
use vstd::prelude::*;

verus! {

/// One control-protocol action.
#[derive(Debug, Clone, Copy, PartialEq, Eq, Structural)]
pub enum ControlAction {
    SetTransportUri,
    Play,
    Stop,
}

/// Progress of a `play` sequence for one renderer.
#[derive(Debug, Clone, Copy, PartialEq, Eq, Structural)]
pub enum PlayState {
    /// Waiting for the answer to set transport URI.
    SettingUri,
    /// The URI is set; waiting for the answer to play.
    Starting,
    /// Both calls succeeded.
    Started,
    /// The sequence failed at the named action.
    Failed(ControlAction),
}

/// A control failure, naming the renderer and the action that failed.
#[derive(Debug, Clone)]
pub struct ControlError {
    pub renderer: String,
    pub action: ControlAction,
}

/// The state a `play` sequence starts in.
pub open spec fn play_start_spec() -> PlayState {
    PlayState::SettingUri
}

/// The call to issue next in state `s`, if any.
pub open spec fn next_call_spec(s: PlayState) -> Option<ControlAction> {
    match s {
        PlayState::SettingUri => Some(ControlAction::SetTransportUri),
        PlayState::Starting => Some(ControlAction::Play),
        _ => None,
    }
}

/// The state after the pending call answered with success (`ok`) or not.
/// Finished sequences stay as they are.
pub open spec fn advance_spec(s: PlayState, ok: bool) -> PlayState {
    match s {
        PlayState::SettingUri => if ok {
            PlayState::Starting
        } else {
            PlayState::Failed(ControlAction::SetTransportUri)
        },
        PlayState::Starting => if ok {
            PlayState::Started
        } else {
            PlayState::Failed(ControlAction::Play)
        },
        _ => s,
    }
}

/// The renderer's toggle shows "playing" only once the sequence started.
pub open spec fn toggle_on_spec(s: PlayState) -> bool {
    s == PlayState::Started
}

/// When the URI is set but the play call fails, the sequence ends in one
/// failure naming the play action; the toggle does not show "playing", no
/// further call is issued, and later answers change nothing.
pub proof fn lemma_play_failure_after_uri(later: bool)
    ensures
        advance_spec(advance_spec(play_start_spec(), true), false) == PlayState::Failed(
            ControlAction::Play,
        ),
        !toggle_on_spec(advance_spec(advance_spec(play_start_spec(), true), false)),
        next_call_spec(advance_spec(advance_spec(play_start_spec(), true), false)) is None,
        advance_spec(advance_spec(advance_spec(play_start_spec(), true), false), later)
            == advance_spec(advance_spec(play_start_spec(), true), false),
{
}

/// Begins a `play` sequence.
pub fn play_start() -> (r: PlayState)
    ensures
        r == play_start_spec(),
{
    PlayState::SettingUri
}

/// The call to issue next in state `s`; `None` once finished.
pub fn next_call(s: PlayState) -> (r: Option<ControlAction>)
    ensures
        r == next_call_spec(s),
{
    match s {
        PlayState::SettingUri => Some(ControlAction::SetTransportUri),
        PlayState::Starting => Some(ControlAction::Play),
        _ => None,
    }
}

/// Records the answer to the pending call.
pub fn advance(s: PlayState, ok: bool) -> (r: PlayState)
    ensures
        r == advance_spec(s, ok),
{
    match s {
        PlayState::SettingUri => {
            if ok {
                PlayState::Starting
            } else {
                PlayState::Failed(ControlAction::SetTransportUri)
            }
        },
        PlayState::Starting => {
            if ok {
                PlayState::Started
            } else {
                PlayState::Failed(ControlAction::Play)
            }
        },
        _ => s,
    }
}

/// Whether the renderer's toggle shows "playing" in state `s`.
pub fn toggle_on(s: PlayState) -> (r: bool)
    ensures
        r == toggle_on_spec(s),
{
    match s {
        PlayState::Started => true,
        _ => false,
    }
}

/// The single failure a finished sequence reports for `renderer`, if it failed.
pub fn play_error(renderer: &String, s: PlayState) -> (r: Option<ControlError>)
    ensures
        match s {
            PlayState::Failed(a) => r matches Some(e) && e.action == a && e.renderer@ == renderer@,
            _ => r is None,
        },
{
    match s {
        PlayState::Failed(a) => Some(ControlError { renderer: renderer.clone(), action: a }),
        _ => None,
    }
}

/// Runs a whole `play` sequence from the answers of the two calls:
/// `play_ok` is consulted only when the URI was set.
pub fn play_outcome(uri_ok: bool, play_ok: bool) -> (r: PlayState)
    ensures
        r == advance_spec(advance_spec(play_start_spec(), uri_ok), play_ok),
        r == if !uri_ok {
            PlayState::Failed(ControlAction::SetTransportUri)
        } else if !play_ok {
            PlayState::Failed(ControlAction::Play)
        } else {
            PlayState::Started
        },
{
    let s = play_start();
    let s = advance(s, uri_ok);
    advance(s, play_ok)
}

} // verus!
