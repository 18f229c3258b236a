//! The player's control bar: what it shows, and what its buttons and sliders
//! ask of the player.
use vstd::prelude::*;
use vstd::string::StringExecFns;
use crate::helpers::helper_functions::{clock_text, secs_to_hhmmss};

verus! {

/// The events of the control bar. The volume slider's value travels beside
/// the event; the seek slider's value is the position in whole seconds.
#[derive(Debug, Clone, Copy, PartialEq, Eq, Structural)]
pub enum ControlInput {
    /// the play button
    Play,
    /// the pause button
    Pause,
    /// the mute button
    ToggleMute,
    /// the volume slider moved
    Volume,
    /// the seek slider was dragged to a position
    Seek(u64),
    /// the seek slider was released
    Released,
}

/// What a control event asks of the player.
#[derive(Debug, Clone, Copy, PartialEq, Eq, Structural)]
pub enum ControlAction {
    /// pause (`true`) or play (`false`)
    SetPaused(bool),
    /// mute (`true`) or unmute (`false`)
    SetMuted(bool),
    /// set the volume to the slider's value
    SetVolume,
    /// seek to the position, in whole seconds
    SeekTo(u64),
    /// nothing for the player to do
    Nothing,
}

/// The seek slider's pending position and the action after a control event,
/// for a player whose sound is `muted` or not: the mute button sets muted to the
/// opposite; dragging the slider only remembers the position, releasing it seeks
/// there and forgets it.
pub open spec fn spec_control_step(seek: Option<u64>, input: ControlInput, muted: bool) -> (Option<u64>, ControlAction) {
    match input {
        ControlInput::Play => (seek, ControlAction::SetPaused(false)),
        ControlInput::Pause => (seek, ControlAction::SetPaused(true)),
        ControlInput::ToggleMute => (seek, ControlAction::SetMuted(!muted)),
        ControlInput::Volume => (seek, ControlAction::SetVolume),
        ControlInput::Seek(position) => (Some(position), ControlAction::Nothing),
        ControlInput::Released => (None, ControlAction::SeekTo(seek.unwrap())),
    }
}

/// Handles a control event, given the seek slider's pending position and
/// whether the player is muted: returns the new pending position and what the
/// player is to do. Releasing the slider with no pending position is left out:
/// it panics.
pub fn control_step(seek: Option<u64>, input: ControlInput, muted: bool) -> (res: (Option<u64>, ControlAction))
    requires
        input == ControlInput::Released ==> seek is Some,
    ensures
        res == spec_control_step(seek, input, muted),
{
    match input {
        ControlInput::Play => (seek, ControlAction::SetPaused(false)),
        ControlInput::Pause => (seek, ControlAction::SetPaused(true)),
        ControlInput::ToggleMute => (seek, ControlAction::SetMuted(!muted)),
        ControlInput::Volume => (seek, ControlAction::SetVolume),
        ControlInput::Seek(position) => (Some(position), ControlAction::Nothing),
        ControlInput::Released => (None, ControlAction::SeekTo(seek.unwrap())),
    }
}

/// Dragging the seek slider to a position and releasing it seeks to the last
/// position it was dragged to, and leaves no pending position.
pub proof fn lemma_drag_then_release(seek: Option<u64>, first: u64, last: u64, muted: bool)
    ensures
        ({
            let (s1, a1) = spec_control_step(seek, ControlInput::Seek(first), muted);
            let (s2, a2) = spec_control_step(s1, ControlInput::Seek(last), muted);
            let (s3, a3) = spec_control_step(s2, ControlInput::Released, muted);
            &&& a1 == ControlAction::Nothing
            &&& a2 == ControlAction::Nothing
            &&& a3 == ControlAction::SeekTo(last)
            &&& s3 is None
        }),
{
}

/// Events other than the seek slider's keep its pending position.
pub proof fn lemma_buttons_keep_pending_seek(seek: Option<u64>, input: ControlInput, muted: bool)
    requires
        !(input is Seek),
        input != ControlInput::Released,
    ensures
        spec_control_step(seek, input, muted).0 == seek,
{
}

/// What the control bar reads of a player.
#[derive(Debug, Clone, Copy, PartialEq, Eq, Structural)]
pub struct PlayerReadout {
    /// the media duration, in whole seconds
    pub duration_secs: u64,
    /// the playback position, in whole seconds
    pub position_secs: u64,
    /// the media is paused
    pub paused: bool,
    /// the audio is muted
    pub muted: bool,
}

/// What the control bar shows.
#[derive(Debug)]
pub struct ControlBar {
    /// the end of the seek slider, in seconds
    pub duration_secs: u64,
    /// the seek slider's position, in seconds
    pub position_secs: u64,
    /// the play/pause button: `Play` shows the play icon, `Pause` the pause icon
    pub play_button: ControlInput,
    /// `position / duration` as clock texts
    pub time_text: String,
    /// the mute button shows the muted icon whatever the volume
    pub muted_icon: bool,
}

/// The slider's position: the pending position while it is dragged, the
/// player's position otherwise, `0` without a player.
pub open spec fn shown_position(player: Option<PlayerReadout>, seek: Option<u64>) -> u64 {
    match seek {
        Some(s) => s,
        None => match player {
            Some(p) => p.position_secs,
            None => 0,
        },
    }
}

/// The duration the bar shows: the player's, `0` without a player.
pub open spec fn shown_duration(player: Option<PlayerReadout>) -> u64 {
    match player {
        Some(p) => p.duration_secs,
        None => 0,
    }
}

/// The text `position / duration`, each as a clock text.
pub open spec fn time_label(position: u64, duration: u64) -> Seq<char> {
    clock_text(position as nat) + " / "@ + clock_text(duration as nat)
}

/// What the control bar shows for a player (or none) while the seek slider has
/// the given pending position (or none).
pub fn control_bar(player: Option<PlayerReadout>, seek: Option<u64>) -> (bar: ControlBar)
    ensures
        bar.duration_secs == shown_duration(player),
        bar.position_secs == shown_position(player, seek),
        bar.play_button == (match player {
            Some(p) => if p.paused { ControlInput::Play } else { ControlInput::Pause },
            None => ControlInput::Play,
        }),
        bar.time_text@ == time_label(shown_position(player, seek), shown_duration(player)),
        bar.muted_icon == (match player {
            Some(p) => p.muted,
            None => false,
        }),
{
    let duration_secs = match player {
        Some(p) => p.duration_secs,
        None => 0,
    };
    let position_secs = match seek {
        Some(s) => s,
        None => match player {
            Some(p) => p.position_secs,
            None => 0,
        },
    };
    let play_button = match player {
        Some(p) => if p.paused { ControlInput::Play } else { ControlInput::Pause },
        None => ControlInput::Play,
    };
    let muted_icon = match player {
        Some(p) => p.muted,
        None => false,
    };
    let mut time_text = secs_to_hhmmss(position_secs);
    time_text.append(" / ");
    let end = secs_to_hhmmss(duration_secs);
    time_text.append(end.as_str());
    ControlBar { duration_secs, position_secs, play_button, time_text, muted_icon }
}

/// What a click on the video asks for: play when paused, pause when playing,
/// nothing without a player (`None` stands for the player's paused state).
pub fn frame_click(paused: Option<bool>) -> (input: Option<ControlInput>)
    ensures
        input == (match paused {
            Some(true) => Some(ControlInput::Play),
            Some(false) => Some(ControlInput::Pause),
            None => None,
        }),
{
    match paused {
        Some(true) => Some(ControlInput::Play),
        Some(false) => Some(ControlInput::Pause),
        None => None,
    }
}

/// The play/pause and mute buttons always ask for the other state: a paused
/// player shows the play button, which unpauses it, a playing one the pause
/// button, which pauses it, and the mute button flips muted.
pub proof fn lemma_button_toggles(p: PlayerReadout, seek: Option<u64>)
    ensures
        ({
            let button = if p.paused { ControlInput::Play } else { ControlInput::Pause };
            spec_control_step(seek, button, p.muted).1 == ControlAction::SetPaused(!p.paused)
        }),
        spec_control_step(seek, ControlInput::ToggleMute, p.muted).1 == ControlAction::SetMuted(!p.muted),
{
}

/// The mute flag only decides which way the mute button goes: every other
/// event has the same outcome whether the player is muted or not, and the
/// volume slider always asks to set the volume, the play and pause buttons
/// always ask to play and to pause.
pub proof fn lemma_only_mute_reads_muted(seek: Option<u64>, input: ControlInput, muted: bool, other: bool)
    requires
        input != ControlInput::ToggleMute,
        input == ControlInput::Released ==> seek is Some,
    ensures
        spec_control_step(seek, input, muted) == spec_control_step(seek, input, other),
        spec_control_step(seek, ControlInput::Volume, muted) == (seek, ControlAction::SetVolume),
        spec_control_step(seek, ControlInput::Play, muted) == (seek, ControlAction::SetPaused(false)),
        spec_control_step(seek, ControlInput::Pause, muted) == (seek, ControlAction::SetPaused(true)),
        spec_control_step(seek, ControlInput::ToggleMute, muted) == (seek, ControlAction::SetMuted(!muted)),
{
}

} // verus!
