//! The state of one player beside its gstreamer pipeline: the settings it was
//! made with, what it learnt of the video, and the flags that decide which
//! state the pipeline is asked to enter.
use vstd::prelude::*;
use crate::player_builder::clone_opt_text;

verus! {

/// The states of a gstreamer element.
#[derive(Debug, Clone, Copy, PartialEq, Eq, Structural)]
pub enum PipelineState {
    /// no pending state
    VoidPending,
    /// the initial state
    Null,
    /// ready to go to paused
    Ready,
    /// paused, the clock is stopped
    Paused,
    /// playing, the clock runs
    Playing,
}

/// Only `Playing` counts as playing.
pub open spec fn spec_is_playing(state: PipelineState) -> bool {
    state == PipelineState::Playing
}

/// Every state but `Playing` counts as paused.
pub open spec fn spec_is_paused(state: PipelineState) -> bool {
    state != PipelineState::Playing
}

/// The state asked for when pausing (`true`) or unpausing (`false`).
pub open spec fn spec_paused_target(paused: bool) -> PipelineState {
    if paused {
        PipelineState::Paused
    } else {
        PipelineState::Playing
    }
}

/// Whether the media is playing in the given state: only `Playing` is.
pub fn is_playing(state: PipelineState) -> (playing: bool)
    ensures
        playing == spec_is_playing(state),
{
    match state {
        PipelineState::VoidPending => false,
        PipelineState::Null => false,
        PipelineState::Ready => false,
        PipelineState::Paused => false,
        PipelineState::Playing => true,
    }
}

/// Whether the media counts as paused in the given state: every state but
/// `Playing` does.
pub fn is_paused(state: PipelineState) -> (paused: bool)
    ensures
        paused == spec_is_paused(state),
{
    match state {
        PipelineState::Playing => false,
        _ => true,
    }
}

/// The state to ask the pipeline for when the media is to be paused or not.
pub fn paused_target(paused: bool) -> (state: PipelineState)
    ensures
        state == spec_paused_target(paused),
{
    if paused {
        PipelineState::Paused
    } else {
        PipelineState::Playing
    }
}

/// Asking for paused or unpaused, and then reading the state the pipeline
/// reached, gives back what was asked for; a state is paused exactly when it
/// is not playing.
pub proof fn lemma_paused_round_trip(paused: bool, state: PipelineState)
    ensures
        spec_is_paused(spec_paused_target(paused)) == paused,
        spec_is_playing(spec_paused_target(paused)) == !paused,
        spec_is_paused(state) == !spec_is_playing(state),
{
}

/// Position in the media.
#[derive(Debug, Clone, Copy, PartialEq, Eq, PartialOrd, Ord, Hash)]
pub enum Position {
    /// Position based on time.
    ///
    /// Not the most accurate format for videos.
    Time(std::time::Duration),
    /// Position based on nth frame.
    Frame(u64),
}

impl From<std::time::Duration> for Position {
    fn from(t: std::time::Duration) -> (pos: Self) {
        Position::Time(t)
    }
}

impl vstd::std_specs::convert::FromSpecImpl<std::time::Duration> for Position {
    open spec fn obeys_from_spec() -> bool {
        true
    }

    open spec fn from_spec(t: std::time::Duration) -> Self {
        Position::Time(t)
    }
}

impl From<u64> for Position {
    fn from(f: u64) -> (pos: Self) {
        Position::Frame(f)
    }
}

impl vstd::std_specs::convert::FromSpecImpl<u64> for Position {
    open spec fn obeys_from_spec() -> bool {
        true
    }

    open spec fn from_spec(f: u64) -> Self {
        Position::Frame(f)
    }
}

/// setting when creating a player
#[derive(Debug)]
pub struct VideoSettings {
    /// start player in play state
    pub auto_start: bool,
    /// if live duration won't work and trying to seek will cause a panic
    pub live: bool,
    /// vdieo uri
    pub uri: Option<String>,
}

impl Clone for VideoSettings {
    fn clone(&self) -> (copy: Self)
        ensures
            copy == *self,
    {
        VideoSettings { auto_start: self.auto_start, live: self.live, uri: clone_opt_text(&self.uri) }
    }
}

impl Default for VideoSettings {
    fn default() -> (settings: Self)
        ensures
            !settings.auto_start,
            !settings.live,
            settings.uri is None,
    {
        VideoSettings { auto_start: false, live: false, uri: None }
    }
}

/// stores some details about the video: its size and its framerate as a
/// fraction of frames per second.
#[derive(Debug, Clone, Copy, PartialEq, Eq, Structural)]
pub struct VideoDetails {
    /// width in pixels
    pub width: i32,
    /// height in pixels
    pub height: i32,
    /// numerator of the framerate
    pub framerate_numer: i32,
    /// denominator of the framerate
    pub framerate_denom: i32,
}

/// The duration that `std::time::Duration::from_nanos` makes of a number of
/// nanoseconds.
pub uninterp spec fn duration_of_nanos(nanos: u64) -> std::time::Duration;

/// Calls `std::time::Duration::from_nanos`. The contract claims only that the
/// result depends on the number of nanoseconds alone: it is `duration_of_nanos`
/// of it.
#[verifier::external_body]
fn duration_from_nanos(nanos: u64) -> (duration: std::time::Duration)
    ensures
        duration == duration_of_nanos(nanos),
{
    std::time::Duration::from_nanos(nanos)
}

/// What a [`VideoPlayer`] holds besides its pipeline.
pub struct VideoPlayerView {
    /// details of the current video, once a source was loaded
    pub video_details: Option<VideoDetails>,
    /// the media duration, in nanoseconds
    pub duration_nanos: u64,
    /// the source is live: it has no duration
    pub live: bool,
    /// audio muted
    pub muted: bool,
    /// media loops
    pub looping: bool,
    /// the stream ended
    pub is_eos: bool,
    /// the stream is to restart on the next frame
    pub restart_stream: bool,
    /// start playing once a source is loaded
    pub auto_start: bool,
}

/// The state of a video player that lives beside its gstreamer pipeline.
#[derive(Debug, Clone, Copy)]
pub struct VideoPlayer {
    video_details: Option<VideoDetails>,
    duration_nanos: u64,
    live: bool,
    muted: bool,
    looping: bool,
    is_eos: bool,
    restart_stream: bool,
    auto_start: bool,
}

impl View for VideoPlayer {
    type V = VideoPlayerView;

    closed spec fn view(&self) -> VideoPlayerView {
        VideoPlayerView {
            video_details: self.video_details,
            duration_nanos: self.duration_nanos,
            live: self.live,
            muted: self.muted,
            looping: self.looping,
            is_eos: self.is_eos,
            restart_stream: self.restart_stream,
            auto_start: self.auto_start,
        }
    }
}

/// The duration a player keeps of a queried one: none (zero) for a live source.
pub open spec fn kept_duration(live: bool, queried_nanos: u64) -> u64 {
    if live {
        0
    } else {
        queried_nanos
    }
}

impl VideoPlayerView {
    /// The state after asking for playing (`true`) or paused (`false`): a
    /// restart of the stream is asked for when playing is asked for after the
    /// stream ended.
    pub open spec fn after_set_playing(self, playing: bool) -> VideoPlayerView {
        VideoPlayerView { restart_stream: self.restart_stream || (self.is_eos && playing), ..self }
    }

    /// The state after a restart of the stream: the end of the stream is
    /// cleared, then playing is asked for.
    pub open spec fn after_restart(self) -> VideoPlayerView {
        VideoPlayerView { is_eos: false, ..self }.after_set_playing(true)
    }

    /// The state after a source was loaded with the given details and queried
    /// duration.
    pub open spec fn after_source_loaded(self, details: VideoDetails, queried_nanos: u64) -> VideoPlayerView {
        VideoPlayerView {
            video_details: Some(details),
            duration_nanos: kept_duration(self.live, queried_nanos),
            ..self
        }
    }
}

/// What a restart of the stream asks of the pipeline: the state to enter and
/// the position, in nanoseconds, to seek to.
#[derive(Debug, Clone, Copy, PartialEq, Eq, Structural)]
pub struct Restart {
    /// the state to enter
    pub target: PipelineState,
    /// the position to seek to, in nanoseconds
    pub seek_to_nanos: u64,
}

impl VideoPlayer {
    #[verifier::type_invariant]
    spec fn live_has_no_duration(&self) -> bool {
        self.live ==> self.duration_nanos == 0
    }

    /// A player made with `settings` whose pipeline reported a duration of
    /// `queried_nanos` nanoseconds: a live source gets no duration (zero), as
    /// none is queried for it. No video details yet, not muted, not looping,
    /// not at the end of the stream.
    pub fn new(settings: &VideoSettings, queried_nanos: u64) -> (player: Self)
        ensures
            player@.video_details is None,
            player@.live == settings.live,
            player@.duration_nanos == kept_duration(settings.live, queried_nanos),
            !player@.muted,
            !player@.looping,
            !player@.is_eos,
            !player@.restart_stream,
            player@.auto_start == settings.auto_start,
    {
        VideoPlayer {
            video_details: None,
            duration_nanos: if settings.live { 0 } else { queried_nanos },
            live: settings.live,
            muted: false,
            looping: false,
            is_eos: false,
            restart_stream: false,
            auto_start: settings.auto_start,
        }
    }

    /// Records what a newly set source reported (its details, and its duration
    /// unless the source is live), and returns the state the pipeline is to
    /// enter after it: paused unless the player starts by itself.
    pub fn source_loaded(&mut self, details: VideoDetails, queried_nanos: u64) -> (next: Option<PipelineState>)
        ensures
            final(self)@ == old(self)@.after_source_loaded(details, queried_nanos),
            next == (if old(self)@.auto_start { None } else { Some(PipelineState::Paused) }),
    {
        proof { use_type_invariant(&*self); }
        self.video_details = Some(details);
        self.duration_nanos = if self.live { 0 } else { queried_nanos };
        if !self.auto_start {
            Some(PipelineState::Paused)
        } else {
            None
        }
    }

    /// Get the size/resolution of the video as `(width, height)`.
    pub fn size(&self) -> (size: Option<(i32, i32)>)
        ensures
            size == (match self@.video_details {
                Some(d) => Some((d.width, d.height)),
                None => None,
            }),
    {
        if let Some(details) = &self.video_details {
            Some((details.width, details.height))
        } else {
            None
        }
    }

    /// Get the framerate of the video as a fraction of frames per second.
    pub fn framerate(&self) -> (rate: Option<(i32, i32)>)
        ensures
            rate == (match self@.video_details {
                Some(d) => Some((d.framerate_numer, d.framerate_denom)),
                None => None,
            }),
    {
        if let Some(details) = &self.video_details {
            Some((details.framerate_numer, details.framerate_denom))
        } else {
            None
        }
    }

    /// Set if the audio is muted or not, without changing the volume.
    pub fn set_muted(&mut self, muted: bool)
        ensures
            final(self)@ == (VideoPlayerView { muted, ..old(self)@ }),
    {
        proof { use_type_invariant(&*self); }
        self.muted = muted;
    }

    /// Get if the audio is muted or not.
    pub fn muted(&self) -> (muted: bool)
        ensures
            muted == self@.muted,
    {
        self.muted
    }

    /// Get if the stream ended or not.
    pub fn eos(&self) -> (eos: bool)
        ensures
            eos == self@.is_eos,
    {
        self.is_eos
    }

    /// Get if the source is live.
    pub fn live(&self) -> (live: bool)
        ensures
            live == self@.live,
    {
        self.live
    }

    /// Get if the media will loop or not.
    pub fn looping(&self) -> (looping: bool)
        ensures
            looping == self@.looping,
    {
        self.looping
    }

    /// Set if the media will loop or not.
    pub fn set_looping(&mut self, looping: bool)
        ensures
            final(self)@ == (VideoPlayerView { looping, ..old(self)@ }),
    {
        proof { use_type_invariant(&*self); }
        self.looping = looping;
    }

    /// Get if the stream is to restart on the next frame.
    pub fn restart_pending(&self) -> (pending: bool)
        ensures
            pending == self@.restart_stream,
    {
        self.restart_stream
    }

    /// Set if the media is paused or not: returns the state the pipeline is to
    /// enter, and asks for a restart of the stream when playing is asked for
    /// after the stream ended.
    pub fn set_playing_state(&mut self, playing: bool) -> (target: PipelineState)
        ensures
            target == spec_paused_target(!playing),
            final(self)@ == old(self)@.after_set_playing(playing),
    {
        proof { use_type_invariant(&*self); }
        let target = paused_target(!playing);
        if self.is_eos && playing {
            self.restart_stream = true;
        }
        target
    }

    /// Get the media duration, in nanoseconds (zero for a live source).
    pub fn duration_nanos(&self) -> (nanos: u64)
        ensures
            nanos == self@.duration_nanos,
            self@.live ==> nanos == 0,
    {
        proof { use_type_invariant(self); }
        self.duration_nanos
    }

    /// Get the media duration (zero for a live source).
    pub fn duration(&self) -> (duration: std::time::Duration)
        ensures
            duration == duration_of_nanos(self@.duration_nanos),
            self@.live ==> duration == duration_of_nanos(0),
    {
        proof { use_type_invariant(self); }
        duration_from_nanos(self.duration_nanos)
    }

    /// Restarts a stream; seeks to the first frame and unpauses, sets the `eos`
    /// flag to false.
    pub fn restart_stream(&mut self) -> (restart: Restart)
        ensures
            restart == (Restart { target: PipelineState::Playing, seek_to_nanos: 0 }),
            final(self)@ == old(self)@.after_restart(),
            !final(self)@.is_eos,
    {
        proof { use_type_invariant(&*self); }
        self.is_eos = false;
        let target = self.set_playing_state(true);
        Restart { target, seek_to_nanos: 0 }
    }
}

/// Playing after the stream ended asks for a restart of the stream; a restart
/// then clears the end of the stream and keeps that request, and a restart of a
/// stream that did not end asks for none.
pub proof fn lemma_play_after_end_restarts(player: VideoPlayerView)
    ensures
        player.is_eos ==> player.after_set_playing(true).restart_stream,
        !player.after_set_playing(true).after_restart().is_eos,
        player.is_eos ==> player.after_set_playing(true).after_restart().restart_stream,
        player.after_restart().restart_stream == player.restart_stream,
{
}

/// Asking for paused never asks for a restart: the player stays as it was.
pub proof fn lemma_pause_keeps_restart_request(player: VideoPlayerView)
    ensures
        player.after_set_playing(false) == player,
{
}

/// A live source never gets a duration: whatever duration its pipeline
/// reports, at creation or when a source is loaded, a live player keeps zero.
pub proof fn lemma_live_has_no_duration(settings: VideoSettings, queried: u64, details: VideoDetails, player: VideoPlayerView)
    requires
        player.live,
    ensures
        kept_duration(settings.live, queried) == (if settings.live { 0 } else { queried }),
        settings.live ==> kept_duration(settings.live, queried) == 0,
        player.after_source_loaded(details, queried).duration_nanos == 0,
        player.after_source_loaded(details, queried).live,
        player.after_set_playing(true).live == player.live && player.after_restart().live == player.live,
{
}

/// Loading a source replaces what the player knew of the previous one: it
/// keeps the new source's details, and the new source's queried duration for a
/// source that is not live (zero for a live one), whatever duration it held
/// before; nothing else of the player changes.
pub proof fn lemma_source_loaded_replaces(player: VideoPlayerView, details: VideoDetails, queried: u64, next: VideoDetails, next_queried: u64)
    ensures
        player.after_source_loaded(details, queried).video_details == Some(details),
        !player.live ==> player.after_source_loaded(details, queried).duration_nanos == queried,
        player.live ==> player.after_source_loaded(details, queried).duration_nanos == 0,
        !player.live ==> player.after_source_loaded(details, queried).after_source_loaded(next, next_queried).duration_nanos
            == next_queried,
        player.after_source_loaded(details, queried).after_source_loaded(next, next_queried).video_details == Some(next),
        ({
            let after = player.after_source_loaded(details, queried);
            &&& after.live == player.live
            &&& after.muted == player.muted
            &&& after.looping == player.looping
            &&& after.is_eos == player.is_eos
            &&& after.restart_stream == player.restart_stream
            &&& after.auto_start == player.auto_start
        }),
{
}

} // verus!
