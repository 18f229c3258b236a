use iced_video::player::{
    is_paused, is_playing, paused_target, PipelineState, Position, Restart, VideoDetails, VideoPlayer,
    VideoSettings,
};
use iced_video::player_builder::PlayerBuilder;
use iced_video::video_settings::VideoSettings as PlayerSettings;
use std::time::Duration;

#[test]
fn builder_defaults_and_setters() {
    let b = PlayerBuilder::new("main player");
    assert_eq!(b.id(), "main player");
    assert!(!b.auto_start());
    assert_eq!(b.uri(), None);
    let b = b.set_auto_start(true).set_uri("file:///a.mp4");
    assert_eq!(b.id(), "main player");
    assert!(b.auto_start());
    assert_eq!(b.uri(), Some("file:///a.mp4".to_string()));
    let c = b.clone();
    assert_eq!(c.id(), "main player");
    assert_eq!(c.uri(), Some("file:///a.mp4".to_string()));
}

#[test]
fn video_settings_setters() {
    let s = PlayerSettings::new("p");
    assert!(!s.auto_start() && !s.live() && s.uri().is_none());
    let s = s.set_live(true).set_auto_start(true).set_uri("rtsp://cam");
    assert_eq!(s.id(), "p");
    assert!(s.live() && s.auto_start());
    assert_eq!(s.uri(), Some("rtsp://cam".to_string()));
}

#[test]
fn default_player_settings() {
    let s = VideoSettings::default();
    assert!(!s.auto_start && !s.live && s.uri.is_none());
}

#[test]
fn pipeline_states() {
    assert!(is_playing(PipelineState::Playing));
    for s in [PipelineState::VoidPending, PipelineState::Null, PipelineState::Ready, PipelineState::Paused] {
        assert!(!is_playing(s));
        assert!(is_paused(s));
    }
    assert!(!is_paused(PipelineState::Playing));
    assert_eq!(paused_target(true), PipelineState::Paused);
    assert_eq!(paused_target(false), PipelineState::Playing);
    assert!(is_paused(paused_target(true)));
    assert!(!is_paused(paused_target(false)));
}

#[test]
fn positions() {
    assert_eq!(Position::from(Duration::from_secs(3)), Position::Time(Duration::from_secs(3)));
    assert_eq!(Position::from(42u64), Position::Frame(42));
}

fn details() -> VideoDetails {
    VideoDetails { width: 1920, height: 1080, framerate_numer: 30000, framerate_denom: 1001 }
}

const SEC: u64 = 1_000_000_000;

#[test]
fn new_player_state() {
    let settings = VideoSettings { auto_start: true, live: false, uri: None };
    let p = VideoPlayer::new(&settings, 10 * SEC);
    assert_eq!(p.size(), None);
    assert_eq!(p.framerate(), None);
    assert_eq!(p.duration(), Duration::from_secs(10));
    assert_eq!(p.duration_nanos(), 10 * SEC);
    assert!(!p.live());
    assert!(!p.muted() && !p.looping() && !p.eos() && !p.restart_pending());
}

#[test]
fn live_source_has_no_duration() {
    let settings = VideoSettings { auto_start: true, live: true, uri: None };
    let mut p = VideoPlayer::new(&settings, 10 * SEC);
    assert!(p.live());
    assert_eq!(p.duration(), Duration::ZERO);
    assert_eq!(p.source_loaded(details(), 90 * SEC), None);
    assert_eq!(p.duration(), Duration::ZERO);
    assert_eq!(p.size(), Some((1920, 1080)));
}

#[test]
fn source_loaded_pauses_unless_auto_start() {
    let mut p = VideoPlayer::new(&VideoSettings::default(), 0);
    assert_eq!(p.source_loaded(details(), 90 * SEC), Some(PipelineState::Paused));
    assert_eq!(p.size(), Some((1920, 1080)));
    assert_eq!(p.framerate(), Some((30000, 1001)));
    assert_eq!(p.duration(), Duration::from_secs(90));

    let auto = VideoSettings { auto_start: true, live: false, uri: None };
    let mut q = VideoPlayer::new(&auto, 0);
    assert_eq!(q.source_loaded(details(), 5 * SEC), None);
    assert_eq!(q.duration(), Duration::from_secs(5));
}

#[test]
fn flags_read_back() {
    let mut p = VideoPlayer::new(&VideoSettings::default(), 0);
    p.set_muted(true);
    assert!(p.muted());
    p.set_looping(true);
    assert!(p.looping());
    p.set_muted(false);
    assert!(!p.muted());
    assert!(p.looping());
}

#[test]
fn playing_state_targets() {
    let mut p = VideoPlayer::new(&VideoSettings::default(), 0);
    assert_eq!(p.set_playing_state(true), PipelineState::Playing);
    assert!(!p.restart_pending());
    assert_eq!(p.set_playing_state(false), PipelineState::Paused);
}

#[test]
fn restart_unpauses_from_the_start() {
    let mut p = VideoPlayer::new(&VideoSettings::default(), 0);
    assert_eq!(p.restart_stream(), Restart { target: PipelineState::Playing, seek_to_nanos: 0 });
    assert!(!p.eos());
    assert!(!p.restart_pending());
}
