use iced_video::player::Position;
use iced_video::controls::{control_bar, control_step, frame_click, ControlAction, ControlInput, PlayerReadout};
use iced_video::keypress::{key_action, seek_in_range, seek_target, Key, KeyAction, Modifiers, NamedKey, PlayerFlags, SeekDirection};
use iced_video::menu::{menu_action, MenuAction, MenuEvent};
use iced_video::theme::Application;

const NONE: Modifiers = Modifiers { shift: false, control: false, alt: false, logo: false };
const SHIFT: Modifiers = Modifiers { shift: true, control: false, alt: false, logo: false };
const ALT: Modifiers = Modifiers { shift: false, control: false, alt: true, logo: false };
const CTRL: Modifiers = Modifiers { shift: false, control: true, alt: false, logo: false };
const FLAGS: PlayerFlags = PlayerFlags { playing: true, looping: false, muted: false };
const LOGO: Modifiers = Modifiers { shift: false, control: false, alt: false, logo: true };

fn ch(s: &str) -> Key {
    Key::Character(s.to_string())
}

#[test]
fn character_bindings() {
    assert_eq!(key_action(&ch("O"), NONE, FLAGS), KeyAction::OpenFile);
    assert_eq!(key_action(&ch("L"), NONE, FLAGS), KeyAction::SetLooping(true));
    assert_eq!(key_action(&ch("["), NONE, FLAGS), KeyAction::SlowDown);
    assert_eq!(key_action(&ch("]"), NONE, FLAGS), KeyAction::SpeedUp);
    assert_eq!(key_action(&ch("="), NONE, FLAGS), KeyAction::NormalSpeed);
    assert_eq!(key_action(&ch("M"), NONE, FLAGS), KeyAction::SetMuted(true));
    assert_eq!(key_action(&ch("o"), NONE, FLAGS), KeyAction::Nothing);
    assert_eq!(key_action(&ch("O"), CTRL, FLAGS), KeyAction::Nothing);
    assert_eq!(key_action(&ch("M"), SHIFT, FLAGS), KeyAction::Nothing);
}

#[test]
fn named_bindings() {
    assert_eq!(key_action(&Key::Named(NamedKey::Space), NONE, FLAGS), KeyAction::SetPaused(true));
    assert_eq!(key_action(&Key::Named(NamedKey::Space), SHIFT, FLAGS), KeyAction::Nothing);
    assert_eq!(key_action(&Key::Named(NamedKey::ArrowUp), NONE, FLAGS), KeyAction::VolumeUp);
    assert_eq!(key_action(&Key::Named(NamedKey::ArrowDown), NONE, FLAGS), KeyAction::VolumeDown);
    assert_eq!(key_action(&Key::Named(NamedKey::ArrowUp), CTRL, FLAGS), KeyAction::Nothing);
    assert_eq!(key_action(&Key::Named(NamedKey::Other), NONE, FLAGS), KeyAction::Nothing);
    assert_eq!(key_action(&Key::Unidentified, NONE, FLAGS), KeyAction::Nothing);
}

#[test]
fn toggles_follow_the_player() {
    let paused_looping_muted = PlayerFlags { playing: false, looping: true, muted: true };
    assert_eq!(key_action(&Key::Named(NamedKey::Space), NONE, paused_looping_muted), KeyAction::SetPaused(false));
    assert_eq!(key_action(&ch("L"), NONE, paused_looping_muted), KeyAction::SetLooping(false));
    assert_eq!(key_action(&ch("M"), NONE, paused_looping_muted), KeyAction::SetMuted(false));
    assert_eq!(key_action(&ch("X"), NONE, paused_looping_muted), KeyAction::Nothing);
}

#[test]
fn arrow_seeks() {
    let right = Key::Named(NamedKey::ArrowRight);
    let left = Key::Named(NamedKey::ArrowLeft);
    assert_eq!(key_action(&right, NONE, FLAGS), KeyAction::Seek(SeekDirection::Forward, 1));
    assert_eq!(key_action(&right, SHIFT, FLAGS), KeyAction::Seek(SeekDirection::Forward, 3));
    assert_eq!(key_action(&right, ALT, FLAGS), KeyAction::Seek(SeekDirection::Forward, 10));
    assert_eq!(key_action(&right, CTRL, FLAGS), KeyAction::Seek(SeekDirection::Forward, 60));
    assert_eq!(key_action(&left, NONE, FLAGS), KeyAction::Seek(SeekDirection::Backward, 1));
    assert_eq!(key_action(&left, SHIFT, FLAGS), KeyAction::Seek(SeekDirection::Backward, 3));
    assert_eq!(key_action(&left, ALT, FLAGS), KeyAction::Seek(SeekDirection::Backward, 10));
    assert_eq!(key_action(&left, CTRL, FLAGS), KeyAction::Seek(SeekDirection::Backward, 60));
    assert_eq!(key_action(&left, LOGO, FLAGS), KeyAction::Nothing);
    let shift_alt = Modifiers { shift: true, control: false, alt: true, logo: false };
    assert_eq!(key_action(&right, shift_alt, FLAGS), KeyAction::Seek(SeekDirection::Forward, 3));
}

#[test]
fn seek_targets() {
    const SEC: u64 = 1_000_000_000;
    assert_eq!(seek_target(10 * SEC + 500, SeekDirection::Forward, 3), 13 * SEC + 500);
    assert_eq!(seek_target(10 * SEC, SeekDirection::Backward, 10), 0);
    assert_eq!(seek_target(3 * SEC + 500, SeekDirection::Backward, 3), 500);
    assert_eq!(seek_target(seek_target(42, SeekDirection::Forward, 60), SeekDirection::Backward, 60), 42);
    assert!(seek_in_range(2 * SEC, SeekDirection::Backward, 2));
    assert!(!seek_in_range(2 * SEC + 999_999_999, SeekDirection::Backward, 3));
    assert!(!seek_in_range(u64::MAX, SeekDirection::Forward, 1));
    assert!(seek_in_range(u64::MAX - SEC, SeekDirection::Forward, 1));
    assert!(!seek_in_range(0, SeekDirection::Forward, u64::MAX));
}

#[test]
fn control_events() {
    assert_eq!(control_step(None, ControlInput::Play, false), (None, ControlAction::SetPaused(false)));
    assert_eq!(control_step(Some(4), ControlInput::Pause, false), (Some(4), ControlAction::SetPaused(true)));
    assert_eq!(control_step(None, ControlInput::ToggleMute, false), (None, ControlAction::SetMuted(true)));
    assert_eq!(control_step(None, ControlInput::ToggleMute, true), (None, ControlAction::SetMuted(false)));
    assert_eq!(control_step(None, ControlInput::Volume, false), (None, ControlAction::SetVolume));
    let (seek, action) = control_step(None, ControlInput::Seek(30), false);
    assert_eq!((seek, action), (Some(30), ControlAction::Nothing));
    let (seek, action) = control_step(seek, ControlInput::Seek(45), false);
    assert_eq!((seek, action), (Some(45), ControlAction::Nothing));
    assert_eq!(control_step(seek, ControlInput::Released, false), (None, ControlAction::SeekTo(45)));
}

#[test]
fn control_bar_without_player() {
    let bar = control_bar(None, None);
    assert_eq!(bar.duration_secs, 0);
    assert_eq!(bar.position_secs, 0);
    assert_eq!(bar.play_button, ControlInput::Play);
    assert_eq!(bar.time_text, "0:00 / 0:00");
    assert!(!bar.muted_icon);
}

#[test]
fn control_bar_with_player() {
    let p = PlayerReadout { duration_secs: 3725, position_secs: 65, paused: false, muted: true };
    let bar = control_bar(Some(p), None);
    assert_eq!(bar.duration_secs, 3725);
    assert_eq!(bar.position_secs, 65);
    assert_eq!(bar.play_button, ControlInput::Pause);
    assert_eq!(bar.time_text, "1:05 / 1:02:05");
    assert!(bar.muted_icon);
    let dragging = control_bar(Some(PlayerReadout { paused: true, muted: false, ..p }), Some(600));
    assert_eq!(dragging.position_secs, 600);
    assert_eq!(dragging.play_button, ControlInput::Play);
    assert_eq!(dragging.time_text, "10:00 / 1:02:05");
    assert!(!dragging.muted_icon);
}

#[test]
fn clicks_on_video() {
    assert_eq!(frame_click(Some(true)), Some(ControlInput::Play));
    assert_eq!(frame_click(Some(false)), Some(ControlInput::Pause));
    assert_eq!(frame_click(None), None);
}

#[test]
fn positions_are_ordered() {
    assert!(Position::Frame(1) < Position::Frame(2));
}

#[test]
fn menu_events() {
    assert!(matches!(menu_action(MenuEvent::OpenFileDialog), MenuAction::ShowFileDialog));
    assert!(matches!(menu_action(MenuEvent::OpenFile(Some("a.mp4".to_string()))), MenuAction::SetSource(u) if u == "a.mp4"));
    assert!(matches!(menu_action(MenuEvent::OpenFile(None)), MenuAction::Nothing));
}

#[test]
fn default_application_style() {
    assert_eq!(Application::default(), Application::Default);
}
