use iced_video::player_builder::PlayerBuilder;
use iced_video::player_handler::{PlayerHandler, PlayerMessage};

type Handler = PlayerHandler<u32, &'static str>;
type Msg = PlayerMessage<u32, &'static str, String>;

#[test]
fn empty_handler() {
    let h = Handler::default();
    assert!(h.get_player("main player").is_none());
    assert!(h.get_frame("main player").is_none());
    assert!(h.players_and_images().is_empty());
    assert!(h.player_settings().is_empty());
}

#[test]
fn start_players_in_order() {
    let mut h = Handler::new();
    h.start_player(PlayerBuilder::new("a"));
    h.start_player(PlayerBuilder::new("b").set_auto_start(true));
    let ids: Vec<&str> = h.player_settings().iter().map(|b| b.id()).collect();
    assert_eq!(ids, vec!["a", "b"]);
    assert!(h.player_settings()[1].auto_start());
}

#[test]
fn player_read_after_write() {
    let mut h = Handler::new();
    assert!(h.handle_event(Msg::Player("main player".to_string(), 1)).is_none());
    assert_eq!(h.get_player("main player"), Some(&1));
    assert!(h.handle_event(Msg::Player("other".to_string(), 2)).is_none());
    assert!(h.handle_event(Msg::Player("main player".to_string(), 3)).is_none());
    assert_eq!(h.get_player("main player"), Some(&3));
    assert_eq!(h.get_player("other"), Some(&2));
    assert_eq!(h.get_all_players().len(), 2);
}

#[test]
fn frames_read_after_write() {
    let mut h = Handler::new();
    assert!(h.handle_event(Msg::Frame("p".to_string(), "frame 1")).is_none());
    assert!(h.handle_event(Msg::Frame("p".to_string(), "frame 2")).is_none());
    assert_eq!(h.get_frame("p"), Some(&"frame 2"));
    assert_eq!(h.get_all_images().len(), 1);
    assert!(h.get_player("p").is_none());
}

#[test]
fn pipeline_messages_pass_through() {
    let mut h = Handler::new();
    let passed = h.handle_event(Msg::Message("p".to_string(), "eos".to_string()));
    assert_eq!(passed, Some(("p".to_string(), "eos".to_string())));
    assert!(h.get_player("p").is_none());
    assert!(h.get_frame("p").is_none());
}

#[test]
fn player_mut_writes_back() {
    let mut h = Handler::new();
    h.handle_event(Msg::Player("p".to_string(), 10));
    *h.get_player_mut("p").unwrap() += 5;
    assert_eq!(h.get_player("p"), Some(&15));
    assert!(h.get_player_mut("q").is_none());
}

#[test]
fn only_players_with_images() {
    let mut h = Handler::new();
    h.handle_event(Msg::Player("a".to_string(), 1));
    h.handle_event(Msg::Player("b".to_string(), 2));
    h.handle_event(Msg::Frame("b".to_string(), "img b"));
    h.handle_event(Msg::Frame("c".to_string(), "img c"));
    let zipped = h.players_and_images();
    assert_eq!(zipped.len(), 1);
    assert_eq!(zipped[0].0, "b");
    assert_eq!(*zipped[0].1, 2);
    assert_eq!(*zipped[0].2, "img b");
}
