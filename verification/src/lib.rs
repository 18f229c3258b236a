//! # Iced Player
//! The decisions of a video player built with iced and gstreamer: what the
//! controls show, what a key press or a control does to the player, how
//! gstreamer tags become Rust tags, and the bookkeeping of several players.
pub mod helpers;
pub mod tag_convert;
pub mod player_builder;
pub mod video_settings;
pub mod player;
pub mod keyed_entries;
pub mod player_handler;
pub mod keypress;
pub mod controls;
pub mod menu;
pub mod theme;
