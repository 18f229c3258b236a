//! VideoSettings is used to configure a player before it is created.
use vstd::prelude::*;
use crate::player_builder::{clone_opt_text, opt_text};

verus! {

/// setting when creating a player
#[derive(Debug)]
pub struct VideoSettings {
    /// id of the player used for subscription and accesing player
    id: String,
    /// start player in play state
    auto_start: bool,
    /// if live duration won't work and trying to seek will cause a panic
    live: bool,
    /// vdieo uri
    uri: Option<String>,
}

/// What a [`VideoSettings`] holds.
pub struct VideoSettingsView {
    /// id of the player
    pub id: Seq<char>,
    /// start player in play state
    pub auto_start: bool,
    /// the source is live
    pub live: bool,
    /// video uri
    pub uri: Option<Seq<char>>,
}

impl View for VideoSettings {
    type V = VideoSettingsView;

    closed spec fn view(&self) -> VideoSettingsView {
        VideoSettingsView {
            id: self.id@,
            auto_start: self.auto_start,
            live: self.live,
            uri: opt_text(self.uri),
        }
    }
}

impl Clone for VideoSettings {
    fn clone(&self) -> (copy: Self)
        ensures
            copy@ == self@,
    {
        VideoSettings {
            id: self.id.clone(),
            auto_start: self.auto_start,
            live: self.live,
            uri: clone_opt_text(&self.uri),
        }
    }
}

impl VideoSettings {
    /// Settings for the player `id`: not started by itself, not live, no uri yet.
    pub fn new(id: &str) -> (settings: Self)
        ensures
            settings@.id == id@,
            !settings@.auto_start,
            !settings@.live,
            settings@.uri is None,
    {
        VideoSettings { id: id.to_owned(), auto_start: false, live: false, uri: None }
    }

    /// start player in play state
    pub fn set_auto_start(self, auto_start: bool) -> (settings: Self)
        ensures
            settings@ == (VideoSettingsView { auto_start, ..self@ }),
    {
        let mut s = self;
        s.auto_start = auto_start;
        s
    }

    /// if live duration won't work and trying to seek will cause a panic
    pub fn set_live(self, live: bool) -> (settings: Self)
        ensures
            settings@ == (VideoSettingsView { live, ..self@ }),
    {
        let mut s = self;
        s.live = live;
        s
    }

    /// vdieo uri can be set later
    pub fn set_uri(self, uri: &str) -> (settings: Self)
        ensures
            settings@ == (VideoSettingsView { uri: Some(uri@), ..self@ }),
    {
        let mut s = self;
        s.uri = Some(uri.to_owned());
        s
    }

    /// id of the player
    pub fn id(&self) -> (id: &str)
        ensures
            id@ == self@.id,
    {
        self.id.as_str()
    }

    /// whether the player starts in play state
    pub fn auto_start(&self) -> (auto_start: bool)
        ensures
            auto_start == self@.auto_start,
    {
        self.auto_start
    }

    /// whether the source is live
    pub fn live(&self) -> (live: bool)
        ensures
            live == self@.live,
    {
        self.live
    }

    /// the video uri, if one was set
    pub fn uri(&self) -> (uri: Option<String>)
        ensures
            opt_text(uri) == self@.uri,
    {
        clone_opt_text(&self.uri)
    }
}

} // verus!
