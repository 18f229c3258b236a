//! PlayerBuilder is used to configure the player before it is created
use vstd::prelude::*;

verus! {

/// setting when creating a player
#[derive(Debug)]
pub struct PlayerBuilder {
    /// id of the player used for subscription and accesing player
    id: String,
    /// start player in play state
    auto_start: bool,
    /// vdieo uri
    uri: Option<String>,
}

/// What a [`PlayerBuilder`] holds.
pub struct PlayerBuilderView {
    /// id of the player
    pub id: Seq<char>,
    /// start player in play state
    pub auto_start: bool,
    /// video uri
    pub uri: Option<Seq<char>>,
}

/// The characters of an optional string.
pub open spec fn opt_text(s: Option<String>) -> Option<Seq<char>> {
    match s {
        Some(s) => Some(s@),
        None => None,
    }
}

impl View for PlayerBuilder {
    type V = PlayerBuilderView;

    closed spec fn view(&self) -> PlayerBuilderView {
        PlayerBuilderView { id: self.id@, auto_start: self.auto_start, uri: opt_text(self.uri) }
    }
}

/// A copy of an optional string.
pub fn clone_opt_text(s: &Option<String>) -> (copy: Option<String>)
    ensures
        copy == *s,
{
    match s {
        Some(s) => Some(s.clone()),
        None => None,
    }
}

impl Clone for PlayerBuilder {
    fn clone(&self) -> (copy: Self)
        ensures
            copy@ == self@,
    {
        PlayerBuilder { id: self.id.clone(), auto_start: self.auto_start, uri: clone_opt_text(&self.uri) }
    }
}

impl PlayerBuilder {
    /// create a new video settings
    ///
    /// The player does not start by itself and has no uri yet.
    pub fn new(id: &str) -> (settings: Self)
        ensures
            settings@.id == id@,
            !settings@.auto_start,
            settings@.uri is None,
    {
        PlayerBuilder { id: id.to_owned(), auto_start: false, uri: None }
    }

    /// start player in play state
    pub fn set_auto_start(self, auto_start: bool) -> (settings: Self)
        ensures
            settings@ == (PlayerBuilderView { auto_start, ..self@ }),
    {
        let mut s = self;
        s.auto_start = auto_start;
        s
    }

    /// vdieo uri can be set later
    pub fn set_uri(self, uri: &str) -> (settings: Self)
        ensures
            settings@ == (PlayerBuilderView { uri: Some(uri@), ..self@ }),
    {
        let mut s = self;
        s.uri = Some(uri.to_owned());
        s
    }

    /// id of the player used for subscription and accesing player
    pub fn id(&self) -> (id: &str)
        ensures
            id@ == self@.id,
    {
        self.id.as_str()
    }

    /// whether the player starts in play state
    pub fn auto_start(&self) -> (auto_start: bool)
        ensures
            auto_start == self@.auto_start,
    {
        self.auto_start
    }

    /// the video uri, if one was set
    pub fn uri(&self) -> (uri: Option<String>)
        ensures
            opt_text(uri) == self@.uri,
    {
        clone_opt_text(&self.uri)
    }
}

} // verus!
