//! A struct that handles all the players and images
//! offers a high level api to interact with the players
use vstd::prelude::*;
use crate::keyed_entries::{get_keyed, get_keyed_mut, has_key, insert_keyed, keyed_map, lemma_keyed_map_at, unique_keys};
use crate::player_builder::{PlayerBuilder, PlayerBuilderView};

verus! {

/// The messages that the players send: a new player, a new frame of a player,
/// or a message of a player's pipeline, each with the id of the player.
#[derive(Debug)]
pub enum PlayerMessage<P, I, M> {
    /// The player id and the player.
    Player(String, P),
    /// The player id and the image.
    Frame(String, I),
    /// The player id and the message.
    Message(String, M),
}

impl<P: Clone, I: Clone, M: Clone> Clone for PlayerMessage<P, I, M> {
    fn clone(&self) -> (copy: Self)
        ensures
            match (*self, copy) {
                (PlayerMessage::Player(id, p), PlayerMessage::Player(id2, p2)) => id2 == id && cloned(p, p2),
                (PlayerMessage::Frame(id, i), PlayerMessage::Frame(id2, i2)) => id2 == id && cloned(i, i2),
                (PlayerMessage::Message(id, m), PlayerMessage::Message(id2, m2)) => id2 == id && cloned(m, m2),
                _ => false,
            },
    {
        match self {
            PlayerMessage::Player(id, p) => PlayerMessage::Player(id.clone(), p.clone()),
            PlayerMessage::Frame(id, i) => PlayerMessage::Frame(id.clone(), i.clone()),
            PlayerMessage::Message(id, m) => PlayerMessage::Message(id.clone(), m.clone()),
        }
    }
}

/// A struct that handles all the players and images
#[derive(Debug)]
pub struct PlayerHandler<P, I> {
    subscriptions: Vec<PlayerBuilder>,
    players: Vec<(String, P)>,
    images: Vec<(String, I)>,
}

/// What a [`PlayerHandler`] holds: the settings of the players it was asked to
/// start, in order, and the players and latest frames by player id.
pub struct PlayerHandlerView<P, I> {
    /// the settings of the players to start
    pub subscriptions: Seq<PlayerBuilderView>,
    /// the players by id
    pub players: Map<Seq<char>, P>,
    /// the latest frame of each player by id
    pub images: Map<Seq<char>, I>,
}

impl<P, I> View for PlayerHandler<P, I> {
    type V = PlayerHandlerView<P, I>;

    closed spec fn view(&self) -> PlayerHandlerView<P, I> {
        PlayerHandlerView {
            subscriptions: self.subscriptions@.map_values(|b: PlayerBuilder| b@),
            players: keyed_map(self.players@),
            images: keyed_map(self.images@),
        }
    }
}

impl<P, I> PlayerHandlerView<P, I> {
    /// The handler after it handled `message`: a player or a frame is stored
    /// under its id, replacing what was there; a pipeline message changes nothing.
    pub open spec fn after_event<M>(self, message: PlayerMessage<P, I, M>) -> PlayerHandlerView<P, I> {
        match message {
            PlayerMessage::Player(id, player) => PlayerHandlerView { players: self.players.insert(id@, player), ..self },
            PlayerMessage::Frame(id, image) => PlayerHandlerView { images: self.images.insert(id@, image), ..self },
            PlayerMessage::Message(_, _) => self,
        }
    }
}

impl<P, I> PlayerHandler<P, I> {
    /// No player id and no image id is stored twice.
    pub closed spec fn well_formed(&self) -> bool {
        unique_keys(self.players@) && unique_keys(self.images@)
    }

    /// A handler without players, frames or settings.
    pub fn new() -> (handler: Self)
        ensures
            handler.well_formed(),
            handler@.subscriptions == Seq::<PlayerBuilderView>::empty(),
            handler@.players == Map::<Seq<char>, P>::empty(),
            handler@.images == Map::<Seq<char>, I>::empty(),
    {
        let handler = PlayerHandler { subscriptions: Vec::new(), players: Vec::new(), images: Vec::new() };
        assert(handler@.subscriptions =~= Seq::<PlayerBuilderView>::empty());
        assert(handler@.players =~= Map::<Seq<char>, P>::empty());
        assert(handler@.images =~= Map::<Seq<char>, I>::empty());
        handler
    }

    /// start a new player
    pub fn start_player(&mut self, settings: PlayerBuilder)
        requires
            old(self).well_formed(),
        ensures
            final(self).well_formed(),
            final(self)@ == (PlayerHandlerView { subscriptions: old(self)@.subscriptions.push(settings@), ..old(self)@ }),
    {
        self.subscriptions.push(settings);
        assert(self@.subscriptions =~= old(self)@.subscriptions.push(settings@));
    }

    /// the settings of the players to start, in the order they were given
    pub fn player_settings(&self) -> (settings: &Vec<PlayerBuilder>)
        ensures
            settings@.map_values(|b: PlayerBuilder| b@) == self@.subscriptions,
    {
        &self.subscriptions
    }

    /// handle the messages from the subscriptions
    ///
    /// A new player or frame is stored under its id; a pipeline message is
    /// handed back with its id.
    pub fn handle_event<M>(&mut self, message: PlayerMessage<P, I, M>) -> (passed: Option<(String, M)>)
        requires
            old(self).well_formed(),
        ensures
            final(self).well_formed(),
            final(self)@ == old(self)@.after_event(message),
            passed == (match message {
                PlayerMessage::Message(id, m) => Some((id, m)),
                _ => None,
            }),
    {
        match message {
            PlayerMessage::Player(id, player) => {
                insert_keyed(&mut self.players, id, player);
                None
            },
            PlayerMessage::Frame(id, image) => {
                insert_keyed(&mut self.images, id, image);
                None
            },
            PlayerMessage::Message(id, m) => Some((id, m)),
        }
    }

    /// get a mutable reference to the player
    ///
    /// What is written through it becomes the player stored under `id`.
    pub fn get_player_mut(&mut self, id: &str) -> (player: Option<&mut P>)
        requires
            old(self).well_formed(),
        ensures
            final(self).well_formed(),
            player is Some <==> old(self)@.players.contains_key(id@),
            player is Some ==> {
                &&& *player.unwrap() == old(self)@.players[id@]
                &&& final(self)@ == (PlayerHandlerView {
                    players: old(self)@.players.insert(id@, *final(player.unwrap())),
                    ..old(self)@
                })
            },
            player is None ==> final(self)@ == old(self)@,
    {
        get_keyed_mut(&mut self.players, id)
    }

    /// get a reference to the player
    pub fn get_player(&self, id: &str) -> (player: Option<&P>)
        requires
            self.well_formed(),
        ensures
            match player {
                Some(p) => self@.players.contains_key(id@) && *p == self@.players[id@],
                None => !self@.players.contains_key(id@),
            },
    {
        get_keyed(&self.players, id)
    }

    /// get all the players, each with its id; no id occurs twice
    pub fn get_all_players(&self) -> (players: &Vec<(String, P)>)
        requires
            self.well_formed(),
        ensures
            unique_keys(players@),
            keyed_map(players@) == self@.players,
    {
        &self.players
    }

    /// get a reference to the image
    pub fn get_frame(&self, id: &str) -> (image: Option<&I>)
        requires
            self.well_formed(),
        ensures
            match image {
                Some(i) => self@.images.contains_key(id@) && *i == self@.images[id@],
                None => !self@.images.contains_key(id@),
            },
    {
        get_keyed(&self.images, id)
    }

    /// get all the images, each with its player's id; no id occurs twice
    pub fn get_all_images(&self) -> (images: &Vec<(String, I)>)
        requires
            self.well_formed(),
        ensures
            unique_keys(images@),
            keyed_map(images@) == self@.images,
    {
        &self.images
    }

    /// get all the players and images zipped together
    /// will only return the players that have an image
    ///
    /// Each id that has both a player and an image occurs exactly once, with
    /// that player and that image, and no other id occurs.
    pub fn players_and_images(&self) -> (zipped: Vec<(&String, &P, &I)>)
        requires
            self.well_formed(),
        ensures
            forall|k: int| 0 <= k < zipped@.len() ==> {
                let id = (#[trigger] zipped@[k]).0@;
                &&& self@.players.contains_key(id)
                &&& self@.images.contains_key(id)
                &&& *zipped@[k].1 == self@.players[id]
                &&& *zipped@[k].2 == self@.images[id]
            },
            forall|id: Seq<char>| #[trigger] self@.players.contains_key(id) && self@.images.contains_key(id)
                ==> exists|k: int| 0 <= k < zipped@.len() && (#[trigger] zipped@[k]).0@ == id,
            forall|a: int, b: int| 0 <= a < zipped@.len() && 0 <= b < zipped@.len() && a != b
                ==> (#[trigger] zipped@[a]).0@ != (#[trigger] zipped@[b]).0@,
    {
        let mut zipped: Vec<(&String, &P, &I)> = Vec::new();
        let n = self.players.len();
        for i in 0..n
            invariant
                n == self.players@.len(),
                unique_keys(self.players@),
                unique_keys(self.images@),
                forall|k: int| 0 <= k < zipped@.len() ==> {
                    let id = (#[trigger] zipped@[k]).0@;
                    &&& keyed_map(self.players@).contains_key(id)
                    &&& keyed_map(self.images@).contains_key(id)
                    &&& *zipped@[k].1 == keyed_map(self.players@)[id]
                    &&& *zipped@[k].2 == keyed_map(self.images@)[id]
                    &&& exists|j: int| 0 <= j < i && (#[trigger] self.players@[j]).0@ == id
                },
                forall|j: int| 0 <= j < i && #[trigger] has_key(self.images@, self.players@[j].0@)
                    ==> exists|k: int| 0 <= k < zipped@.len() && (#[trigger] zipped@[k]).0@ == self.players@[j].0@,
                forall|a: int, b: int| 0 <= a < zipped@.len() && 0 <= b < zipped@.len() && a != b
                    ==> (#[trigger] zipped@[a]).0@ != (#[trigger] zipped@[b]).0@,
        {
            let entry = &self.players[i];
            proof { lemma_keyed_map_at(self.players@, i as int); }
            match get_keyed(&self.images, entry.0.as_str()) {
                Some(image) => {
                    let ghost before = zipped@;
                    proof {
                        assert forall|k: int| 0 <= k < before.len() implies (#[trigger] before[k]).0@ != entry.0@ by {
                            let j = choose|j: int| 0 <= j < i && (#[trigger] self.players@[j]).0@ == before[k].0@;
                            assert(j != i);
                        }
                    }
                    zipped.push((&entry.0, &entry.1, image));
                    proof {
                        assert forall|k: int| 0 <= k < zipped@.len() implies {
                            let id = (#[trigger] zipped@[k]).0@;
                            exists|j: int| 0 <= j < i + 1 && (#[trigger] self.players@[j]).0@ == id
                        } by {
                            if k < before.len() {
                                assert(zipped@[k] == before[k]);
                                let j = choose|j: int| 0 <= j < i && (#[trigger] self.players@[j]).0@ == before[k].0@;
                            } else {
                                assert(self.players@[i as int].0@ == zipped@[k].0@);
                            }
                        }
                        assert forall|j: int| 0 <= j < i + 1 && #[trigger] has_key(self.images@, self.players@[j].0@)
                            implies exists|k: int| 0 <= k < zipped@.len() && (#[trigger] zipped@[k]).0@ == self.players@[j].0@ by {
                            if j < i {
                                let k = choose|k: int| 0 <= k < before.len() && (#[trigger] before[k]).0@ == self.players@[j].0@;
                                assert(zipped@[k] == before[k]);
                            } else {
                                assert(zipped@[before.len() as int].0@ == self.players@[j].0@);
                            }
                        }
                    }
                },
                None => {
                    proof {
                        assert forall|j: int| 0 <= j < i + 1 && #[trigger] has_key(self.images@, self.players@[j].0@)
                            implies exists|k: int| 0 <= k < zipped@.len() && (#[trigger] zipped@[k]).0@ == self.players@[j].0@ by {
                            assert(j != i);
                        }
                    }
                },
            }
        }
        proof {
            assert forall|id: Seq<char>| #[trigger] keyed_map(self.players@).contains_key(id) && keyed_map(self.images@).contains_key(id)
                implies exists|k: int| 0 <= k < zipped@.len() && (#[trigger] zipped@[k]).0@ == id by {
                let j = choose|j: int| 0 <= j < self.players@.len() && (#[trigger] self.players@[j]).0@ == id;
                assert(has_key(self.images@, self.players@[j].0@));
            }
        }
        zipped
    }
}

impl<P, I> Default for PlayerHandler<P, I> {
    fn default() -> (handler: Self)
        ensures
            handler.well_formed(),
            handler@.subscriptions == Seq::<PlayerBuilderView>::empty(),
            handler@.players == Map::<Seq<char>, P>::empty(),
            handler@.images == Map::<Seq<char>, I>::empty(),
    {
        PlayerHandler::new()
    }
}

/// What a handler stores is what it hands back: after a player (a frame) was
/// handled under an id, that id yields that player (that frame), and every other
/// id yields what it yielded before.
pub proof fn lemma_read_after_handle<P, I, M>(handler: PlayerHandlerView<P, I>, id: String, player: P, image: I, other: Seq<char>)
    requires
        other != id@,
    ensures
        handler.after_event(PlayerMessage::<P, I, M>::Player(id, player)).players.contains_key(id@),
        handler.after_event(PlayerMessage::<P, I, M>::Player(id, player)).players[id@] == player,
        handler.after_event(PlayerMessage::<P, I, M>::Player(id, player)).players.contains_key(other)
            == handler.players.contains_key(other),
        handler.after_event(PlayerMessage::<P, I, M>::Player(id, player)).players[other] == handler.players[other],
        handler.after_event(PlayerMessage::<P, I, M>::Player(id, player)).images == handler.images,
        handler.after_event(PlayerMessage::<P, I, M>::Frame(id, image)).images.contains_key(id@),
        handler.after_event(PlayerMessage::<P, I, M>::Frame(id, image)).images[id@] == image,
        handler.after_event(PlayerMessage::<P, I, M>::Frame(id, image)).images.contains_key(other)
            == handler.images.contains_key(other),
        handler.after_event(PlayerMessage::<P, I, M>::Frame(id, image)).images[other] == handler.images[other],
        handler.after_event(PlayerMessage::<P, I, M>::Frame(id, image)).players == handler.players,
{
}

/// A pipeline message is handed back and leaves the handler as it was.
pub proof fn lemma_message_leaves_handler<P, I, M>(handler: PlayerHandlerView<P, I>, id: String, message: M)
    ensures
        handler.after_event(PlayerMessage::<P, I, M>::Message(id, message)) == handler,
{
}

/// Handling the same player or frame twice is the same as handling it once.
pub proof fn lemma_handle_idempotent<P, I, M>(handler: PlayerHandlerView<P, I>, message: PlayerMessage<P, I, M>)
    ensures
        handler.after_event(message).after_event(message) == handler.after_event(message),
{
    match message {
        PlayerMessage::Player(id, p) => {
            assert(handler.players.insert(id@, p).insert(id@, p) =~= handler.players.insert(id@, p));
        },
        PlayerMessage::Frame(id, i) => {
            assert(handler.images.insert(id@, i).insert(id@, i) =~= handler.images.insert(id@, i));
        },
        PlayerMessage::Message(_, _) => {},
    }
}

} // verus!
