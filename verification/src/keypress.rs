//! The keyboard bindings of the player: which key press does what.
//!
//! `O` opens a file, space plays or pauses, `L` toggles looping, `[` / `]` / `=`
//! slow down, speed up or reset the playing speed, the left and right arrows seek
//! backward and forward (1 second, 3 with shift, 10 with alt, 60 with control),
//! the up and down arrows change the volume and `M` mutes or unmutes.
use vstd::prelude::*;

verus! {

/// The named keys that have a binding.
#[derive(Debug, Clone, Copy, PartialEq, Eq, Structural)]
pub enum NamedKey {
    /// the space bar
    Space,
    /// left arrow
    ArrowLeft,
    /// right arrow
    ArrowRight,
    /// up arrow
    ArrowUp,
    /// down arrow
    ArrowDown,
    /// any other named key
    Other,
}

/// A pressed key: the text it types, or its name.
#[derive(Debug)]
pub enum Key {
    /// a key that types text
    Character(String),
    /// a named key
    Named(NamedKey),
    /// a key that could not be identified
    Unidentified,
}

/// The modifier keys held during a key press.
#[derive(Debug, Clone, Copy, PartialEq, Eq, Structural)]
pub struct Modifiers {
    /// shift held
    pub shift: bool,
    /// control held
    pub control: bool,
    /// alt held
    pub alt: bool,
    /// the logo key held
    pub logo: bool,
}

impl Modifiers {
    /// No modifier is held.
    pub open spec fn spec_is_empty(self) -> bool {
        !self.shift && !self.control && !self.alt && !self.logo
    }

    /// Whether no modifier is held.
    pub fn is_empty(&self) -> (empty: bool)
        ensures
            empty == self.spec_is_empty(),
    {
        !self.shift && !self.control && !self.alt && !self.logo
    }
}

/// The direction of a seek.
#[derive(Debug, Clone, Copy, PartialEq, Eq, Structural)]
pub enum SeekDirection {
    /// toward the end of the media
    Forward,
    /// toward its start
    Backward,
}

/// What a key press asks of the player.
#[derive(Debug, Clone, Copy, PartialEq, Eq, Structural)]
pub enum KeyAction {
    /// open a single file
    OpenFile,
    /// pause (`true`) or play (`false`): pauses exactly when the player was playing
    SetPaused(bool),
    /// loop the current media (`true`) or stop looping it (`false`)
    SetLooping(bool),
    /// decrease playing speed
    SlowDown,
    /// increase playing speed
    SpeedUp,
    /// normal playing speed
    NormalSpeed,
    /// seek by the given number of seconds
    Seek(SeekDirection, u64),
    /// volume up
    VolumeUp,
    /// volume down
    VolumeDown,
    /// mute (`true`) or unmute (`false`) the sound
    SetMuted(bool),
    /// the key has no binding
    Nothing,
}

/// What the key bindings read of the player.
#[derive(Debug, Clone, Copy, PartialEq, Eq, Structural)]
pub struct PlayerFlags {
    /// the media is playing
    pub playing: bool,
    /// the media loops
    pub looping: bool,
    /// the sound is muted
    pub muted: bool,
}

/// The action bound to a key that types `text`, with no modifier held.
pub open spec fn character_action(text: Seq<char>, flags: PlayerFlags) -> KeyAction {
    if text == "O"@ {
        KeyAction::OpenFile
    } else if text == "L"@ {
        KeyAction::SetLooping(!flags.looping)
    } else if text == "["@ {
        KeyAction::SlowDown
    } else if text == "]"@ {
        KeyAction::SpeedUp
    } else if text == "="@ {
        KeyAction::NormalSpeed
    } else if text == "M"@ {
        KeyAction::SetMuted(!flags.muted)
    } else {
        KeyAction::Nothing
    }
}

/// The seek bound to an arrow key: shift seeks 3 seconds, alt 10, control 60
/// and no modifier 1, checked in that order; any other combination does nothing.
pub open spec fn arrow_seek(direction: SeekDirection, modifiers: Modifiers) -> KeyAction {
    if modifiers.shift {
        KeyAction::Seek(direction, 3)
    } else if modifiers.alt {
        KeyAction::Seek(direction, 10)
    } else if modifiers.control {
        KeyAction::Seek(direction, 60)
    } else if modifiers.spec_is_empty() {
        KeyAction::Seek(direction, 1)
    } else {
        KeyAction::Nothing
    }
}

/// The action bound to a key press, for a player in the state `flags`: space
/// pauses a playing player and plays any other, `L` and `M` set looping and
/// muted to the opposite of what they were.
pub open spec fn spec_key_action(key: Key, modifiers: Modifiers, flags: PlayerFlags) -> KeyAction {
    match key {
        Key::Character(text) => if modifiers.spec_is_empty() {
            character_action(text@, flags)
        } else {
            KeyAction::Nothing
        },
        Key::Named(NamedKey::Space) => if modifiers.spec_is_empty() {
            KeyAction::SetPaused(flags.playing)
        } else {
            KeyAction::Nothing
        },
        Key::Named(NamedKey::ArrowRight) => arrow_seek(SeekDirection::Forward, modifiers),
        Key::Named(NamedKey::ArrowLeft) => arrow_seek(SeekDirection::Backward, modifiers),
        Key::Named(NamedKey::ArrowUp) => if modifiers.spec_is_empty() {
            KeyAction::VolumeUp
        } else {
            KeyAction::Nothing
        },
        Key::Named(NamedKey::ArrowDown) => if modifiers.spec_is_empty() {
            KeyAction::VolumeDown
        } else {
            KeyAction::Nothing
        },
        _ => KeyAction::Nothing,
    }
}

/// Whether `text` holds the characters of `lit`.
fn text_is(text: &String, lit: &str) -> (same: bool)
    ensures
        same == (text@ == lit@),
{
    *text == lit.to_owned()
}

/// The seek an arrow key asks for.
fn arrow_action(direction: SeekDirection, modifiers: Modifiers) -> (action: KeyAction)
    ensures
        action == arrow_seek(direction, modifiers),
{
    if modifiers.shift {
        KeyAction::Seek(direction, 3)
    } else if modifiers.alt {
        KeyAction::Seek(direction, 10)
    } else if modifiers.control {
        KeyAction::Seek(direction, 60)
    } else if modifiers.is_empty() {
        KeyAction::Seek(direction, 1)
    } else {
        KeyAction::Nothing
    }
}

/// What a key press asks of a player in the state `flags`.
pub fn key_action(key: &Key, modifiers: Modifiers, flags: PlayerFlags) -> (action: KeyAction)
    ensures
        action == spec_key_action(*key, modifiers, flags),
{
    match key {
        Key::Character(text) => {
            if !modifiers.is_empty() {
                KeyAction::Nothing
            } else if text_is(text, "O") {
                KeyAction::OpenFile
            } else if text_is(text, "L") {
                KeyAction::SetLooping(!flags.looping)
            } else if text_is(text, "[") {
                KeyAction::SlowDown
            } else if text_is(text, "]") {
                KeyAction::SpeedUp
            } else if text_is(text, "=") {
                KeyAction::NormalSpeed
            } else if text_is(text, "M") {
                KeyAction::SetMuted(!flags.muted)
            } else {
                KeyAction::Nothing
            }
        },
        Key::Named(NamedKey::Space) => if modifiers.is_empty() {
            KeyAction::SetPaused(flags.playing)
        } else {
            KeyAction::Nothing
        },
        Key::Named(NamedKey::ArrowRight) => arrow_action(SeekDirection::Forward, modifiers),
        Key::Named(NamedKey::ArrowLeft) => arrow_action(SeekDirection::Backward, modifiers),
        Key::Named(NamedKey::ArrowUp) => if modifiers.is_empty() {
            KeyAction::VolumeUp
        } else {
            KeyAction::Nothing
        },
        Key::Named(NamedKey::ArrowDown) => if modifiers.is_empty() {
            KeyAction::VolumeDown
        } else {
            KeyAction::Nothing
        },
        _ => KeyAction::Nothing,
    }
}

/// Nanoseconds in a second.
pub open spec fn nanos_per_second() -> int {
    1_000_000_000
}

/// The position, in nanoseconds, that seeking from `position` (in nanoseconds)
/// by `amount` seconds in `direction` leads to.
pub open spec fn spec_seek_target(position: int, direction: SeekDirection, amount: int) -> int {
    if direction == SeekDirection::Forward {
        position + amount * nanos_per_second()
    } else {
        position - amount * nanos_per_second()
    }
}

/// The position, in nanoseconds, that seeking from `position` (in nanoseconds)
/// by `amount` seconds in `direction` leads to. Seeking backward past the
/// start is left out: the player's duration arithmetic panics there; so is
/// seeking forward past the largest position in nanoseconds.
pub fn seek_target(position: u64, direction: SeekDirection, amount: u64) -> (target: u64)
    requires
        0 <= spec_seek_target(position as int, direction, amount as int) <= u64::MAX,
    ensures
        target == spec_seek_target(position as int, direction, amount as int),
{
    match direction {
        SeekDirection::Forward => position + amount * 1_000_000_000,
        SeekDirection::Backward => position - amount * 1_000_000_000,
    }
}

/// Whether seeking from `position` (in nanoseconds) by `amount` seconds in
/// `direction` stays within the positions the player can hold.
pub fn seek_in_range(position: u64, direction: SeekDirection, amount: u64) -> (ok: bool)
    ensures
        ok == (0 <= spec_seek_target(position as int, direction, amount as int) <= u64::MAX),
{
    if amount > u64::MAX / 1_000_000_000 {
        return false;
    }
    let step = amount * 1_000_000_000;
    match direction {
        SeekDirection::Forward => step <= u64::MAX - position,
        SeekDirection::Backward => step <= position,
    }
}

/// Seeking forward and then backward by the same amount comes back to where it
/// started, and so does seeking backward and then forward.
pub proof fn lemma_seek_round_trip(position: int, amount: int)
    ensures
        spec_seek_target(spec_seek_target(position, SeekDirection::Forward, amount), SeekDirection::Backward, amount)
            == position,
        spec_seek_target(spec_seek_target(position, SeekDirection::Backward, amount), SeekDirection::Forward, amount)
            == position,
{
}

/// The left arrow mirrors the right one: with any modifiers it seeks backward by
/// the amount that the right arrow seeks forward, or does nothing when the right
/// arrow does nothing.
pub proof fn lemma_arrows_mirror(modifiers: Modifiers)
    ensures
        match arrow_seek(SeekDirection::Forward, modifiers) {
            KeyAction::Seek(d, amount) => d == SeekDirection::Forward
                && arrow_seek(SeekDirection::Backward, modifiers) == KeyAction::Seek(SeekDirection::Backward, amount),
            _ => arrow_seek(SeekDirection::Backward, modifiers) == KeyAction::Nothing,
        },
{
}

/// Space, `L` and `M` toggle: pressed twice, the player taking each command in
/// between, each brings the player back to the state it started in.
pub proof fn lemma_toggles_undo(flags: PlayerFlags)
    ensures
        ({
            let none = Modifiers { shift: false, control: false, alt: false, logo: false };
            let paused_flags = PlayerFlags { playing: !flags.playing, ..flags };
            &&& spec_key_action(Key::Named(NamedKey::Space), none, flags) == KeyAction::SetPaused(flags.playing)
            &&& spec_key_action(Key::Named(NamedKey::Space), none, paused_flags) == KeyAction::SetPaused(!flags.playing)
        }),
        character_action("L"@, flags) == KeyAction::SetLooping(!flags.looping),
        character_action("L"@, PlayerFlags { looping: !flags.looping, ..flags }) == KeyAction::SetLooping(flags.looping),
        character_action("M"@, flags) == KeyAction::SetMuted(!flags.muted),
        character_action("M"@, PlayerFlags { muted: !flags.muted, ..flags }) == KeyAction::SetMuted(flags.muted),
{
    reveal_strlit("O");
    reveal_strlit("L");
    reveal_strlit("[");
    reveal_strlit("]");
    reveal_strlit("=");
    reveal_strlit("M");
    assert("L"@[0] != "O"@[0]);
    assert("M"@[0] != "O"@[0] && "M"@[0] != "L"@[0] && "M"@[0] != "["@[0] && "M"@[0] != "]"@[0] && "M"@[0] != "="@[0]);
}

/// Only space, `L` and `M` read the player's state: every other key press asks
/// the same whatever the player is doing; in particular the up and down arrows
/// without modifiers always ask for more and less volume, and the arrows seek.
pub proof fn lemma_only_toggles_read_flags(key: Key, modifiers: Modifiers, flags: PlayerFlags, other: PlayerFlags)
    requires
        !(key matches Key::Named(NamedKey::Space)),
        !(key matches Key::Character(t) && (t@ == "L"@ || t@ == "M"@)),
    ensures
        spec_key_action(key, modifiers, flags) == spec_key_action(key, modifiers, other),
        ({
            let none = Modifiers { shift: false, control: false, alt: false, logo: false };
            &&& spec_key_action(Key::Named(NamedKey::ArrowUp), none, flags) == KeyAction::VolumeUp
            &&& spec_key_action(Key::Named(NamedKey::ArrowDown), none, flags) == KeyAction::VolumeDown
            &&& spec_key_action(Key::Named(NamedKey::ArrowRight), none, flags) == KeyAction::Seek(SeekDirection::Forward, 1)
            &&& spec_key_action(Key::Named(NamedKey::ArrowLeft), none, flags) == KeyAction::Seek(SeekDirection::Backward, 1)
        }),
{
}

/// The bindings, for a player in any state: with no modifier, `O` opens a
/// file, `[` and `]` slow down and speed up, `=` resets the speed, space
/// pauses a playing player and plays any other, `L` and `M` flip looping and
/// muted; with any modifier held, no character key and not space does anything.
pub proof fn lemma_binding_table(flags: PlayerFlags, modifiers: Modifiers, text: String)
    ensures
        ({
            let none = Modifiers { shift: false, control: false, alt: false, logo: false };
            &&& text@ == "O"@ ==> spec_key_action(Key::Character(text), none, flags) == KeyAction::OpenFile
            &&& text@ == "["@ ==> spec_key_action(Key::Character(text), none, flags) == KeyAction::SlowDown
            &&& text@ == "]"@ ==> spec_key_action(Key::Character(text), none, flags) == KeyAction::SpeedUp
            &&& text@ == "="@ ==> spec_key_action(Key::Character(text), none, flags) == KeyAction::NormalSpeed
            &&& text@ == "L"@ ==> spec_key_action(Key::Character(text), none, flags) == KeyAction::SetLooping(!flags.looping)
            &&& text@ == "M"@ ==> spec_key_action(Key::Character(text), none, flags) == KeyAction::SetMuted(!flags.muted)
            &&& spec_key_action(Key::Named(NamedKey::Space), none, flags) == KeyAction::SetPaused(flags.playing)
        }),
        !modifiers.spec_is_empty() ==> spec_key_action(Key::Character(text), modifiers, flags) == KeyAction::Nothing,
        !modifiers.spec_is_empty() ==> spec_key_action(Key::Named(NamedKey::Space), modifiers, flags) == KeyAction::Nothing,
        spec_key_action(Key::Named(NamedKey::Other), modifiers, flags) == KeyAction::Nothing,
        spec_key_action(Key::Unidentified, modifiers, flags) == KeyAction::Nothing,
{
    reveal_strlit("O");
    reveal_strlit("L");
    reveal_strlit("[");
    reveal_strlit("]");
    reveal_strlit("=");
    reveal_strlit("M");
    assert("["@[0] != "O"@[0] && "["@[0] != "L"@[0]);
    assert("]"@[0] != "O"@[0] && "]"@[0] != "L"@[0] && "]"@[0] != "["@[0]);
    assert("="@[0] != "O"@[0] && "="@[0] != "L"@[0] && "="@[0] != "["@[0] && "="@[0] != "]"@[0]);
    assert("L"@[0] != "O"@[0]);
    assert("M"@[0] != "O"@[0] && "M"@[0] != "L"@[0] && "M"@[0] != "["@[0] && "M"@[0] != "]"@[0] && "M"@[0] != "="@[0]);
}

} // verus!
