//! Convert GStreamer tags to Rust tags.
//!
//! A gstreamer tag list is a list of `(name, value)` pairs, whose values are glib
//! values of a few types. [`TagList`] holds those pairs as plain values, and
//! [`TaglistToTags::to_rust_tags`] turns each pair into a typed [`Tag`].
use vstd::prelude::*;

verus! {

/// convert glib types to rust types
#[derive(Debug)]
pub enum GStreamerTagTypes {
    /// glib char array
    GCharArray(String),
    /// glib uint
    GUint(u32),
    /// glib gst date time
    GstDateTime(String),
    /// unknown type
    Unknown(String),
}

impl Clone for GStreamerTagTypes {
    fn clone(&self) -> (copy: Self)
        ensures
            copy == *self,
    {
        match self {
            GStreamerTagTypes::GCharArray(v) => GStreamerTagTypes::GCharArray(v.clone()),
            GStreamerTagTypes::GUint(v) => GStreamerTagTypes::GUint(*v),
            GStreamerTagTypes::GstDateTime(v) => GStreamerTagTypes::GstDateTime(v.clone()),
            GStreamerTagTypes::Unknown(v) => GStreamerTagTypes::Unknown(v.clone()),
        }
    }
}

/// The message of a conversion to the wrong type.
pub open spec fn wrong_type_message() -> Seq<char> {
    "error wrong type"@
}

impl GStreamerTagTypes {
    /// The text that the value converts to, if it converts to text: every
    /// type but `GUint` does.
    pub open spec fn text_payload(self) -> Option<Seq<char>> {
        match self {
            GStreamerTagTypes::GCharArray(v) => Some(v@),
            GStreamerTagTypes::GUint(_) => None,
            GStreamerTagTypes::GstDateTime(v) => Some(v@),
            GStreamerTagTypes::Unknown(v) => Some(v@),
        }
    }

    /// The number that the value converts to, if it converts to a number:
    /// only `GUint` does.
    pub open spec fn number_payload(self) -> Option<u32> {
        match self {
            GStreamerTagTypes::GUint(v) => Some(v),
            _ => None,
        }
    }

    /// Converts the value to text; a `GUint` is the wrong type.
    pub fn try_into_string(self) -> (res: Result<String, &'static str>)
        ensures
            match res {
                Ok(s) => self.text_payload() == Some(s@),
                Err(msg) => self.text_payload() is None && msg@ == wrong_type_message(),
            },
    {
        match self {
            GStreamerTagTypes::GCharArray(value) => Ok(value),
            GStreamerTagTypes::GUint(_value) => {
                proof { reveal_strlit("error wrong type"); }
                Err("error wrong type")
            },
            GStreamerTagTypes::GstDateTime(value) => Ok(value),
            GStreamerTagTypes::Unknown(value) => Ok(value),
        }
    }

    /// Converts the value to a number; only a `GUint` is the right type.
    pub fn try_into_u32(self) -> (res: Result<u32, &'static str>)
        ensures
            match res {
                Ok(n) => self.number_payload() == Some(n),
                Err(msg) => self.number_payload() is None && msg@ == wrong_type_message(),
            },
    {
        proof { reveal_strlit("error wrong type"); }
        match self {
            GStreamerTagTypes::GCharArray(_value) => Err("error wrong type"),
            GStreamerTagTypes::GUint(value) => Ok(value),
            GStreamerTagTypes::GstDateTime(_value) => Err("error wrong type"),
            GStreamerTagTypes::Unknown(_value) => Err("error wrong type"),
        }
    }
}

/// Every tag value converts to exactly one of text and number: `try_into_string`
/// succeeds exactly on the values on which `try_into_u32` fails.
pub proof fn lemma_value_converts_one_way(value: GStreamerTagTypes)
    ensures
        value.text_payload() is Some <==> value.number_payload() is None,
{
}

/// How a glib value of a given type name is read.
#[derive(Debug, Clone, Copy, PartialEq, Eq, Structural)]
pub enum TagValueKind {
    /// `gchararray`: read as text.
    Text,
    /// `guint`: read as an unsigned number.
    Unsigned,
    /// `GstDateTime`: read as a date, written in ISO 8601.
    DateTime,
    /// any other type: only its type name is kept.
    Other,
}

/// The kind of a glib value by its type name.
pub open spec fn spec_value_kind(glib_type: Seq<char>) -> TagValueKind {
    if glib_type == "gchararray"@ {
        TagValueKind::Text
    } else if glib_type == "guint"@ {
        TagValueKind::Unsigned
    } else if glib_type == "GstDateTime"@ {
        TagValueKind::DateTime
    } else {
        TagValueKind::Other
    }
}

/// Whether two strings hold the same characters.
fn same_text(a: &str, b: &str) -> (same: bool)
    ensures
        same == (a@ == b@),
{
    a.to_owned() == b.to_owned()
}

/// Decides how a glib value is read from the name of its type: `gchararray` as
/// text, `guint` as a number, `GstDateTime` as a date, anything else by its type
/// name alone.
pub fn value_kind(glib_type: &str) -> (kind: TagValueKind)
    ensures
        kind == spec_value_kind(glib_type@),
{
    if same_text(glib_type, "gchararray") {
        TagValueKind::Text
    } else if same_text(glib_type, "guint") {
        TagValueKind::Unsigned
    } else if same_text(glib_type, "GstDateTime") {
        TagValueKind::DateTime
    } else {
        TagValueKind::Other
    }
}

/// The value kept of a glib value of a type that has no Rust type here: the
/// name of its type.
pub fn unknown_value(glib_type: &str) -> (value: GStreamerTagTypes)
    ensures
        value matches GStreamerTagTypes::Unknown(name) && name@ == glib_type@,
{
    GStreamerTagTypes::Unknown(glib_type.to_owned())
}

/// Rust tags
#[allow(missing_docs)]
#[derive(Debug)]
pub enum Tag {
    AudioCodec(String),
    MaximumBitrate(u32),
    Bitrate(u32),
    Language(String),
    DateTime(String),
    Title(String),
    Comment(String),
    Encoder(String),
    ContainerFormat(String),
    VideoCodec(String),
    MinimumBitrate(u32),
    Unknown(String, GStreamerTagTypes),
}

/// The tag names whose values are text.
pub open spec fn is_text_tag_name(name: Seq<char>) -> bool {
    ||| name == "audio-codec"@
    ||| name == "language-code"@
    ||| name == "datetime"@
    ||| name == "title"@
    ||| name == "comment"@
    ||| name == "encoder"@
    ||| name == "container-format"@
    ||| name == "video-codec"@
}

/// The tag names whose values are numbers.
pub open spec fn is_number_tag_name(name: Seq<char>) -> bool {
    ||| name == "maximum-bitrate"@
    ||| name == "bitrate"@
    ||| name == "minimum-bitrate"@
}

/// A tag name that has a [`Tag`] variant of its own.
pub open spec fn is_known_tag_name(name: Seq<char>) -> bool {
    is_text_tag_name(name) || is_number_tag_name(name)
}

/// A `(name, value)` pair that converts: a known name has a value of its type
/// (the conversion of any other pair panics).
pub open spec fn entry_converts(name: Seq<char>, value: GStreamerTagTypes) -> bool {
    &&& is_text_tag_name(name) ==> value.text_payload() is Some
    &&& is_number_tag_name(name) ==> value.number_payload() is Some
}

/// `tag` is the Rust tag of the pair `(name, value)`: the variant named by
/// `name`, holding the value converted to its type, or `Unknown` with the name
/// and the value as they came for a name that has no variant.
pub open spec fn is_tag_of(name: Seq<char>, value: GStreamerTagTypes, tag: Tag) -> bool {
    match tag {
        Tag::AudioCodec(s) => name == "audio-codec"@ && value.text_payload() == Some(s@),
        Tag::MaximumBitrate(n) => name == "maximum-bitrate"@ && value.number_payload() == Some(n),
        Tag::Bitrate(n) => name == "bitrate"@ && value.number_payload() == Some(n),
        Tag::Language(s) => name == "language-code"@ && value.text_payload() == Some(s@),
        Tag::DateTime(s) => name == "datetime"@ && value.text_payload() == Some(s@),
        Tag::Title(s) => name == "title"@ && value.text_payload() == Some(s@),
        Tag::Comment(s) => name == "comment"@ && value.text_payload() == Some(s@),
        Tag::Encoder(s) => name == "encoder"@ && value.text_payload() == Some(s@),
        Tag::ContainerFormat(s) => name == "container-format"@ && value.text_payload() == Some(s@),
        Tag::VideoCodec(s) => name == "video-codec"@ && value.text_payload() == Some(s@),
        Tag::MinimumBitrate(n) => name == "minimum-bitrate"@ && value.number_payload() == Some(n),
        Tag::Unknown(n, v) => n@ == name && v == value && !is_known_tag_name(name),
    }
}

/// Whether the pair `(name, value)` converts: a known name has a value of its type.
pub fn entry_converts_exec(name: &String, value: &GStreamerTagTypes) -> (ok: bool)
    ensures
        ok == entry_converts(name@, *value),
{
    let text_name = name_is(name, "audio-codec") || name_is(name, "language-code") || name_is(name, "datetime")
        || name_is(name, "title") || name_is(name, "comment") || name_is(name, "encoder")
        || name_is(name, "container-format") || name_is(name, "video-codec");
    let number_name = name_is(name, "maximum-bitrate") || name_is(name, "bitrate") || name_is(name, "minimum-bitrate");
    let is_number = match value {
        GStreamerTagTypes::GUint(_) => true,
        _ => false,
    };
    (!text_name || !is_number) && (!number_name || is_number)
}

/// Whether `name` holds the characters of `lit`.
fn name_is(name: &String, lit: &str) -> (same: bool)
    ensures
        same == (name@ == lit@),
{
    same_text(name.as_str(), lit)
}

/// The Rust tag of one `(name, value)` pair of a tag list.
pub fn tag_of(name: &String, value: GStreamerTagTypes) -> (tag: Tag)
    requires
        entry_converts(name@, value),
    ensures
        is_tag_of(name@, value, tag),
{
    if name_is(name, "audio-codec") {
        Tag::AudioCodec(value.try_into_string().unwrap())
    } else if name_is(name, "maximum-bitrate") {
        Tag::MaximumBitrate(value.try_into_u32().unwrap())
    } else if name_is(name, "bitrate") {
        Tag::Bitrate(value.try_into_u32().unwrap())
    } else if name_is(name, "language-code") {
        Tag::Language(value.try_into_string().unwrap())
    } else if name_is(name, "datetime") {
        Tag::DateTime(value.try_into_string().unwrap())
    } else if name_is(name, "title") {
        Tag::Title(value.try_into_string().unwrap())
    } else if name_is(name, "comment") {
        Tag::Comment(value.try_into_string().unwrap())
    } else if name_is(name, "encoder") {
        Tag::Encoder(value.try_into_string().unwrap())
    } else if name_is(name, "container-format") {
        Tag::ContainerFormat(value.try_into_string().unwrap())
    } else if name_is(name, "video-codec") {
        Tag::VideoCodec(value.try_into_string().unwrap())
    } else if name_is(name, "minimum-bitrate") {
        Tag::MinimumBitrate(value.try_into_u32().unwrap())
    } else {
        Tag::Unknown(name.clone(), value)
    }
}

/// A gstreamer tag list, as the `(name, value)` pairs it holds, in its order.
#[derive(Debug)]
pub struct TagList {
    entries: Vec<(String, GStreamerTagTypes)>,
}

impl TagList {
    /// The pairs of the list, names by their characters.
    pub closed spec fn view_entries(&self) -> Seq<(Seq<char>, GStreamerTagTypes)> {
        self.entries@.map_values(|e: (String, GStreamerTagTypes)| (e.0@, e.1))
    }

    /// Whether every pair of the list converts (see [`entry_converts`]).
    pub fn all_convert(&self) -> (ok: bool)
        ensures
            ok == forall|i: int| 0 <= i < self.view_entries().len() ==>
                #[trigger] entry_converts(self.view_entries()[i].0, self.view_entries()[i].1),
    {
        let n = self.entries.len();
        for i in 0..n
            invariant
                n == self.entries@.len(),
                forall|j: int| 0 <= j < i ==>
                    #[trigger] entry_converts(self.view_entries()[j].0, self.view_entries()[j].1),
        {
            proof {
                assert(self.view_entries()[i as int] == (self.entries@[i as int].0@, self.entries@[i as int].1));
            }
            if !entry_converts_exec(&self.entries[i].0, &self.entries[i].1) {
                assert(!entry_converts(self.view_entries()[i as int].0, self.view_entries()[i as int].1));
                return false;
            }
        }
        true
    }

    /// A tag list of the given pairs, in their order.
    pub fn from_entries(entries: Vec<(String, GStreamerTagTypes)>) -> (list: TagList)
        ensures
            list.view_entries() == entries@.map_values(|e: (String, GStreamerTagTypes)| (e.0@, e.1)),
    {
        TagList { entries }
    }
}

/// convert gstreamer tags to rust tags
pub trait TaglistToTags {
    /// The `(name, value)` pairs of the list, in its order.
    spec fn tag_entries(&self) -> Seq<(Seq<char>, GStreamerTagTypes)>;

    /// convert gstreamer tags to rust tags
    ///
    /// One tag per pair, in the list's order: each keeps the pair's name and is
    /// the tag that [`is_tag_of`] names.
    fn to_rust_tags(&self) -> (tags: Vec<(String, Tag)>)
        requires
            forall|i: int| 0 <= i < self.tag_entries().len() ==>
                #[trigger] entry_converts(self.tag_entries()[i].0, self.tag_entries()[i].1),
        ensures
            tags@.len() == self.tag_entries().len(),
            forall|i: int| 0 <= i < tags@.len() ==> {
                &&& (#[trigger] tags@[i]).0@ == self.tag_entries()[i].0
                &&& is_tag_of(self.tag_entries()[i].0, self.tag_entries()[i].1, tags@[i].1)
            },
    ;
}

impl TaglistToTags for TagList {
    open spec fn tag_entries(&self) -> Seq<(Seq<char>, GStreamerTagTypes)> {
        self.view_entries()
    }

    fn to_rust_tags(&self) -> (tags: Vec<(String, Tag)>) {
        let mut tags: Vec<(String, Tag)> = Vec::new();
        let n = self.entries.len();
        for i in 0..n
            invariant
                n == self.entries@.len(),
                self.tag_entries() == self.view_entries(),
                forall|j: int| 0 <= j < self.tag_entries().len() ==>
                    #[trigger] entry_converts(self.tag_entries()[j].0, self.tag_entries()[j].1),
                tags@.len() == i,
                forall|j: int| 0 <= j < i ==> {
                    &&& (#[trigger] tags@[j]).0@ == self.tag_entries()[j].0
                    &&& is_tag_of(self.tag_entries()[j].0, self.tag_entries()[j].1, tags@[j].1)
                },
        {
            let name = self.entries[i].0.clone();
            let value = self.entries[i].1.clone();
            proof {
                assert(self.view_entries()[i as int] == (self.entries@[i as int].0@, self.entries@[i as int].1));
                assert(entry_converts(self.tag_entries()[i as int].0, self.tag_entries()[i as int].1));
            }
            let tag = tag_of(&name, value);
            tags.push((name, tag));
        }
        tags
    }
}

/// Only a known tag name with a value of the wrong type fails to convert: a
/// pair whose name has no variant of its own converts whatever its value, a
/// text tag converts with any value but a number, and a number tag with a number.
pub proof fn lemma_which_entries_convert(name: Seq<char>, value: GStreamerTagTypes)
    ensures
        !is_known_tag_name(name) ==> entry_converts(name, value),
        !(value is GUint) && !is_number_tag_name(name) ==> entry_converts(name, value),
        value is GUint && !is_text_tag_name(name) ==> entry_converts(name, value),
        !entry_converts(name, value) ==> is_known_tag_name(name),
{
}

/// Two tags are the same tag: the same variant, holding the same text, number,
/// or name and value.
pub open spec fn same_tag(t1: Tag, t2: Tag) -> bool {
    match (t1, t2) {
        (Tag::AudioCodec(a), Tag::AudioCodec(b)) => a@ == b@,
        (Tag::MaximumBitrate(a), Tag::MaximumBitrate(b)) => a == b,
        (Tag::Bitrate(a), Tag::Bitrate(b)) => a == b,
        (Tag::Language(a), Tag::Language(b)) => a@ == b@,
        (Tag::DateTime(a), Tag::DateTime(b)) => a@ == b@,
        (Tag::Title(a), Tag::Title(b)) => a@ == b@,
        (Tag::Comment(a), Tag::Comment(b)) => a@ == b@,
        (Tag::Encoder(a), Tag::Encoder(b)) => a@ == b@,
        (Tag::ContainerFormat(a), Tag::ContainerFormat(b)) => a@ == b@,
        (Tag::VideoCodec(a), Tag::VideoCodec(b)) => a@ == b@,
        (Tag::MinimumBitrate(a), Tag::MinimumBitrate(b)) => a == b,
        (Tag::Unknown(n1, v1), Tag::Unknown(n2, v2)) => n1@ == n2@ && v1 == v2,
        _ => false,
    }
}

/// The tag names are all different.
proof fn lemma_tag_names_distinct()
    ensures
        "audio-codec"@ != "maximum-bitrate"@ && "audio-codec"@ != "bitrate"@ && "audio-codec"@ != "language-code"@ && "audio-codec"@ != "datetime"@ && "audio-codec"@ != "title"@ && "audio-codec"@ != "comment"@ && "audio-codec"@ != "encoder"@ && "audio-codec"@ != "container-format"@ && "audio-codec"@ != "video-codec"@ && "audio-codec"@ != "minimum-bitrate"@ && "maximum-bitrate"@ != "bitrate"@ && "maximum-bitrate"@ != "language-code"@ && "maximum-bitrate"@ != "datetime"@ && "maximum-bitrate"@ != "title"@ && "maximum-bitrate"@ != "comment"@ && "maximum-bitrate"@ != "encoder"@ && "maximum-bitrate"@ != "container-format"@ && "maximum-bitrate"@ != "video-codec"@ && "maximum-bitrate"@ != "minimum-bitrate"@ && "bitrate"@ != "language-code"@ && "bitrate"@ != "datetime"@ && "bitrate"@ != "title"@ && "bitrate"@ != "comment"@ && "bitrate"@ != "encoder"@ && "bitrate"@ != "container-format"@ && "bitrate"@ != "video-codec"@ && "bitrate"@ != "minimum-bitrate"@ && "language-code"@ != "datetime"@ && "language-code"@ != "title"@ && "language-code"@ != "comment"@ && "language-code"@ != "encoder"@ && "language-code"@ != "container-format"@ && "language-code"@ != "video-codec"@ && "language-code"@ != "minimum-bitrate"@ && "datetime"@ != "title"@ && "datetime"@ != "comment"@ && "datetime"@ != "encoder"@ && "datetime"@ != "container-format"@ && "datetime"@ != "video-codec"@ && "datetime"@ != "minimum-bitrate"@ && "title"@ != "comment"@ && "title"@ != "encoder"@ && "title"@ != "container-format"@ && "title"@ != "video-codec"@ && "title"@ != "minimum-bitrate"@ && "comment"@ != "encoder"@ && "comment"@ != "container-format"@ && "comment"@ != "video-codec"@ && "comment"@ != "minimum-bitrate"@ && "encoder"@ != "container-format"@ && "encoder"@ != "video-codec"@ && "encoder"@ != "minimum-bitrate"@ && "container-format"@ != "video-codec"@ && "container-format"@ != "minimum-bitrate"@ && "video-codec"@ != "minimum-bitrate"@,
{
    reveal_strlit("audio-codec");
    reveal_strlit("maximum-bitrate");
    reveal_strlit("bitrate");
    reveal_strlit("language-code");
    reveal_strlit("datetime");
    reveal_strlit("title");
    reveal_strlit("comment");
    reveal_strlit("encoder");
    reveal_strlit("container-format");
    reveal_strlit("video-codec");
    reveal_strlit("minimum-bitrate");
    assert("audio-codec"@.len() == 11);
    assert("maximum-bitrate"@.len() == 15);
    assert("bitrate"@.len() == 7);
    assert("language-code"@.len() == 13);
    assert("datetime"@.len() == 8);
    assert("title"@.len() == 5);
    assert("comment"@.len() == 7);
    assert("encoder"@.len() == 7);
    assert("container-format"@.len() == 16);
    assert("video-codec"@.len() == 11);
    assert("minimum-bitrate"@.len() == 15);
    assert("audio-codec"@[0] != "video-codec"@[0]);
    assert("maximum-bitrate"@[1] != "minimum-bitrate"@[1]);
    assert("bitrate"@[0] != "comment"@[0]);
    assert("bitrate"@[0] != "encoder"@[0]);
    assert("comment"@[0] != "encoder"@[0]);
}

/// A pair of a tag list has exactly one Rust tag: two tags of the same pair are
/// the same tag; the variant is the one of the tag's name, and a name with no
/// variant of its own gives `Unknown` with that name and value.
pub proof fn lemma_tag_of_is_unique(name: Seq<char>, value: GStreamerTagTypes, tag: Tag, other: Tag)
    ensures
        is_tag_of(name, value, tag) && is_tag_of(name, value, other) ==> same_tag(tag, other),
        is_tag_of(name, value, tag) && name == "audio-codec"@ ==> tag is AudioCodec,
        is_tag_of(name, value, tag) && name == "maximum-bitrate"@ ==> tag is MaximumBitrate,
        is_tag_of(name, value, tag) && name == "bitrate"@ ==> tag is Bitrate,
        is_tag_of(name, value, tag) && name == "language-code"@ ==> tag is Language,
        is_tag_of(name, value, tag) && name == "datetime"@ ==> tag is DateTime,
        is_tag_of(name, value, tag) && name == "title"@ ==> tag is Title,
        is_tag_of(name, value, tag) && name == "comment"@ ==> tag is Comment,
        is_tag_of(name, value, tag) && name == "encoder"@ ==> tag is Encoder,
        is_tag_of(name, value, tag) && name == "container-format"@ ==> tag is ContainerFormat,
        is_tag_of(name, value, tag) && name == "video-codec"@ ==> tag is VideoCodec,
        is_tag_of(name, value, tag) && name == "minimum-bitrate"@ ==> tag is MinimumBitrate,
        is_tag_of(name, value, tag) && !is_known_tag_name(name) ==> (tag matches Tag::Unknown(n, v) && n@ == name && v == value),
        is_tag_of(name, value, tag) && is_known_tag_name(name) ==> !(tag is Unknown),
{
    lemma_tag_names_distinct();
}

} // verus!
