use iced_video::tag_convert::{
    unknown_value, tag_of, value_kind, GStreamerTagTypes, Tag, TagList, TagValueKind, TaglistToTags,
};

#[test]
fn string_conversion() {
    assert_eq!(
        GStreamerTagTypes::GCharArray("en".to_string()).try_into_string(),
        Ok("en".to_string())
    );
    assert_eq!(
        GStreamerTagTypes::GstDateTime("2022-01-01".to_string()).try_into_string(),
        Ok("2022-01-01".to_string())
    );
    assert_eq!(
        GStreamerTagTypes::Unknown("GstSample".to_string()).try_into_string(),
        Ok("GstSample".to_string())
    );
    assert_eq!(GStreamerTagTypes::GUint(7).try_into_string(), Err("error wrong type"));
}

#[test]
fn number_conversion() {
    assert_eq!(GStreamerTagTypes::GUint(224000).try_into_u32(), Ok(224000));
    assert_eq!(
        GStreamerTagTypes::GCharArray("x".to_string()).try_into_u32(),
        Err("error wrong type")
    );
    assert_eq!(
        GStreamerTagTypes::GstDateTime("x".to_string()).try_into_u32(),
        Err("error wrong type")
    );
    assert_eq!(
        GStreamerTagTypes::Unknown("x".to_string()).try_into_u32(),
        Err("error wrong type")
    );
}

#[test]
fn glib_type_names() {
    assert_eq!(value_kind("gchararray"), TagValueKind::Text);
    assert_eq!(value_kind("guint"), TagValueKind::Unsigned);
    assert_eq!(value_kind("GstDateTime"), TagValueKind::DateTime);
    assert_eq!(value_kind("GstSample"), TagValueKind::Other);
    assert_eq!(value_kind("gint"), TagValueKind::Other);
}

fn text(s: &str) -> GStreamerTagTypes {
    GStreamerTagTypes::GCharArray(s.to_string())
}

#[test]
fn single_tags() {
    assert!(matches!(tag_of(&"audio-codec".to_string(), text("MPEG-4 AAC audio")), Tag::AudioCodec(s) if s == "MPEG-4 AAC audio"));
    assert!(matches!(tag_of(&"maximum-bitrate".to_string(), GStreamerTagTypes::GUint(224000)), Tag::MaximumBitrate(224000)));
    assert!(matches!(tag_of(&"bitrate".to_string(), GStreamerTagTypes::GUint(2497185)), Tag::Bitrate(2497185)));
    assert!(matches!(tag_of(&"language-code".to_string(), text("en")), Tag::Language(s) if s == "en"));
    assert!(matches!(tag_of(&"datetime".to_string(), GStreamerTagTypes::GstDateTime("2022".to_string())), Tag::DateTime(s) if s == "2022"));
    assert!(matches!(tag_of(&"title".to_string(), text("Scream")), Tag::Title(s) if s == "Scream"));
    assert!(matches!(tag_of(&"comment".to_string(), text("c")), Tag::Comment(s) if s == "c"));
    assert!(matches!(tag_of(&"encoder".to_string(), text("Lavf58.20.100")), Tag::Encoder(s) if s == "Lavf58.20.100"));
    assert!(matches!(tag_of(&"container-format".to_string(), text("ISO MP4/M4A")), Tag::ContainerFormat(s) if s == "ISO MP4/M4A"));
    assert!(matches!(tag_of(&"video-codec".to_string(), text("H.264 (High Profile)")), Tag::VideoCodec(s) if s == "H.264 (High Profile)"));
    assert!(matches!(tag_of(&"minimum-bitrate".to_string(), GStreamerTagTypes::GUint(223875)), Tag::MinimumBitrate(223875)));
}

#[test]
fn unknown_tag_keeps_name_and_value() {
    match tag_of(&"artist".to_string(), GStreamerTagTypes::GUint(3)) {
        Tag::Unknown(name, GStreamerTagTypes::GUint(3)) => assert_eq!(name, "artist"),
        other => panic!("unexpected {:?}", other),
    }
}

#[test]
fn tag_list_in_order() {
    let list = TagList::from_entries(vec![
        ("audio-codec".to_string(), text("MPEG-4 AAC")),
        ("maximum-bitrate".to_string(), GStreamerTagTypes::GUint(224000)),
        ("genre".to_string(), text("Horror")),
        ("bitrate".to_string(), GStreamerTagTypes::GUint(224000)),
    ]);
    let tags = list.to_rust_tags();
    assert_eq!(tags.len(), 4);
    let names: Vec<&str> = tags.iter().map(|(n, _)| n.as_str()).collect();
    assert_eq!(names, vec!["audio-codec", "maximum-bitrate", "genre", "bitrate"]);
    assert!(matches!(&tags[0].1, Tag::AudioCodec(s) if s == "MPEG-4 AAC"));
    assert!(matches!(&tags[1].1, Tag::MaximumBitrate(224000)));
    assert!(matches!(&tags[2].1, Tag::Unknown(n, GStreamerTagTypes::GCharArray(v)) if n == "genre" && v == "Horror"));
    assert!(matches!(&tags[3].1, Tag::Bitrate(224000)));
}

#[test]
fn empty_tag_list() {
    assert!(TagList::from_entries(vec![]).to_rust_tags().is_empty());
}

#[test]
fn unknown_glib_type_keeps_its_name() {
    assert!(matches!(unknown_value("GstSample"), GStreamerTagTypes::Unknown(n) if n == "GstSample"));
}
