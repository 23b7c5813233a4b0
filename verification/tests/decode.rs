use ffprobe::{
    DecodeError, Duration, Fault, FfProbe, Grammar, JsonNumber, JsonType, JsonValue, Ratio,
    Seconds, Sections, Shape, Stream, StreamKinds,
};

const DISPOSITION: &str = r#"{
    "default": 1, "dub": 0, "original": 0, "comment": 0, "lyrics": 0, "karaoke": 0,
    "forced": 0, "hearing_impaired": 0, "visual_impaired": 0, "clean_effects": 0,
    "attached_pic": 0, "timed_thumbnails": 0, "non_diegetic": 0, "captions": 0,
    "descriptions": 0, "metadata": 0, "dependent": 0, "still_image": 0
}"#;

fn envelope(index: u64, rest: &str) -> String {
    format!(
        r#"{{
            "index": {index},
            "disposition": {DISPOSITION},
            "avg_frame_rate": "24/1",
            "r_frame_rate": "24000/1001",
            "codec_tag": "0x31637661",
            "codec_tag_string": "avc1",
            "time_base": "1/1000",
            "start_pts": 0,
            {rest}
        }}"#
    )
}

const VIDEO: &str = r#"
    "codec_type": "video",
    "codec_name": "h264",
    "codec_long_name": "H.264 / AVC / MPEG-4 AVC / MPEG-4 part 10",
    "width": 1920,
    "height": 1080,
    "coded_width": 1920,
    "coded_height": 1088,
    "closed_captions": 0,
    "film_grain": 0,
    "has_b_frames": 2,
    "level": 40,
    "refs": 1"#;

const VIDEO_WITHOUT_KIND: &str = r#"
    "codec_name": "h264",
    "codec_long_name": "H.264 / AVC / MPEG-4 AVC / MPEG-4 part 10",
    "width": 1920,
    "height": 1080,
    "coded_width": 1920,
    "coded_height": 1088,
    "closed_captions": 0,
    "film_grain": 0,
    "has_b_frames": 2,
    "level": 40,
    "refs": 1"#;

const AUDIO: &str = r#"
    "codec_type": "audio",
    "codec_name": "aac",
    "codec_long_name": "AAC (Advanced Audio Coding)",
    "bits_per_sample": 0,
    "channels": 2,
    "channel_layout": "stereo",
    "initial_padding": 0,
    "sample_fmt": "fltp",
    "sample_rate": "48000",
    "bit_rate": "128000",
    "duration_ts": 5000,
    "tags": { "language": "eng", "HANDLER_NAME": "SoundHandler", "BPS": "128000", "mood": "calm" }"#;

const SUBTITLE: &str = r#"
    "codec_type": "subtitle",
    "codec_name": "subrip",
    "codec_long_name": "SubRip subtitle""#;

const ATTACHMENT: &str = r#"
    "codec_type": "attachment",
    "duration_ts": 7,
    "tags": { "filename": "font.ttf", "mimetype": "font/ttf", "license": "OFL" }"#;

const DATA: &str = r#"
    "codec_type": "data",
    "duration_ts": 9,
    "tags": { "language": "und" }"#;

const FORMAT: &str = r#"{
    "filename": "movie.mkv",
    "nb_streams": 1,
    "nb_programs": 0,
    "nb_stream_groups": 0,
    "format_name": "matroska,webm",
    "format_long_name": "Matroska / WebM",
    "start_time": "0.000000",
    "duration": "596.474195",
    "size": "158008374",
    "bit_rate": "2119234",
    "probe_score": 100,
    "tags": { "title": "Big Buck Bunny", "ENCODER": "Lavf58", "company_name": "Sony", "rating": 5 }
}"#;

fn document(streams: &[String], chapters: &str) -> Vec<u8> {
    format!(
        r#"{{ "streams": [{}], "chapters": [{}], "format": {} }}"#,
        streams.join(","),
        chapters,
        FORMAT
    )
    .into_bytes()
}

fn stream_of(rest: &str, strict: bool) -> Result<Stream, DecodeError> {
    let text = envelope(0, rest);
    let probe = FfProbe::from_slice(&document(&[text], ""), Sections::all(), strict)?;
    Ok(probe.streams.into_iter().next().unwrap())
}

fn text(s: &str) -> JsonValue {
    JsonValue::String(s.to_string())
}

fn number(n: u64) -> JsonValue {
    JsonValue::Number(JsonNumber::PosInt(n))
}

fn member(name: &str, value: JsonValue) -> (String, JsonValue) {
    (name.to_string(), value)
}

#[test]
fn end_to_end_one_video_stream() {
    let bytes = document(&[envelope(0, VIDEO)], "");
    let probe = FfProbe::from_slice(&bytes, Sections::all(), false).unwrap();
    assert_eq!(probe.streams.len(), 1);
    assert_eq!(probe.chapters.len(), 0);
    let stream = &probe.streams[0];
    assert_eq!(stream.index, 0);
    assert_eq!(stream.time_base, Ratio::new(1, 1000));
    assert_eq!(stream.start_pts, 0);
    assert_eq!(stream.codec_tag, vec![0x31, 0x63, 0x76, 0x61]);
    assert_eq!(stream.avg_frame_rate, Ratio::new(24, 1));
    assert_eq!(stream.r_frame_rate, Ratio::new(24000, 1001));
    assert_eq!(stream.disposition.default, 1);
    assert_eq!(stream.disposition.forced, 0);
    assert!(stream.side_data_list.is_empty());
    match &stream.stream {
        StreamKinds::Video(video) => {
            assert_eq!(video.width, 1920);
            assert_eq!(video.height, 1080);
            assert_eq!(video.coded_height, 1088);
            assert_eq!(video.codec_name, "h264");
            assert_eq!(video.level, 40);
            assert_eq!(video.duration_ts, None);
            assert_eq!(video.tags, None);
        }
        other => panic!("not a video stream: {other:?}"),
    }
    assert_eq!(probe.format.filename, "movie.mkv");
    assert_eq!(probe.format.nb_streams, 1);
    assert_eq!(probe.format.format_name, "matroska,webm");
    assert_eq!(probe.format.start_time, Some(Duration::from_secs(0)));
    assert_eq!(probe.format.duration.as_deref(), Some("596.474195"));
    assert_eq!(probe.format.get_duration(), Some(Duration::new(596, 474_195_000)));
    assert_eq!(probe.format.size, 158008374);
    assert_eq!(probe.format.bit_rate, Some(2119234));
    assert_eq!(probe.format.probe_score, 100);
}

#[test]
fn end_to_end_without_codec_type_fails() {
    let bytes = document(&[envelope(0, VIDEO_WITHOUT_KIND)], "");
    match FfProbe::from_slice(&bytes, Sections::all(), false) {
        Err(DecodeError::NoVariant { raw }) => match raw {
            JsonValue::Object(members) => {
                assert!(members.iter().any(|(k, v)| k == "width" && *v == number(1920)));
                assert!(members.iter().all(|(k, _)| k != "index" && k != "codec_tag_string"));
            }
            other => panic!("raw is no object: {other:?}"),
        },
        other => panic!("decoded without a kind: {other:?}"),
    }
}

#[test]
fn resolver_returns_the_variant_that_the_discriminator_names() {
    assert!(matches!(stream_of(AUDIO, false).unwrap().stream, StreamKinds::Audio(_)));
    assert!(matches!(stream_of(VIDEO, false).unwrap().stream, StreamKinds::Video(_)));
    assert!(matches!(stream_of(SUBTITLE, false).unwrap().stream, StreamKinds::Subtitle(_)));
    assert!(matches!(stream_of(ATTACHMENT, false).unwrap().stream, StreamKinds::Attachment(_)));
    assert!(matches!(stream_of(DATA, false).unwrap().stream, StreamKinds::Data(_)));
}

#[test]
fn resolver_refuses_an_unknown_discriminator() {
    for kind in ["\"image\"", "\"Video\"", "\"\"", "7", "null", "[\"video\"]"] {
        let rest = VIDEO.replace("\"codec_type\": \"video\"", &format!("\"codec_type\": {kind}"));
        match stream_of(&rest, false) {
            Err(e @ DecodeError::NoVariant { .. }) => {
                assert!(!e.message().is_empty());
                assert_eq!(e.message(), "data did not match any variant of StreamKinds");
            }
            other => panic!("{kind}: {other:?}"),
        }
    }
}

#[test]
fn resolver_tries_only_the_kind_that_is_named() {
    // The members would make a video stream, but the stream says it is audio.
    let rest = VIDEO.replace("\"video\"", "\"audio\"");
    match stream_of(&rest, false) {
        Err(e @ DecodeError::Variant { .. }) => {
            assert_eq!(
                e.message(),
                "StreamKinds: missing member `bits_per_sample`, in a stream of kind `audio`"
            );
            if let DecodeError::Variant { codec_type, cause, raw } = e {
                assert_eq!(codec_type, "audio");
                assert_eq!(cause.name, "bits_per_sample");
                assert_eq!(cause.fault, Fault::Missing);
                assert!(matches!(raw, JsonValue::Object(_)));
            }
        }
        other => panic!("{other:?}"),
    }
}

#[test]
fn resolver_works_on_members_given_by_hand() {
    let members = vec![
        member("codec_type", text("subtitle")),
        member("codec_name", text("ass")),
        member("codec_long_name", text("ASS (Advanced SSA) subtitle")),
        member("duration_ts", number(1234)),
        member("unheard_of", JsonValue::Bool(true)),
    ];
    match StreamKinds::from_members(&members, false).unwrap() {
        StreamKinds::Subtitle(s) => {
            assert_eq!(s.codec_name, "ass");
            assert_eq!(s.duration_ts, Some(1234));
            assert_eq!(s.width, None);
        }
        other => panic!("{other:?}"),
    }
    let err = StreamKinds::from_members(&members, true).unwrap_err();
    match err {
        DecodeError::Variant { codec_type, cause, raw } => {
            assert_eq!(codec_type, "subtitle");
            assert_eq!(cause.name, "unheard_of");
            assert_eq!(cause.fault, Fault::Unknown);
            assert_eq!(raw, JsonValue::Object(members.clone()));
        }
        other => panic!("{other:?}"),
    }
}

#[test]
fn audio_stream_reads_numbers_given_as_text_or_as_numbers() {
    let stream = stream_of(AUDIO, false).unwrap();
    let StreamKinds::Audio(audio) = &stream.stream else { panic!() };
    assert_eq!(audio.sample_rate, 48000);
    assert_eq!(audio.bit_rate, Some(128000));
    assert_eq!(audio.bits_per_raw_sample, None);
    assert_eq!(audio.channels, 2);
    assert_eq!(audio.channel_layout.as_deref(), Some("stereo"));

    let native = AUDIO.replace("\"sample_rate\": \"48000\"", "\"sample_rate\": 44100");
    let stream = stream_of(&native, false).unwrap();
    let StreamKinds::Audio(audio) = &stream.stream else { panic!() };
    assert_eq!(audio.sample_rate, 44100);
}

#[test]
fn malformed_scalar_fails_the_record() {
    let bad = AUDIO.replace("\"sample_rate\": \"48000\"", "\"sample_rate\": \"48k\"");
    match stream_of(&bad, false) {
        Err(DecodeError::Variant { cause, .. }) => {
            assert_eq!(cause.name, "sample_rate");
            match cause.fault {
                Fault::Malformed(m) => {
                    assert_eq!(m.raw, "48k");
                    assert_eq!(m.grammar, Grammar::Integer);
                }
                other => panic!("{other:?}"),
            }
        }
        other => panic!("{other:?}"),
    }
    let bad = envelope(0, VIDEO).replace("\"time_base\": \"1/1000\"", "\"time_base\": \"1-1000\"");
    match FfProbe::from_slice(&document(&[bad], ""), Sections::all(), false) {
        Err(e @ DecodeError::Member(_)) => {
            assert_eq!(
                e.message(),
                "member `time_base`: `1-1000` is not a ratio, `N:D` or `N/D`"
            );
        }
        other => panic!("{other:?}"),
    }
    let bad = envelope(0, VIDEO).replace("\"codec_tag\": \"0x31637661\"", "\"codec_tag\": \"0x3163766\"");
    match FfProbe::from_slice(&document(&[bad], ""), Sections::all(), false) {
        Err(DecodeError::Member(e)) => {
            assert_eq!(e.name, "codec_tag");
            assert!(matches!(e.fault, Fault::Malformed(m) if m.grammar == Grammar::Hex));
        }
        other => panic!("{other:?}"),
    }
}

#[test]
fn wrong_types_are_refused() {
    let bad = VIDEO.replace("\"width\": 1920", "\"width\": \"1920\"");
    match stream_of(&bad, false) {
        Err(DecodeError::Variant { cause, .. }) => {
            assert_eq!(cause.name, "width");
            assert_eq!(
                cause.fault,
                Fault::WrongType { expected: Shape::Integer, found: JsonType::Text }
            );
        }
        other => panic!("{other:?}"),
    }
    let bad = VIDEO.replace("\"width\": 1920", "\"width\": 1920.5");
    assert!(matches!(stream_of(&bad, false), Err(DecodeError::Variant { .. })));
    let bad = VIDEO.replace("\"width\": 1920", "\"width\": 9223372036854775808");
    assert!(matches!(stream_of(&bad, false), Err(DecodeError::Variant { .. })));
    let bad = VIDEO.replace("\"width\": 1920", "\"width\": null");
    assert!(matches!(stream_of(&bad, false), Err(DecodeError::Variant { .. })));
    let bad = envelope(0, VIDEO).replace("\"index\": 0", "\"index\": -1");
    match FfProbe::from_slice(&document(&[bad], ""), Sections::all(), false) {
        Err(DecodeError::Member(e)) => {
            assert_eq!(e.name, "index");
            assert_eq!(
                e.fault,
                Fault::WrongType { expected: Shape::Unsigned, found: JsonType::Number }
            );
        }
        other => panic!("{other:?}"),
    }
}

#[test]
fn tag_overflow_keeps_every_unknown_member() {
    let stream = stream_of(AUDIO, false).unwrap();
    let StreamKinds::Audio(audio) = &stream.stream else { panic!() };
    let tags = audio.tags.as_ref().unwrap();
    // three known members
    assert_eq!(tags.tags.language.as_deref(), Some("eng"));
    assert_eq!(tags.tags.handler_name.as_deref(), Some("SoundHandler"));
    assert_eq!(tags.tags.bps, Some(128000));
    // one unknown member
    assert_eq!(tags.extra, vec![member("mood", text("calm"))]);
    // none in both places
    for (name, _) in &tags.extra {
        assert!(!["language", "HANDLER_NAME", "BPS"].contains(&name.as_str()));
    }
}

#[test]
fn tag_overflow_counts_unknown_members() {
    let members = vec![
        member("zeta", number(1)),
        member("filename", text("a.ttf")),
        member("alpha", JsonValue::Null),
        member("mimetype", text("font/ttf")),
        member("title", text("A")),
        member("beta", JsonValue::Array(vec![number(1), text("x")])),
    ];
    let tags = ffprobe::AttachmentTags::from_members(&members).unwrap();
    assert_eq!(tags.filename, "a.ttf");
    assert_eq!(tags.mimetype, "font/ttf");
    assert_eq!(tags.title.as_deref(), Some("A"));
    assert_eq!(tags.extra.len(), 3);
    assert_eq!(
        tags.extra,
        vec![
            member("zeta", number(1)),
            member("alpha", JsonValue::Null),
            member("beta", JsonValue::Array(vec![number(1), text("x")])),
        ]
    );
}

#[test]
fn format_tags_keep_aliases_apart() {
    let probe = FfProbe::from_slice(&document(&[envelope(0, VIDEO)], ""), Sections::all(), false).unwrap();
    let tags = probe.format.tags.unwrap();
    assert_eq!(tags.title.as_deref(), Some("Big Buck Bunny"));
    assert_eq!(tags.encoder.as_deref(), Some("Lavf58"));
    assert_eq!(tags.encoder_, None);
    assert_eq!(tags.sony_xdcam.company_name.as_deref(), Some("Sony"));
    assert_eq!(tags.extra, vec![member("rating", number(5))]);

    let members = vec![
        member("ENCODER", text("x264")),
        member("MOVIE/ENCODER", text("Lavf")),
    ];
    let tags = ffprobe::FormatTags::from_members(&members).unwrap();
    assert_eq!(tags.encoder.as_deref(), Some("x264"));
    assert_eq!(tags.encoder_.as_deref(), Some("Lavf"));
    assert!(tags.extra.is_empty());

    let members = vec![member("encoder", text("a")), member("ENCODER", text("b"))];
    let e = ffprobe::FormatTags::from_members(&members).unwrap_err();
    assert_eq!(e.name, "encoder");
    assert_eq!(e.fault, Fault::Duplicate);
}

#[test]
fn time_conversion_identity() {
    let rest = AUDIO;
    let text = envelope(0, rest).replace("\"start_pts\": 0", "\"start_pts\": 2500");
    let probe = FfProbe::from_slice(&document(&[text], ""), Sections::all(), false).unwrap();
    let stream = &probe.streams[0];
    let start = stream.start_time();
    assert_eq!(start, Seconds { numerator: 2500, denominator: 1000 });
    assert_eq!(start.numerator as f64 / start.denominator as f64, 2.5);
    assert_eq!(stream.duration(), Some(Duration::from_secs(5)));
    assert_eq!(stream.duration().unwrap().as_millis(), 5000);
}

#[test]
fn duration_comes_from_the_active_variant() {
    assert_eq!(stream_of(VIDEO, false).unwrap().duration(), None);
    assert_eq!(stream_of(SUBTITLE, false).unwrap().duration(), None);
    assert_eq!(stream_of(ATTACHMENT, false).unwrap().duration(), Some(Duration::from_millis(7)));
    assert_eq!(stream_of(DATA, false).unwrap().duration(), Some(Duration::from_millis(9)));
    let with = VIDEO.replace("\"refs\": 1", "\"refs\": 1, \"duration_ts\": 90");
    assert_eq!(stream_of(&with, false).unwrap().duration(), Some(Duration::from_millis(90)));
}

#[test]
fn zero_denominator_surfaces_only_when_time_is_asked_for() {
    let text = envelope(0, AUDIO).replace("\"time_base\": \"1/1000\"", "\"time_base\": \"1/0\"");
    let probe = FfProbe::from_slice(&document(&[text], ""), Sections::all(), false).unwrap();
    let stream = &probe.streams[0];
    assert_eq!(stream.time_base, Ratio::new(1, 0));
    assert_eq!(stream.start_time(), Seconds { numerator: 0, denominator: 0 });
    assert_eq!(stream.duration(), Some(Duration::from_millis(u64::MAX)));
}

#[test]
fn chapters_convert_their_time_stamps() {
    let chapters = r#"
        { "id": 0, "time_base": "1/1000", "start": 0, "end": 2500, "tags": { "title": "Intro" } },
        { "id": 1, "time_base": "1/90000", "start": 225000, "end": 450000, "tags": { "title": "Main" } },
        { "id": 1, "time_base": "1/1000", "start": -5, "end": -1, "tags": { "title": "Before" } }"#;
    let probe = FfProbe::from_slice(&document(&[envelope(0, VIDEO)], chapters), Sections::all(), false).unwrap();
    assert_eq!(probe.chapters.len(), 3);
    assert_eq!(probe.chapters[0].tags.title, "Intro");
    assert_eq!(probe.chapters[0].start_time(), Duration::from_millis(0));
    assert_eq!(probe.chapters[0].end_time(), Duration::from_millis(2500));
    assert_eq!(probe.chapters[1].start_time(), Duration::from_millis(2500));
    assert_eq!(probe.chapters[1].end_time(), Duration::from_secs(5));
    assert_eq!(probe.chapters[2].id, 1);
    assert_eq!(probe.chapters[2].start_time(), Duration::from_millis(0));
    assert_eq!(probe.chapters[2].end_time(), Duration::from_millis(0));
}

#[test]
fn streams_keep_the_order_of_the_document() {
    let streams = [
        envelope(3, DATA),
        envelope(1, VIDEO),
        envelope(2, AUDIO),
        envelope(0, SUBTITLE),
    ];
    let probe = FfProbe::from_slice(&document(&streams, ""), Sections::all(), false).unwrap();
    let order: Vec<u64> = probe.streams.iter().map(|s| s.index).collect();
    assert_eq!(order, vec![3, 1, 2, 0]);
    assert!(matches!(probe.streams[0].stream, StreamKinds::Data(_)));
    assert!(matches!(probe.streams[3].stream, StreamKinds::Subtitle(_)));
}

#[test]
fn one_bad_stream_fails_the_whole_document() {
    let streams = [envelope(0, VIDEO), envelope(1, VIDEO_WITHOUT_KIND), envelope(2, AUDIO)];
    assert!(matches!(
        FfProbe::from_slice(&document(&streams, ""), Sections::all(), false),
        Err(DecodeError::NoVariant { .. })
    ));
    let streams = [envelope(0, VIDEO), "17".to_string()];
    match FfProbe::from_slice(&document(&streams, ""), Sections::all(), false) {
        Err(DecodeError::Member(e)) => {
            assert_eq!(e.name, "streams");
            assert_eq!(
                e.fault,
                Fault::WrongType { expected: Shape::Object, found: JsonType::Number }
            );
        }
        other => panic!("{other:?}"),
    }
}

#[test]
fn sections_are_required() {
    let bytes = format!(r#"{{ "streams": [], "format": {FORMAT} }}"#).into_bytes();
    match FfProbe::from_slice(&bytes, Sections::all(), false) {
        Err(DecodeError::Member(e)) => {
            assert_eq!(e.name, "chapters");
            assert_eq!(e.fault, Fault::Missing);
        }
        other => panic!("{other:?}"),
    }
    let bytes = br#"{ "streams": [], "chapters": [] }"#;
    match FfProbe::from_slice(bytes, Sections::all(), false) {
        Err(e @ DecodeError::Member(_)) => assert_eq!(e.message(), "missing member `format`"),
        other => panic!("{other:?}"),
    }
    let bytes = format!(r#"{{ "streams": [], "chapters": [], "format": {FORMAT} }}"#).into_bytes();
    let probe = FfProbe::from_slice(&bytes, Sections::all(), false).unwrap();
    assert!(probe.streams.is_empty() && probe.chapters.is_empty());
}

#[test]
fn sections_that_are_not_asked_for_are_not_looked_at() {
    let only_format = Sections { streams: false, chapters: false, format: true };
    let bytes = format!(r#"{{ "streams": 7, "format": {FORMAT} }}"#).into_bytes();
    let probe = FfProbe::from_slice(&bytes, only_format, false).unwrap();
    assert!(probe.streams.is_empty());
    assert!(probe.chapters.is_empty());
    assert_eq!(probe.format.filename, "movie.mkv");
    // in strict mode a section that is not asked for is an undeclared member
    match FfProbe::from_slice(&bytes, only_format, true) {
        Err(DecodeError::Member(e)) => {
            assert_eq!(e.name, "streams");
            assert_eq!(e.fault, Fault::Unknown);
        }
        other => panic!("{other:?}"),
    }
    let none = Sections { streams: false, chapters: false, format: false };
    let probe = FfProbe::from_slice(b"{}", none, true).unwrap();
    assert_eq!(probe.format, ffprobe::Format::default());
    let only_streams = Sections { streams: true, chapters: false, format: false };
    let probe = FfProbe::from_slice(&document(&[envelope(4, DATA)], ""), only_streams, false).unwrap();
    assert_eq!(probe.streams.len(), 1);
    assert_eq!(probe.format, ffprobe::Format::default());
}

#[test]
fn bytes_that_are_no_json_give_an_error_of_syntax() {
    for bytes in [&b""[..], b"{", b"{ \"streams\": [1,, 2] }", b"not json", b"\xff\xfe", b"{} {}"] {
        match FfProbe::from_slice(bytes, Sections::all(), false) {
            Err(e @ DecodeError::Syntax(_)) => assert!(!e.message().is_empty()),
            other => panic!("{other:?}"),
        }
    }
}

#[test]
fn a_document_that_is_no_object_is_refused() {
    for (bytes, found) in [
        (&b"[]"[..], JsonType::Array),
        (b"null", JsonType::Null),
        (b"\"x\"", JsonType::Text),
        (b"3", JsonType::Number),
        (b"true", JsonType::Boolean),
    ] {
        assert_eq!(FfProbe::from_slice(bytes, Sections::all(), false), Err(DecodeError::NotAnObject(found)));
    }
    assert_eq!(
        DecodeError::NotAnObject(JsonType::Array).message(),
        "the document is an array, not an object"
    );
}

#[test]
fn from_slice_copies_the_tree_of_the_document() {
    // A wrapper that handed back nothing of the document, or the wrong
    // members, would fail here: every kind of value is looked at.
    let bytes = br#"{ "streams": [], "chapters": [], "format": {
        "filename": "a", "nb_streams": 0, "nb_programs": 0, "nb_stream_groups": 0,
        "format_name": "n", "format_long_name": "l", "probe_score": 1,
        "tags": { "z": [1, -2, 1.5, "s", true, null, {"k": "v"}], "a": 18446744073709551615 }
    } }"#;
    let probe = FfProbe::from_slice(bytes, Sections::all(), false).unwrap();
    let tags = probe.format.tags.unwrap();
    assert_eq!(
        tags.extra,
        vec![
            member("a", number(u64::MAX)),
            member(
                "z",
                JsonValue::Array(vec![
                    number(1),
                    JsonValue::Number(JsonNumber::NegInt(-2)),
                    JsonValue::Number(JsonNumber::Float(1.5f64.to_bits())),
                    text("s"),
                    JsonValue::Bool(true),
                    JsonValue::Null,
                    JsonValue::Object(vec![member("k", text("v"))]),
                ])
            ),
        ]
    );
    assert_eq!(probe.format.size, 0);
    assert_eq!(probe.format.duration, None);
}

#[test]
fn format_duration_accessors_tell_absent_from_unreadable() {
    let mut format = ffprobe::Format::default();
    assert_eq!(format.get_duration(), None);
    assert_eq!(format.try_get_duration(), Ok(None));

    format.duration = Some("12.25".to_string());
    assert_eq!(format.get_duration(), Some(Duration::from_millis(12_250)));
    assert_eq!(format.try_get_duration(), Ok(Some(Duration::from_millis(12_250))));

    format.duration = Some("N/A".to_string());
    assert_eq!(format.get_duration(), None);
    let e = format.try_get_duration().unwrap_err();
    assert_eq!(e.raw, "N/A");
    assert_eq!(e.grammar, Grammar::Seconds);
}

#[test]
fn format_with_unreadable_duration_still_decodes() {
    let text = FORMAT.replace("596.474195", "unknown");
    let bytes = format!(r#"{{ "streams": [], "chapters": [], "format": {text} }}"#).into_bytes();
    let probe = FfProbe::from_slice(&bytes, Sections::all(), false).unwrap();
    assert_eq!(probe.format.get_duration(), None);
    assert!(probe.format.try_get_duration().is_err());
    // the start is read when the document is decoded, and fails it
    let text = FORMAT.replace("\"0.000000\"", "\"soon\"");
    let bytes = format!(r#"{{ "streams": [], "chapters": [], "format": {text} }}"#).into_bytes();
    match FfProbe::from_slice(&bytes, Sections::all(), false) {
        Err(DecodeError::Member(e)) => {
            assert_eq!(e.name, "start_time");
            assert!(matches!(e.fault, Fault::Malformed(m) if m.grammar == Grammar::Seconds));
        }
        other => panic!("{other:?}"),
    }
}

#[test]
fn defaults_are_empty() {
    let format = ffprobe::Format::default();
    assert_eq!(format.filename, "");
    assert_eq!(format.nb_streams, 0);
    assert_eq!(format.size, 0);
    assert_eq!(format.tags, None);
    let tags = ffprobe::FormatTags::default();
    assert_eq!(tags.title, None);
    assert_eq!(tags.sony_xdcam, ffprobe::SonyXDCAM::default());
    assert!(tags.extra.is_empty());
}

#[test]
fn strict_mode_wants_the_kind_in_data_and_attachments() {
    let members = vec![
        member("duration_ts", number(1)),
        member("tags", JsonValue::Object(vec![])),
    ];
    assert!(ffprobe::DataStream::from_members(&members, false).is_ok());
    let e = ffprobe::DataStream::from_members(&members, true).unwrap_err();
    assert_eq!(e.name, "codec_type");
    assert_eq!(e.fault, Fault::Missing);
    let members = vec![
        member("duration_ts", number(1)),
        member(
            "tags",
            JsonValue::Object(vec![member("filename", text("f")), member("mimetype", text("m"))]),
        ),
    ];
    assert!(ffprobe::AttachmentStream::from_members(&members, false).is_ok());
    let e = ffprobe::AttachmentStream::from_members(&members, true).unwrap_err();
    assert_eq!(e.name, "codec_type");
}

#[test]
fn strict_mode_refuses_undeclared_members() {
    let lenient = VIDEO.replace("\"refs\": 1", "\"refs\": 1, \"brand_new\": 1");
    assert!(stream_of(&lenient, false).is_ok());
    match stream_of(&lenient, true) {
        Err(DecodeError::Variant { codec_type, cause, .. }) => {
            assert_eq!(codec_type, "video");
            assert_eq!(cause.name, "brand_new");
            assert_eq!(cause.fault, Fault::Unknown);
        }
        other => panic!("{other:?}"),
    }
    // what the envelope repeats is let pass
    let repeated = VIDEO.replace("\"refs\": 1", "\"refs\": 1, \"start_time\": \"0.0\", \"duration\": \"1.0\"");
    assert!(stream_of(&repeated, true).is_ok());
    // the root declares three sections
    let bytes = format!(r#"{{ "streams": [], "chapters": [], "format": {FORMAT}, "programs": [] }}"#).into_bytes();
    assert!(FfProbe::from_slice(&bytes, Sections::all(), false).is_ok());
    match FfProbe::from_slice(&bytes, Sections::all(), true) {
        Err(e @ DecodeError::Member(_)) => assert_eq!(e.message(), "unknown member `programs`"),
        other => panic!("{other:?}"),
    }
}

#[test]
fn strict_mode_wants_the_tag_string() {
    let text = envelope(0, VIDEO).replace("\"codec_tag_string\": \"avc1\",", "");
    assert!(FfProbe::from_slice(&document(&[text.clone()], ""), Sections::all(), false).is_ok());
    match FfProbe::from_slice(&document(&[text], ""), Sections::all(), true) {
        Err(DecodeError::Member(e)) => {
            assert_eq!(e.name, "codec_tag_string");
            assert_eq!(e.fault, Fault::Missing);
        }
        other => panic!("{other:?}"),
    }
}

#[test]
fn side_data_is_read_item_by_item() {
    let rest = format!(
        "{VIDEO}, \"side_data_list\": [{{ \"side_data_type\": \"DOVI configuration record\", \"dv_profile\": 8 }}, {{}}]"
    );
    let stream = stream_of(&rest, false).unwrap();
    assert_eq!(stream.side_data_list.len(), 2);
    assert_eq!(
        stream.side_data_list[0].side_data_type.as_deref(),
        Some("DOVI configuration record")
    );
    assert_eq!(stream.side_data_list[0].dv_profile, Some(8));
    assert_eq!(stream.side_data_list[1].dv_profile, None);
    let rest = format!("{VIDEO}, \"side_data_list\": null");
    assert!(matches!(stream_of(&rest, false), Err(DecodeError::Member(_))));
}

#[test]
fn stream_tags_hold_typed_values() {
    let rest = VIDEO.replace(
        "\"refs\": 1",
        r#""refs": 1, "tags": {
            "DURATION": "00:01:30.500000000",
            "NUMBER_OF_FRAMES": "2170",
            "_STATISTICS_WRITING_DATE_UTC": "2021-03-04 05:06:07",
            "creation_time": "2021-03-04T05:06:07.000000Z",
            "filename": "cover.jpg",
            "vendor_id": "[0][0][0][0]"
        }"#,
    );
    let stream = stream_of(&rest, false).unwrap();
    let StreamKinds::Video(video) = &stream.stream else { panic!() };
    let tags = video.tags.as_ref().unwrap();
    assert_eq!(tags.tags.duration, Some(Duration::from_millis(90_500)));
    assert_eq!(tags.tags.number_of_frames, Some(2170));
    assert_eq!(
        tags.tags.statistics_writing_date_utc,
        Some(ffprobe::NaiveDateTime { seconds: 1614834367, nanoseconds: 0 })
    );
    assert_eq!(
        tags.tags.creation_time,
        Some(ffprobe::DateTime { seconds: 1614834367, nanoseconds: 0, offset: 0 })
    );
    assert_eq!(tags.filename.as_deref(), Some("cover.jpg"));
    assert_eq!(tags.tags.vendor_id.as_deref(), Some("[0][0][0][0]"));
    assert!(tags.extra.is_empty());

    let bad = rest.replace("00:01:30.500000000", "90.5");
    match stream_of(&bad, false) {
        Err(DecodeError::Variant { cause, .. }) => {
            assert_eq!(cause.name, "DURATION");
            assert!(matches!(cause.fault, Fault::Malformed(m) if m.grammar == Grammar::Clock));
        }
        other => panic!("{other:?}"),
    }
}
