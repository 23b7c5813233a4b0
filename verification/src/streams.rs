//! Streams: the envelope that every stream has, and the kinds of stream.

use crate::attachment_stream::{attachment_stream_of, AttachmentStream, AttachmentStreamView};
use crate::audio_stream::{audio_stream_of, AudioStream, AudioStreamView};
use crate::data_stream::{data_stream_of, DataStream, DataStreamView};
use crate::disposition::{disposition_of, Disposition};
use crate::duration::Duration;
use crate::error::{
    lemma_message_says_something, message_of, result_is, DecodeError, DecodeErrorView, Fault,
    FaultView, MemberError, MemberErrorView, Shape,
};
use crate::json::{
    clone_members, find, lemma_view_unfolds, lookup, JsonObject, JsonValue, JsonView, Members,
};
use crate::member::{
    array_or_empty, array_or_empty_of, collect_unlisted, deny_undeclared, each, lemma_each_step,
    optional_clock, optional_clock_of, optional_datetime, optional_datetime_of,
    optional_integer, optional_integer_of, optional_integer_or_text,
    optional_integer_or_text_of, optional_naive_datetime, optional_naive_datetime_of,
    optional_text, optional_text_alias, optional_text_alias_of, optional_text_of, refuse,
    refused, required_hex, required_hex_of, required_integer, required_integer_of,
    required_object, required_object_of, required_ratio, required_ratio_of, required_unsigned,
    required_unsigned_of, then_required, undeclared, unlisted, wrong_type,
};
use crate::ratio::{millis_in, Ratio};
use crate::subtitle_stream::{subtitle_stream_of, SubtitleStream, SubtitleStreamView};
use crate::text::{names_of, text_eq};
use crate::timestamp::{DateTime, NaiveDateTime};
use crate::video_stream::{video_stream_of, VideoStream, VideoStreamView};
use vstd::prelude::*;

verus! {

/// One entry of a stream's side data.
#[derive(Debug, Clone, PartialEq, Eq)]
pub struct SideData {
    /// What the entry is, such as `DOVI configuration record`.
    pub side_data_type: Option<String>,
    pub service_type: Option<i64>,
    pub dv_version_major: Option<i64>,
    pub dv_version_minor: Option<i64>,
    pub dv_profile: Option<i64>,
    pub dv_level: Option<i64>,
    pub rpu_present_flag: Option<i64>,
    pub el_present_flag: Option<i64>,
    pub bl_present_flag: Option<i64>,
    pub dv_bl_signal_compatibility_id: Option<i64>,
}

/// The mathematical model of [`SideData`].
pub struct SideDataView {
    pub side_data_type: Option<Seq<char>>,
    pub service_type: Option<i64>,
    pub dv_version_major: Option<i64>,
    pub dv_version_minor: Option<i64>,
    pub dv_profile: Option<i64>,
    pub dv_level: Option<i64>,
    pub rpu_present_flag: Option<i64>,
    pub el_present_flag: Option<i64>,
    pub bl_present_flag: Option<i64>,
    pub dv_bl_signal_compatibility_id: Option<i64>,
}

impl View for SideData {
    type V = SideDataView;

    open spec fn view(&self) -> SideDataView {
        SideDataView {
            side_data_type: self.side_data_type.deep_view(),
            service_type: self.service_type,
            dv_version_major: self.dv_version_major,
            dv_version_minor: self.dv_version_minor,
            dv_profile: self.dv_profile,
            dv_level: self.dv_level,
            rpu_present_flag: self.rpu_present_flag,
            el_present_flag: self.el_present_flag,
            bl_present_flag: self.bl_present_flag,
            dv_bl_signal_compatibility_id: self.dv_bl_signal_compatibility_id,
        }
    }
}

impl DeepView for SideData {
    type V = SideDataView;

    open spec fn deep_view(&self) -> SideDataView {
        self@
    }
}

/// The names of the members that the record declares.
pub open spec fn side_data_names() -> Seq<Seq<char>> {
    seq![
        "side_data_type"@,
        "service_type"@,
        "dv_version_major"@,
        "dv_version_minor"@,
        "dv_profile"@,
        "dv_level"@,
        "rpu_present_flag"@,
        "el_present_flag"@,
        "bl_present_flag"@,
        "dv_bl_signal_compatibility_id"@,
    ]
}

/// The side data entry that the members of an object make. Every member may be
/// left out. In strict mode a member that the record does not declare is
/// refused before any other is read.
pub open spec fn side_data_of(m: Members, strict: bool) -> Result<SideDataView, MemberErrorView> {
    if let Some(e) = undeclared(m, side_data_names(), strict) {
        Err(e)
    } else if let Err(e) = optional_text_of(m, "side_data_type"@) {
        Err(e)
    } else if let Err(e) = optional_integer_of(m, "service_type"@) {
        Err(e)
    } else if let Err(e) = optional_integer_of(m, "dv_version_major"@) {
        Err(e)
    } else if let Err(e) = optional_integer_of(m, "dv_version_minor"@) {
        Err(e)
    } else if let Err(e) = optional_integer_of(m, "dv_profile"@) {
        Err(e)
    } else if let Err(e) = optional_integer_of(m, "dv_level"@) {
        Err(e)
    } else if let Err(e) = optional_integer_of(m, "rpu_present_flag"@) {
        Err(e)
    } else if let Err(e) = optional_integer_of(m, "el_present_flag"@) {
        Err(e)
    } else if let Err(e) = optional_integer_of(m, "bl_present_flag"@) {
        Err(e)
    } else if let Err(e) = optional_integer_of(m, "dv_bl_signal_compatibility_id"@) {
        Err(e)
    } else {
        Ok(
            SideDataView {
                side_data_type: optional_text_of(m, "side_data_type"@)->Ok_0,
                service_type: optional_integer_of(m, "service_type"@)->Ok_0,
                dv_version_major: optional_integer_of(m, "dv_version_major"@)->Ok_0,
                dv_version_minor: optional_integer_of(m, "dv_version_minor"@)->Ok_0,
                dv_profile: optional_integer_of(m, "dv_profile"@)->Ok_0,
                dv_level: optional_integer_of(m, "dv_level"@)->Ok_0,
                rpu_present_flag: optional_integer_of(m, "rpu_present_flag"@)->Ok_0,
                el_present_flag: optional_integer_of(m, "el_present_flag"@)->Ok_0,
                bl_present_flag: optional_integer_of(m, "bl_present_flag"@)->Ok_0,
                dv_bl_signal_compatibility_id: optional_integer_of(
                    m,
                    "dv_bl_signal_compatibility_id"@,
                )->Ok_0,
            },
        )
    }
}

impl SideData {
    /// Decodes the record from the members of its object.
    pub fn from_members(m: &JsonObject, strict: bool) -> (r: Result<SideData, MemberError>)
        ensures
            result_is(r, side_data_of(m.deep_view(), strict)),
    {
        let names = [
            "side_data_type",
            "service_type",
            "dv_version_major",
            "dv_version_minor",
            "dv_profile",
            "dv_level",
            "rpu_present_flag",
            "el_present_flag",
            "bl_present_flag",
            "dv_bl_signal_compatibility_id",
        ];
        assert(names_of(names@) =~= side_data_names());
        deny_undeclared(m, &names, strict)?;
        let side_data_type = optional_text(m, "side_data_type")?;
        let service_type = optional_integer(m, "service_type")?;
        let dv_version_major = optional_integer(m, "dv_version_major")?;
        let dv_version_minor = optional_integer(m, "dv_version_minor")?;
        let dv_profile = optional_integer(m, "dv_profile")?;
        let dv_level = optional_integer(m, "dv_level")?;
        let rpu_present_flag = optional_integer(m, "rpu_present_flag")?;
        let el_present_flag = optional_integer(m, "el_present_flag")?;
        let bl_present_flag = optional_integer(m, "bl_present_flag")?;
        let dv_bl_signal_compatibility_id = optional_integer(m, "dv_bl_signal_compatibility_id")?;
        Ok(
            SideData {
                side_data_type,
                service_type,
                dv_version_major,
                dv_version_minor,
                dv_profile,
                dv_level,
                rpu_present_flag,
                el_present_flag,
                bl_present_flag,
                dv_bl_signal_compatibility_id,
            },
        )
    }
}

/// The tags that audio, video and subtitle streams have in common.
#[derive(Debug, Clone, PartialEq, Eq)]
pub struct StreamTags {
    /// Bits per second.
    pub bps: Option<i64>,
    /// The length of the stream, given as a time of day.
    pub duration: Option<Duration>,
    /// Size of the stream in bytes.
    pub number_of_bytes: Option<i64>,
    /// Number of frames in the stream.
    pub number_of_frames: Option<i64>,
    /// The names of the tags that hold statistics.
    pub statistics_tags: Option<String>,
    /// The program that wrote the statistics.
    pub statistics_writing_app: Option<String>,
    /// When the statistics were written, in UTC.
    pub statistics_writing_date_utc: Option<NaiveDateTime>,
    /// The handler of the stream; also given as `HANDLER_NAME`.
    pub handler_name: Option<String>,
    /// When the stream was made.
    pub creation_time: Option<DateTime>,
    /// The encoder of the stream; also given as `ENCODER`.
    pub encoder: Option<String>,
    /// The vendor of the encoder; also given as `VENDOR_ID`.
    pub vendor_id: Option<String>,
    /// The stream's title.
    pub title: Option<String>,
    /// The stream's language, such as `eng`.
    pub language: Option<String>,
}

/// The mathematical model of [`StreamTags`].
pub struct StreamTagsView {
    pub bps: Option<i64>,
    pub duration: Option<nat>,
    pub number_of_bytes: Option<i64>,
    pub number_of_frames: Option<i64>,
    pub statistics_tags: Option<Seq<char>>,
    pub statistics_writing_app: Option<Seq<char>>,
    pub statistics_writing_date_utc: Option<NaiveDateTime>,
    pub handler_name: Option<Seq<char>>,
    pub creation_time: Option<DateTime>,
    pub encoder: Option<Seq<char>>,
    pub vendor_id: Option<Seq<char>>,
    pub title: Option<Seq<char>>,
    pub language: Option<Seq<char>>,
}

impl View for StreamTags {
    type V = StreamTagsView;

    open spec fn view(&self) -> StreamTagsView {
        StreamTagsView {
            bps: self.bps,
            duration: self.duration.deep_view(),
            number_of_bytes: self.number_of_bytes,
            number_of_frames: self.number_of_frames,
            statistics_tags: self.statistics_tags.deep_view(),
            statistics_writing_app: self.statistics_writing_app.deep_view(),
            statistics_writing_date_utc: self.statistics_writing_date_utc.deep_view(),
            handler_name: self.handler_name.deep_view(),
            creation_time: self.creation_time.deep_view(),
            encoder: self.encoder.deep_view(),
            vendor_id: self.vendor_id.deep_view(),
            title: self.title.deep_view(),
            language: self.language.deep_view(),
        }
    }
}

impl DeepView for StreamTags {
    type V = StreamTagsView;

    open spec fn deep_view(&self) -> StreamTagsView {
        self@
    }
}

/// The names of the members that the record declares.
pub open spec fn stream_tags_names() -> Seq<Seq<char>> {
    seq![
        "BPS"@,
        "DURATION"@,
        "NUMBER_OF_BYTES"@,
        "NUMBER_OF_FRAMES"@,
        "_STATISTICS_TAGS"@,
        "_STATISTICS_WRITING_APP"@,
        "_STATISTICS_WRITING_DATE_UTC"@,
        "handler_name"@,
        "HANDLER_NAME"@,
        "creation_time"@,
        "encoder"@,
        "ENCODER"@,
        "vendor_id"@,
        "VENDOR_ID"@,
        "title"@,
        "language"@,
    ]
}

/// The common tags that the members of a tag object make. Every tag may be left
/// out; the first one that is refused, in the order of the record, decides the
/// error. Members that are no common tag are passed over.
pub open spec fn stream_tags_of(m: Members) -> Result<StreamTagsView, MemberErrorView> {
    if let Err(e) = optional_integer_or_text_of(m, "BPS"@) {
        Err(e)
    } else if let Err(e) = optional_clock_of(m, "DURATION"@) {
        Err(e)
    } else if let Err(e) = optional_integer_or_text_of(m, "NUMBER_OF_BYTES"@) {
        Err(e)
    } else if let Err(e) = optional_integer_or_text_of(m, "NUMBER_OF_FRAMES"@) {
        Err(e)
    } else if let Err(e) = optional_text_of(m, "_STATISTICS_TAGS"@) {
        Err(e)
    } else if let Err(e) = optional_text_of(m, "_STATISTICS_WRITING_APP"@) {
        Err(e)
    } else if let Err(e) = optional_naive_datetime_of(m, "_STATISTICS_WRITING_DATE_UTC"@) {
        Err(e)
    } else if let Err(e) = optional_text_alias_of(m, "handler_name"@, "HANDLER_NAME"@) {
        Err(e)
    } else if let Err(e) = optional_datetime_of(m, "creation_time"@) {
        Err(e)
    } else if let Err(e) = optional_text_alias_of(m, "encoder"@, "ENCODER"@) {
        Err(e)
    } else if let Err(e) = optional_text_alias_of(m, "vendor_id"@, "VENDOR_ID"@) {
        Err(e)
    } else if let Err(e) = optional_text_of(m, "title"@) {
        Err(e)
    } else if let Err(e) = optional_text_of(m, "language"@) {
        Err(e)
    } else {
        Ok(
            StreamTagsView {
                bps: optional_integer_or_text_of(m, "BPS"@)->Ok_0,
                duration: optional_clock_of(m, "DURATION"@)->Ok_0,
                number_of_bytes: optional_integer_or_text_of(m, "NUMBER_OF_BYTES"@)->Ok_0,
                number_of_frames: optional_integer_or_text_of(m, "NUMBER_OF_FRAMES"@)->Ok_0,
                statistics_tags: optional_text_of(m, "_STATISTICS_TAGS"@)->Ok_0,
                statistics_writing_app: optional_text_of(m, "_STATISTICS_WRITING_APP"@)->Ok_0,
                statistics_writing_date_utc: optional_naive_datetime_of(
                    m,
                    "_STATISTICS_WRITING_DATE_UTC"@,
                )->Ok_0,
                handler_name: optional_text_alias_of(m, "handler_name"@, "HANDLER_NAME"@)->Ok_0,
                creation_time: optional_datetime_of(m, "creation_time"@)->Ok_0,
                encoder: optional_text_alias_of(m, "encoder"@, "ENCODER"@)->Ok_0,
                vendor_id: optional_text_alias_of(m, "vendor_id"@, "VENDOR_ID"@)->Ok_0,
                title: optional_text_of(m, "title"@)->Ok_0,
                language: optional_text_of(m, "language"@)->Ok_0,
            },
        )
    }
}

impl StreamTags {
    /// Decodes the record from the members of its object.
    pub fn from_members(m: &JsonObject) -> (r: Result<StreamTags, MemberError>)
        ensures
            result_is(r, stream_tags_of(m.deep_view())),
    {
        let bps = optional_integer_or_text(m, "BPS")?;
        let duration = optional_clock(m, "DURATION")?;
        let number_of_bytes = optional_integer_or_text(m, "NUMBER_OF_BYTES")?;
        let number_of_frames = optional_integer_or_text(m, "NUMBER_OF_FRAMES")?;
        let statistics_tags = optional_text(m, "_STATISTICS_TAGS")?;
        let statistics_writing_app = optional_text(m, "_STATISTICS_WRITING_APP")?;
        let statistics_writing_date_utc = optional_naive_datetime(
            m,
            "_STATISTICS_WRITING_DATE_UTC",
        )?;
        let handler_name = optional_text_alias(m, "handler_name", "HANDLER_NAME")?;
        let creation_time = optional_datetime(m, "creation_time")?;
        let encoder = optional_text_alias(m, "encoder", "ENCODER")?;
        let vendor_id = optional_text_alias(m, "vendor_id", "VENDOR_ID")?;
        let title = optional_text(m, "title")?;
        let language = optional_text(m, "language")?;
        Ok(
            StreamTags {
                bps,
                duration,
                number_of_bytes,
                number_of_frames,
                statistics_tags,
                statistics_writing_app,
                statistics_writing_date_utc,
                handler_name,
                creation_time,
                encoder,
                vendor_id,
                title,
                language,
            },
        )
    }

    /// The names of the members that the record declares.
    pub fn names() -> (names: Vec<&'static str>)
        ensures
            names_of(names@) == stream_tags_names(),
    {
        let mut names: Vec<&'static str> = Vec::new();
        names.push("BPS");
        names.push("DURATION");
        names.push("NUMBER_OF_BYTES");
        names.push("NUMBER_OF_FRAMES");
        names.push("_STATISTICS_TAGS");
        names.push("_STATISTICS_WRITING_APP");
        names.push("_STATISTICS_WRITING_DATE_UTC");
        names.push("handler_name");
        names.push("HANDLER_NAME");
        names.push("creation_time");
        names.push("encoder");
        names.push("ENCODER");
        names.push("vendor_id");
        names.push("VENDOR_ID");
        names.push("title");
        names.push("language");
        names
    }
}

// The kinds of stream

/// What a stream has beyond its envelope, by the kind of the stream. The kind
/// is the stream's `codec_type`; the record of that kind does not repeat it.
#[derive(Debug, Clone, PartialEq, Eq)]
pub enum StreamKinds {
    Audio(AudioStream),
    Video(VideoStream),
    Subtitle(SubtitleStream),
    Attachment(AttachmentStream),
    Data(DataStream),
}

/// The mathematical model of [`StreamKinds`].
pub enum StreamKindsView {
    Audio(AudioStreamView),
    Video(VideoStreamView),
    Subtitle(SubtitleStreamView),
    Attachment(AttachmentStreamView),
    Data(DataStreamView),
}

impl View for StreamKinds {
    type V = StreamKindsView;

    open spec fn view(&self) -> StreamKindsView {
        match self {
            StreamKinds::Audio(s) => StreamKindsView::Audio(s@),
            StreamKinds::Video(s) => StreamKindsView::Video(s@),
            StreamKinds::Subtitle(s) => StreamKindsView::Subtitle(s@),
            StreamKinds::Attachment(s) => StreamKindsView::Attachment(s@),
            StreamKinds::Data(s) => StreamKindsView::Data(s@),
        }
    }
}

impl DeepView for StreamKinds {
    type V = StreamKindsView;

    open spec fn deep_view(&self) -> StreamKindsView {
        self@
    }
}

/// The kind that the members of a stream name: the text at `codec_type`.
/// A stream without that member, or with anything but a text there, names
/// none.
pub open spec fn discriminator(m: Members) -> Option<Seq<char>> {
    match lookup(m, "codec_type"@) {
        Some(JsonView::String(kind)) => Some(kind),
        _ => None,
    }
}

/// Whether `kind` is one of the five kinds of stream.
pub open spec fn is_known_kind(kind: Seq<char>) -> bool {
    kind == "audio"@ || kind == "video"@ || kind == "subtitle"@ || kind == "attachment"@ || kind
        == "data"@
}

/// What the resolver makes of the one record that the named kind calls for:
/// the record under its kind, or the record's error together with the kind
/// and the members that were looked at.
pub open spec fn committed<T>(
    kind: Seq<char>,
    m: Members,
    record: Result<T, MemberErrorView>,
    tag: spec_fn(T) -> StreamKindsView,
) -> Result<StreamKindsView, DecodeErrorView> {
    match record {
        Ok(x) => Ok(tag(x)),
        Err(cause) => Err(
            DecodeErrorView::Variant { codec_type: kind, cause, raw: JsonView::Object(m) },
        ),
    }
}

/// What the members of a stream resolve to. The kind that they name selects
/// one record, and that record alone is tried. A stream that names no kind,
/// or none of the five, resolves to nothing, whatever else it holds.
pub open spec fn stream_kind_of(m: Members, strict: bool) -> Result<
    StreamKindsView,
    DecodeErrorView,
> {
    let kind = discriminator(m);
    if kind == Some("audio"@) {
        committed(
            "audio"@,
            m,
            audio_stream_of(m, strict),
            |s: AudioStreamView| StreamKindsView::Audio(s),
        )
    } else if kind == Some("video"@) {
        committed(
            "video"@,
            m,
            video_stream_of(m, strict),
            |s: VideoStreamView| StreamKindsView::Video(s),
        )
    } else if kind == Some("attachment"@) {
        committed(
            "attachment"@,
            m,
            attachment_stream_of(m, strict),
            |s: AttachmentStreamView| StreamKindsView::Attachment(s),
        )
    } else if kind == Some("data"@) {
        committed(
            "data"@,
            m,
            data_stream_of(m, strict),
            |s: DataStreamView| StreamKindsView::Data(s),
        )
    } else if kind == Some("subtitle"@) {
        committed(
            "subtitle"@,
            m,
            subtitle_stream_of(m, strict),
            |s: SubtitleStreamView| StreamKindsView::Subtitle(s),
        )
    } else {
        Err(DecodeErrorView::NoVariant { raw: JsonView::Object(m) })
    }
}

/// The five names of kinds are five different texts.
pub proof fn lemma_kinds_differ()
    ensures
        "audio"@ != "video"@,
        "audio"@ != "subtitle"@,
        "audio"@ != "attachment"@,
        "audio"@ != "data"@,
        "video"@ != "subtitle"@,
        "video"@ != "attachment"@,
        "video"@ != "data"@,
        "subtitle"@ != "attachment"@,
        "subtitle"@ != "data"@,
        "attachment"@ != "data"@,
{
    reveal_strlit("audio");
    reveal_strlit("video");
    reveal_strlit("subtitle");
    reveal_strlit("attachment");
    reveal_strlit("data");
    assert("video"@[0] == 'v');
    assert("subtitle"@[0] == 's');
    assert("attachment"@[0] == 'a' && "attachment"@.len() == 10);
    assert("data"@[0] == 'd');
}

/// The resolver is exhaustive and never picks a kind that the stream does not
/// name: a stream that names one of the five kinds, and whose members make a
/// record of that kind, resolves to that record under that kind; a stream
/// resolves to a record of some kind only if it names that kind; and a stream
/// that names none of the five kinds fails with the error of no variant.
pub proof fn lemma_resolver_follows_discriminator(m: Members, strict: bool)
    ensures
        discriminator(m) == Some("audio"@) && audio_stream_of(m, strict) is Ok ==> stream_kind_of(
            m,
            strict,
        ) == Ok::<StreamKindsView, DecodeErrorView>(
            StreamKindsView::Audio(audio_stream_of(m, strict)->Ok_0),
        ),
        discriminator(m) == Some("video"@) && video_stream_of(m, strict) is Ok ==> stream_kind_of(
            m,
            strict,
        ) == Ok::<StreamKindsView, DecodeErrorView>(
            StreamKindsView::Video(video_stream_of(m, strict)->Ok_0),
        ),
        discriminator(m) == Some("subtitle"@) && subtitle_stream_of(m, strict) is Ok
            ==> stream_kind_of(m, strict) == Ok::<StreamKindsView, DecodeErrorView>(
            StreamKindsView::Subtitle(subtitle_stream_of(m, strict)->Ok_0),
        ),
        discriminator(m) == Some("attachment"@) && attachment_stream_of(m, strict) is Ok
            ==> stream_kind_of(m, strict) == Ok::<StreamKindsView, DecodeErrorView>(
            StreamKindsView::Attachment(attachment_stream_of(m, strict)->Ok_0),
        ),
        discriminator(m) == Some("data"@) && data_stream_of(m, strict) is Ok ==> stream_kind_of(
            m,
            strict,
        ) == Ok::<StreamKindsView, DecodeErrorView>(
            StreamKindsView::Data(data_stream_of(m, strict)->Ok_0),
        ),
        stream_kind_of(m, strict) matches Ok(StreamKindsView::Audio(_)) ==> discriminator(m)
            == Some("audio"@),
        stream_kind_of(m, strict) matches Ok(StreamKindsView::Video(_)) ==> discriminator(m)
            == Some("video"@),
        stream_kind_of(m, strict) matches Ok(StreamKindsView::Subtitle(_)) ==> discriminator(m)
            == Some("subtitle"@),
        stream_kind_of(m, strict) matches Ok(StreamKindsView::Attachment(_)) ==> discriminator(m)
            == Some("attachment"@),
        stream_kind_of(m, strict) matches Ok(StreamKindsView::Data(_)) ==> discriminator(m)
            == Some("data"@),
        !(discriminator(m) matches Some(kind) && is_known_kind(kind)) ==> stream_kind_of(m, strict)
            == Err::<StreamKindsView, DecodeErrorView>(
            DecodeErrorView::NoVariant { raw: JsonView::Object(m) },
        ),
{
    lemma_kinds_differ();
}

/// A stream that names none of the five kinds always fails, and the failure
/// has something to say. So has every other failure of the resolver.
pub proof fn lemma_unknown_kind_fails(m: Members, strict: bool)
    ensures
        !(discriminator(m) matches Some(kind) && is_known_kind(kind)) ==> stream_kind_of(m, strict)
            is Err,
        stream_kind_of(m, strict) matches Err(e) ==> message_of(e).len() > 0,
{
    if let Err(e) = stream_kind_of(m, strict) {
        lemma_message_says_something(e);
    }
}

impl StreamKinds {
    /// Resolves the members of a stream to the record of the kind that they
    /// name. The members are looked at twice, once for the kind and once for
    /// the record, and never changed: on failure the error hands them back.
    pub fn from_members(m: &JsonObject, strict: bool) -> (r: Result<
        StreamKinds,
        DecodeError,
    >)
        ensures
            result_is(r, stream_kind_of(m.deep_view(), strict)),
    {
        let kind: &String = match find(m, "codec_type") {
            Some(JsonValue::String(kind)) => kind,
            _ => {
                return Err(StreamKinds::no_variant(m));
            },
        };
        if text_eq(kind.as_str(), "audio") {
            match AudioStream::from_members(m, strict) {
                Ok(s) => Ok(StreamKinds::Audio(s)),
                Err(cause) => Err(StreamKinds::failed(kind, cause, m)),
            }
        } else if text_eq(kind.as_str(), "video") {
            match VideoStream::from_members(m, strict) {
                Ok(s) => Ok(StreamKinds::Video(s)),
                Err(cause) => Err(StreamKinds::failed(kind, cause, m)),
            }
        } else if text_eq(kind.as_str(), "attachment") {
            match AttachmentStream::from_members(m, strict) {
                Ok(s) => Ok(StreamKinds::Attachment(s)),
                Err(cause) => Err(StreamKinds::failed(kind, cause, m)),
            }
        } else if text_eq(kind.as_str(), "data") {
            match DataStream::from_members(m, strict) {
                Ok(s) => Ok(StreamKinds::Data(s)),
                Err(cause) => Err(StreamKinds::failed(kind, cause, m)),
            }
        } else if text_eq(kind.as_str(), "subtitle") {
            match SubtitleStream::from_members(m, strict) {
                Ok(s) => Ok(StreamKinds::Subtitle(s)),
                Err(cause) => Err(StreamKinds::failed(kind, cause, m)),
            }
        } else {
            Err(StreamKinds::no_variant(m))
        }
    }

    /// The error of a stream that names no kind that is known.
    fn no_variant(m: &JsonObject) -> (e: DecodeError)
        ensures
            e@ == (DecodeErrorView::NoVariant { raw: JsonView::Object(m.deep_view()) }),
    {
        let raw = JsonValue::Object(clone_members(m));
        proof {
            lemma_view_unfolds(raw);
        }
        DecodeError::NoVariant { raw }
    }

    /// The error of a stream whose members do not make the record of its kind.
    fn failed(kind: &String, cause: MemberError, m: &JsonObject) -> (e: DecodeError)
        ensures
            e@ == (DecodeErrorView::Variant {
                codec_type: kind@,
                cause: cause@,
                raw: JsonView::Object(m.deep_view()),
            }),
    {
        let raw = JsonValue::Object(clone_members(m));
        proof {
            lemma_view_unfolds(raw);
        }
        DecodeError::Variant { codec_type: kind.clone(), cause, raw }
    }

    /// The length of the stream in units of its time base, where the record
    /// of its kind gives one.
    pub fn duration_ts(&self) -> (r: Option<u64>)
        ensures
            r == duration_ts_of(self@),
    {
        match self {
            StreamKinds::Audio(s) => s.duration_ts,
            StreamKinds::Video(s) => s.duration_ts,
            StreamKinds::Subtitle(s) => s.duration_ts,
            StreamKinds::Attachment(s) => Some(s.duration_ts),
            StreamKinds::Data(s) => Some(s.duration_ts),
        }
    }
}

/// The length of a stream in units of its time base. Attachments and data
/// streams always give one; the other kinds may leave it out.
pub open spec fn duration_ts_of(kind: StreamKindsView) -> Option<u64> {
    match kind {
        StreamKindsView::Audio(s) => s.duration_ts,
        StreamKindsView::Video(s) => s.duration_ts,
        StreamKindsView::Subtitle(s) => s.duration_ts,
        StreamKindsView::Attachment(s) => Some(s.duration_ts),
        StreamKindsView::Data(s) => Some(s.duration_ts),
    }
}

// The envelope

/// A quantity of seconds as an exact quotient. A denominator of zero is kept
/// as it is: the quotient is then for the consumer to refuse.
#[derive(Debug, Clone, Copy, PartialEq, Eq, Structural)]
pub struct Seconds {
    pub numerator: i128,
    pub denominator: u64,
}

/// One stream of the container: the envelope that every stream has, around
/// the record of the stream's kind.
#[derive(Debug, Clone, PartialEq, Eq)]
pub struct Stream {
    /// The stream's identifier in the container, where it has one.
    pub id: Option<String>,
    /// The stream's place among the streams.
    pub index: u64,
    /// The flags that say what role the stream plays.
    pub disposition: Disposition,
    /// Frames per second, on average.
    pub avg_frame_rate: Ratio,
    /// The codec's tag, as bytes.
    pub codec_tag: Vec<u8>,
    /// The length of one unit of the stream's time stamps, in seconds.
    pub time_base: Ratio,
    /// Where the stream starts, in units of the time base.
    pub start_pts: i64,
    /// Side data of the stream; empty where the report has none.
    pub side_data_list: Vec<SideData>,
    pub extradata_size: Option<i64>,
    /// The lowest frame rate that shows every frame at its time.
    pub r_frame_rate: Ratio,
    /// Number of frames, as the container says.
    pub nb_frames: Option<i64>,
    /// Number of frames that the decoder saw; there only where the probe was
    /// asked to count them.
    pub nb_read_frames: Option<i64>,
    /// What the stream has by its kind.
    pub stream: StreamKinds,
}

/// The mathematical model of [`Stream`].
pub struct StreamView {
    pub id: Option<Seq<char>>,
    pub index: u64,
    pub disposition: Disposition,
    pub avg_frame_rate: (u64, u64),
    pub codec_tag: Seq<u8>,
    pub time_base: (u64, u64),
    pub start_pts: i64,
    pub side_data_list: Seq<SideDataView>,
    pub extradata_size: Option<i64>,
    pub r_frame_rate: (u64, u64),
    pub nb_frames: Option<i64>,
    pub nb_read_frames: Option<i64>,
    pub stream: StreamKindsView,
}

impl View for Stream {
    type V = StreamView;

    open spec fn view(&self) -> StreamView {
        StreamView {
            id: self.id.deep_view(),
            index: self.index,
            disposition: self.disposition,
            avg_frame_rate: self.avg_frame_rate@,
            codec_tag: self.codec_tag.deep_view(),
            time_base: self.time_base@,
            start_pts: self.start_pts,
            side_data_list: self.side_data_list.deep_view(),
            extradata_size: self.extradata_size,
            r_frame_rate: self.r_frame_rate@,
            nb_frames: self.nb_frames,
            nb_read_frames: self.nb_read_frames,
            stream: self.stream@,
        }
    }
}

impl DeepView for Stream {
    type V = StreamView;

    open spec fn deep_view(&self) -> StreamView {
        self@
    }
}

/// The names of the members that make the envelope. What a stream holds
/// under any other name is for the record of its kind.
pub open spec fn envelope_names() -> Seq<Seq<char>> {
    seq![
        "id"@,
        "index"@,
        "disposition"@,
        "avg_frame_rate"@,
        "codec_tag"@,
        "time_base"@,
        "start_pts"@,
        "side_data_list"@,
        "extradata_size"@,
        "r_frame_rate"@,
        "nb_frames"@,
        "nb_read_frames"@,
        "codec_tag_string"@,
    ]
}

/// The side data of a stream: one record for each item of the list at
/// `side_data_list`, and none where the stream has no such member.
pub open spec fn side_data_list_of(m: Members, strict: bool) -> Result<
    Seq<SideDataView>,
    MemberErrorView,
> {
    match array_or_empty_of(m, "side_data_list"@) {
        Err(e) => Err(e),
        Ok(items) => each(
            items,
            "side_data_list"@,
            |t: Members| side_data_of(t, strict),
            |e: MemberErrorView| e,
        ),
    }
}

/// What strict mode asks of the envelope beyond its members: that the
/// codec's tag is also there as a text, under `codec_tag_string`.
pub open spec fn tag_string_missing(m: Members, strict: bool) -> bool {
    strict && lookup(m, "codec_tag_string"@) is None
}

/// The stream that the members of an object make. The members of the
/// envelope are read in the order of the record, and the first that is
/// refused decides the error. Then the members that are not the envelope's
/// are resolved to the record of the stream's kind.
pub open spec fn stream_of(m: Members, strict: bool) -> Result<StreamView, DecodeErrorView> {
    if let Err(e) = optional_text_of(m, "id"@) {
        Err(DecodeErrorView::Member(e))
    } else if let Err(e) = required_unsigned_of(m, "index"@) {
        Err(DecodeErrorView::Member(e))
    } else if let Err(e) = then_required(
        required_object_of(m, "disposition"@),
        |t: Members| disposition_of(t, strict),
    ) {
        Err(DecodeErrorView::Member(e))
    } else if let Err(e) = required_ratio_of(m, "avg_frame_rate"@) {
        Err(DecodeErrorView::Member(e))
    } else if let Err(e) = required_hex_of(m, "codec_tag"@) {
        Err(DecodeErrorView::Member(e))
    } else if let Err(e) = required_ratio_of(m, "time_base"@) {
        Err(DecodeErrorView::Member(e))
    } else if let Err(e) = required_integer_of(m, "start_pts"@) {
        Err(DecodeErrorView::Member(e))
    } else if let Err(e) = side_data_list_of(m, strict) {
        Err(DecodeErrorView::Member(e))
    } else if let Err(e) = optional_integer_of(m, "extradata_size"@) {
        Err(DecodeErrorView::Member(e))
    } else if let Err(e) = required_ratio_of(m, "r_frame_rate"@) {
        Err(DecodeErrorView::Member(e))
    } else if let Err(e) = optional_integer_or_text_of(m, "nb_frames"@) {
        Err(DecodeErrorView::Member(e))
    } else if let Err(e) = optional_integer_or_text_of(m, "nb_read_frames"@) {
        Err(DecodeErrorView::Member(e))
    } else if tag_string_missing(m, strict) {
        Err(DecodeErrorView::Member(refused("codec_tag_string"@, FaultView::Missing)))
    } else if let Err(e) = stream_kind_of(unlisted(m, envelope_names()), strict) {
        Err(e)
    } else {
        Ok(
            StreamView {
                id: optional_text_of(m, "id"@)->Ok_0,
                index: required_unsigned_of(m, "index"@)->Ok_0,
                disposition: then_required(
                    required_object_of(m, "disposition"@),
                    |t: Members| disposition_of(t, strict),
                )->Ok_0,
                avg_frame_rate: required_ratio_of(m, "avg_frame_rate"@)->Ok_0,
                codec_tag: required_hex_of(m, "codec_tag"@)->Ok_0,
                time_base: required_ratio_of(m, "time_base"@)->Ok_0,
                start_pts: required_integer_of(m, "start_pts"@)->Ok_0,
                side_data_list: side_data_list_of(m, strict)->Ok_0,
                extradata_size: optional_integer_of(m, "extradata_size"@)->Ok_0,
                r_frame_rate: required_ratio_of(m, "r_frame_rate"@)->Ok_0,
                nb_frames: optional_integer_or_text_of(m, "nb_frames"@)->Ok_0,
                nb_read_frames: optional_integer_or_text_of(m, "nb_read_frames"@)->Ok_0,
                stream: stream_kind_of(unlisted(m, envelope_names()), strict)->Ok_0,
            },
        )
    }
}

/// Where a stream starts, in seconds: its first time stamp times the length
/// of one unit.
pub open spec fn start_time_of(s: StreamView) -> Seconds {
    Seconds {
        numerator: (s.start_pts * s.time_base.0) as i128,
        denominator: s.time_base.1,
    }
}

/// How long a stream lasts, in milliseconds, where the record of its kind
/// gives a length.
pub open spec fn duration_millis_of(s: StreamView) -> Option<u64> {
    match duration_ts_of(s.stream) {
        Some(units) => Some(millis_in(units as nat, s.time_base)),
        None => None,
    }
}

/// Hands on the error of a member as the error of the document.
pub(crate) fn in_document<T>(r: Result<T, MemberError>) -> (out: Result<T, DecodeError>)
    ensures
        match (r, out) {
            (Ok(a), Ok(b)) => a == b,
            (Err(e), Err(d)) => d@ == DecodeErrorView::Member(e@),
            _ => false,
        },
{
    match r {
        Ok(x) => Ok(x),
        Err(e) => Err(DecodeError::Member(e)),
    }
}

/// Decodes the side data of a stream.
#[verifier::loop_isolation(false)]
fn side_data_list(m: &JsonObject, strict: bool) -> (r: Result<
    Vec<SideData>,
    MemberError,
>)
    ensures
        result_is(r, side_data_list_of(m.deep_view(), strict)),
{
    let items = match array_or_empty(m, "side_data_list")? {
        Some(items) => items,
        None => {
            let none: Vec<SideData> = Vec::new();
            assert(none.deep_view() =~= Seq::<SideDataView>::empty());
            return Ok(none);
        },
    };
    let ghost all = items.deep_view();
    let ghost decode = |t: Members| side_data_of(t, strict);
    let ghost lift = |e: MemberErrorView| e;
    let mut out: Vec<SideData> = Vec::new();
    let mut i: usize = 0;
    assert(out.deep_view() =~= Seq::<SideDataView>::empty());
    while i < items.len()
        invariant
            i <= items.len(),
            each(all.take(i as int), "side_data_list"@, decode, lift) == Ok::<
                Seq<SideDataView>,
                MemberErrorView,
            >(out.deep_view()),
        decreases items.len() - i,
    {
        proof {
            lemma_each_step(all, "side_data_list"@, decode, lift, i as int);
            lemma_view_unfolds(items[i as int]);
        }
        let ghost before = out.deep_view();
        match &items[i] {
            JsonValue::Object(t) => match SideData::from_members(t, strict) {
                Ok(x) => {
                    out.push(x);
                    assert(out.deep_view() =~= before.push(x@));
                },
                Err(e) => {
                    return Err(e);
                },
            },
            other => {
                return Err(refuse("side_data_list", wrong_type(Shape::Object, other)));
            },
        }
        i += 1;
    }
    assert(all.take(items.len() as int) =~= all);
    Ok(out)
}

impl Stream {
    /// Decodes a stream from the members of its object.
    pub fn from_members(m: &JsonObject, strict: bool) -> (r: Result<
        Stream,
        DecodeError,
    >)
        ensures
            result_is(r, stream_of(m.deep_view(), strict)),
    {
        let names = [
            "id",
            "index",
            "disposition",
            "avg_frame_rate",
            "codec_tag",
            "time_base",
            "start_pts",
            "side_data_list",
            "extradata_size",
            "r_frame_rate",
            "nb_frames",
            "nb_read_frames",
            "codec_tag_string",
        ];
        assert(names_of(names@) =~= envelope_names());
        let id = in_document(optional_text(m, "id"))?;
        let index = in_document(required_unsigned(m, "index"))?;
        let disposition = {
            let t = in_document(required_object(m, "disposition"))?;
            in_document(Disposition::from_members(t, strict))?
        };
        let avg_frame_rate = in_document(required_ratio(m, "avg_frame_rate"))?;
        let codec_tag = in_document(required_hex(m, "codec_tag"))?;
        let time_base = in_document(required_ratio(m, "time_base"))?;
        let start_pts = in_document(required_integer(m, "start_pts"))?;
        let side_data_list = in_document(side_data_list(m, strict))?;
        let extradata_size = in_document(optional_integer(m, "extradata_size"))?;
        let r_frame_rate = in_document(required_ratio(m, "r_frame_rate"))?;
        let nb_frames = in_document(optional_integer_or_text(m, "nb_frames"))?;
        let nb_read_frames = in_document(optional_integer_or_text(m, "nb_read_frames"))?;
        if strict && find(m, "codec_tag_string").is_none() {
            return Err(DecodeError::Member(refuse("codec_tag_string", Fault::Missing)));
        }
        let rest = collect_unlisted(m, &names);
        let stream = StreamKinds::from_members(&rest, strict)?;
        Ok(
            Stream {
                id,
                index,
                disposition,
                avg_frame_rate,
                codec_tag,
                time_base,
                start_pts,
                side_data_list,
                extradata_size,
                r_frame_rate,
                nb_frames,
                nb_read_frames,
                stream,
            },
        )
    }

    /// Where the stream starts, in seconds, as an exact quotient.
    pub fn start_time(&self) -> (r: Seconds)
        ensures
            r == start_time_of(self@),
    {
        assert(-0x8000_0000_0000_0000 * 0xffff_ffff_ffff_ffff <= (self.start_pts as int) * (
        self.time_base.numerator() as int) <= 0x8000_0000_0000_0000 * 0xffff_ffff_ffff_ffff)
            by (nonlinear_arith)
            requires
                -0x8000_0000_0000_0000 <= self.start_pts as int <= 0x8000_0000_0000_0000,
                0 <= self.time_base.numerator() as int <= 0xffff_ffff_ffff_ffff,
        ;
        Seconds {
            numerator: (self.start_pts as i128) * (self.time_base.numerator() as i128),
            denominator: self.time_base.denominator(),
        }
    }

    /// How long the stream lasts, to the millisecond below, where the record
    /// of its kind gives a length.
    pub fn duration(&self) -> (r: Option<Duration>)
        ensures
            match r {
                Some(d) => duration_millis_of(self@) is Some && d@ == duration_millis_of(
                    self@,
                ).unwrap() * 1_000_000,
                None => duration_millis_of(self@) is None,
            },
    {
        match self.stream.duration_ts() {
            Some(units) => Some(Duration::from_millis(self.time_base.millis(units))),
            None => None,
        }
    }
}

} // verus!
