//! Streams of kind `audio`.

use crate::error::{result_is, MemberError, MemberErrorView};
use crate::json::{JsonObject, Members};
use crate::member::{
    collect_unlisted, deny_undeclared, optional_integer_or_text, optional_integer_or_text_of,
    optional_object, optional_object_of, optional_text, optional_text_of, optional_unsigned,
    optional_unsigned_of, required_integer, required_integer_of, required_integer_or_text,
    required_integer_or_text_of, required_text, required_text_of, then_optional, undeclared,
    unlisted,
};
use crate::streams::{stream_tags_names, stream_tags_of, StreamTags, StreamTagsView};
use crate::text::names_of;
use vstd::prelude::*;

verus! {

/// The tags of an audio stream.
#[derive(Debug, Clone, PartialEq, Eq)]
pub struct AudioTags {
    /// The tags common to streams of several kinds.
    pub tags: StreamTags,
    pub encoder_options: Option<String>,
    pub source_id: Option<String>,
    pub comment: Option<String>,
    pub track: Option<i64>,
    /// The members that the record does not declare, as they were given.
    pub extra: JsonObject,
}

/// The mathematical model of [`AudioTags`].
pub struct AudioTagsView {
    pub tags: StreamTagsView,
    pub encoder_options: Option<Seq<char>>,
    pub source_id: Option<Seq<char>>,
    pub comment: Option<Seq<char>>,
    pub track: Option<i64>,
    pub extra: Members,
}

impl View for AudioTags {
    type V = AudioTagsView;

    open spec fn view(&self) -> AudioTagsView {
        AudioTagsView {
            tags: self.tags@,
            encoder_options: self.encoder_options.deep_view(),
            source_id: self.source_id.deep_view(),
            comment: self.comment.deep_view(),
            track: self.track,
            extra: self.extra.deep_view(),
        }
    }
}

impl DeepView for AudioTags {
    type V = AudioTagsView;

    open spec fn deep_view(&self) -> AudioTagsView {
        self@
    }
}

/// The names of the members that the record declares: those of the record that
/// it embeds, and its own.
pub open spec fn audio_tags_names() -> Seq<Seq<char>> {
    stream_tags_names() + seq![
        "ENCODER_OPTIONS"@,
        "SOURCE_ID"@,
        "COMMENT"@,
        "track"@,
    ]
}

/// The tags that the members of an audio stream's tag object make: the common
/// tags, the tags of audio streams, and aside every member that is neither.
pub open spec fn audio_tags_of(m: Members) -> Result<AudioTagsView, MemberErrorView> {
    if let Err(e) = stream_tags_of(m) {
        Err(e)
    } else if let Err(e) = optional_text_of(m, "ENCODER_OPTIONS"@) {
        Err(e)
    } else if let Err(e) = optional_text_of(m, "SOURCE_ID"@) {
        Err(e)
    } else if let Err(e) = optional_text_of(m, "COMMENT"@) {
        Err(e)
    } else if let Err(e) = optional_integer_or_text_of(m, "track"@) {
        Err(e)
    } else {
        Ok(
            AudioTagsView {
                tags: stream_tags_of(m)->Ok_0,
                encoder_options: optional_text_of(m, "ENCODER_OPTIONS"@)->Ok_0,
                source_id: optional_text_of(m, "SOURCE_ID"@)->Ok_0,
                comment: optional_text_of(m, "COMMENT"@)->Ok_0,
                track: optional_integer_or_text_of(m, "track"@)->Ok_0,
                extra: unlisted(m, audio_tags_names()),
            },
        )
    }
}

impl AudioTags {
    /// Decodes the record from the members of its object.
    pub fn from_members(m: &JsonObject) -> (r: Result<AudioTags, MemberError>)
        ensures
            result_is(r, audio_tags_of(m.deep_view())),
    {
        let mut names = StreamTags::names();
        names.push("ENCODER_OPTIONS");
        names.push("SOURCE_ID");
        names.push("COMMENT");
        names.push("track");
        assert(names_of(names@) =~= audio_tags_names());
        let tags = StreamTags::from_members(m)?;
        let encoder_options = optional_text(m, "ENCODER_OPTIONS")?;
        let source_id = optional_text(m, "SOURCE_ID")?;
        let comment = optional_text(m, "COMMENT")?;
        let track = optional_integer_or_text(m, "track")?;
        let extra = collect_unlisted(m, names.as_slice());
        Ok(
            AudioTags {
                tags,
                encoder_options,
                source_id,
                comment,
                track,
                extra,
            },
        )
    }
}

/// What a stream of kind `audio` has beyond the envelope of every stream.
#[derive(Debug, Clone, PartialEq, Eq)]
pub struct AudioStream {
    /// Bits per sample.
    pub bits_per_sample: i64,
    /// Layout of the channels, such as `stereo`.
    pub channel_layout: Option<String>,
    /// Number of channels.
    pub channels: i64,
    /// Samples of padding at the start.
    pub initial_padding: i64,
    /// Sample format, such as `s16` or `flt`.
    pub sample_fmt: String,
    /// Samples per second.
    pub sample_rate: i64,
    /// Bits per second.
    pub bit_rate: Option<i64>,
    /// Full name of the codec.
    pub codec_long_name: String,
    pub codec_name: String,
    /// Length of the stream in units of its time base.
    pub duration_ts: Option<u64>,
    /// Profile of the codec, such as `High`.
    pub profile: Option<String>,
    /// Bits per sample before encoding.
    pub bits_per_raw_sample: Option<i64>,
    pub tags: Option<AudioTags>,
}

/// The mathematical model of [`AudioStream`].
pub struct AudioStreamView {
    pub bits_per_sample: i64,
    pub channel_layout: Option<Seq<char>>,
    pub channels: i64,
    pub initial_padding: i64,
    pub sample_fmt: Seq<char>,
    pub sample_rate: i64,
    pub bit_rate: Option<i64>,
    pub codec_long_name: Seq<char>,
    pub codec_name: Seq<char>,
    pub duration_ts: Option<u64>,
    pub profile: Option<Seq<char>>,
    pub bits_per_raw_sample: Option<i64>,
    pub tags: Option<AudioTagsView>,
}

impl View for AudioStream {
    type V = AudioStreamView;

    open spec fn view(&self) -> AudioStreamView {
        AudioStreamView {
            bits_per_sample: self.bits_per_sample,
            channel_layout: self.channel_layout.deep_view(),
            channels: self.channels,
            initial_padding: self.initial_padding,
            sample_fmt: self.sample_fmt@,
            sample_rate: self.sample_rate,
            bit_rate: self.bit_rate,
            codec_long_name: self.codec_long_name@,
            codec_name: self.codec_name@,
            duration_ts: self.duration_ts,
            profile: self.profile.deep_view(),
            bits_per_raw_sample: self.bits_per_raw_sample,
            tags: self.tags.deep_view(),
        }
    }
}

impl DeepView for AudioStream {
    type V = AudioStreamView;

    open spec fn deep_view(&self) -> AudioStreamView {
        self@
    }
}

/// The names of the members that the record declares, and of those that it lets
/// pass in strict mode though it keeps nothing of them.
pub open spec fn audio_stream_names() -> Seq<Seq<char>> {
    seq![
        "bits_per_sample"@,
        "channel_layout"@,
        "channels"@,
        "initial_padding"@,
        "sample_fmt"@,
        "sample_rate"@,
        "bit_rate"@,
        "codec_long_name"@,
        "codec_name"@,
        "duration_ts"@,
        "profile"@,
        "bits_per_raw_sample"@,
        "tags"@,
        "codec_type"@,
        "start_time"@,
        "duration"@,
    ]
}

/// The audio record that the members of a stream make. In strict mode a member
/// that the record does not declare is refused before any other is read. The
/// members are then read in the order of the record, and the first that is
/// refused decides the error.
pub open spec fn audio_stream_of(
    m: Members,
    strict: bool,
) -> Result<AudioStreamView, MemberErrorView> {
    if let Some(e) = undeclared(m, audio_stream_names(), strict) {
        Err(e)
    } else if let Err(e) = required_integer_of(m, "bits_per_sample"@) {
        Err(e)
    } else if let Err(e) = optional_text_of(m, "channel_layout"@) {
        Err(e)
    } else if let Err(e) = required_integer_of(m, "channels"@) {
        Err(e)
    } else if let Err(e) = required_integer_of(m, "initial_padding"@) {
        Err(e)
    } else if let Err(e) = required_text_of(m, "sample_fmt"@) {
        Err(e)
    } else if let Err(e) = required_integer_or_text_of(m, "sample_rate"@) {
        Err(e)
    } else if let Err(e) = optional_integer_or_text_of(m, "bit_rate"@) {
        Err(e)
    } else if let Err(e) = required_text_of(m, "codec_long_name"@) {
        Err(e)
    } else if let Err(e) = required_text_of(m, "codec_name"@) {
        Err(e)
    } else if let Err(e) = optional_unsigned_of(m, "duration_ts"@) {
        Err(e)
    } else if let Err(e) = optional_text_of(m, "profile"@) {
        Err(e)
    } else if let Err(e) = optional_integer_or_text_of(m, "bits_per_raw_sample"@) {
        Err(e)
    } else if let Err(e) = then_optional(
        optional_object_of(m, "tags"@),
        |t: Members| audio_tags_of(t),
    ) {
        Err(e)
    } else {
        Ok(
            AudioStreamView {
                bits_per_sample: required_integer_of(m, "bits_per_sample"@)->Ok_0,
                channel_layout: optional_text_of(m, "channel_layout"@)->Ok_0,
                channels: required_integer_of(m, "channels"@)->Ok_0,
                initial_padding: required_integer_of(m, "initial_padding"@)->Ok_0,
                sample_fmt: required_text_of(m, "sample_fmt"@)->Ok_0,
                sample_rate: required_integer_or_text_of(m, "sample_rate"@)->Ok_0,
                bit_rate: optional_integer_or_text_of(m, "bit_rate"@)->Ok_0,
                codec_long_name: required_text_of(m, "codec_long_name"@)->Ok_0,
                codec_name: required_text_of(m, "codec_name"@)->Ok_0,
                duration_ts: optional_unsigned_of(m, "duration_ts"@)->Ok_0,
                profile: optional_text_of(m, "profile"@)->Ok_0,
                bits_per_raw_sample: optional_integer_or_text_of(m, "bits_per_raw_sample"@)->Ok_0,
                tags: then_optional(
                    optional_object_of(m, "tags"@),
                    |t: Members| audio_tags_of(t),
                )->Ok_0,
            },
        )
    }
}

impl AudioStream {
    /// Decodes the record from the members of its object.
    pub fn from_members(m: &JsonObject, strict: bool) -> (r: Result<AudioStream, MemberError>)
        ensures
            result_is(r, audio_stream_of(m.deep_view(), strict)),
    {
        let names = [
            "bits_per_sample",
            "channel_layout",
            "channels",
            "initial_padding",
            "sample_fmt",
            "sample_rate",
            "bit_rate",
            "codec_long_name",
            "codec_name",
            "duration_ts",
            "profile",
            "bits_per_raw_sample",
            "tags",
            "codec_type",
            "start_time",
            "duration",
        ];
        assert(names_of(names@) =~= audio_stream_names());
        deny_undeclared(m, &names, strict)?;
        let bits_per_sample = required_integer(m, "bits_per_sample")?;
        let channel_layout = optional_text(m, "channel_layout")?;
        let channels = required_integer(m, "channels")?;
        let initial_padding = required_integer(m, "initial_padding")?;
        let sample_fmt = required_text(m, "sample_fmt")?;
        let sample_rate = required_integer_or_text(m, "sample_rate")?;
        let bit_rate = optional_integer_or_text(m, "bit_rate")?;
        let codec_long_name = required_text(m, "codec_long_name")?;
        let codec_name = required_text(m, "codec_name")?;
        let duration_ts = optional_unsigned(m, "duration_ts")?;
        let profile = optional_text(m, "profile")?;
        let bits_per_raw_sample = optional_integer_or_text(m, "bits_per_raw_sample")?;
        let tags = match optional_object(m, "tags")? {
            Some(t) => Some(AudioTags::from_members(t)?),
            None => None,
        };
        Ok(
            AudioStream {
                bits_per_sample,
                channel_layout,
                channels,
                initial_padding,
                sample_fmt,
                sample_rate,
                bit_rate,
                codec_long_name,
                codec_name,
                duration_ts,
                profile,
                bits_per_raw_sample,
                tags,
            },
        )
    }
}

} // verus!
