//! Streams of kind `subtitle`.

use crate::error::{result_is, MemberError, MemberErrorView};
use crate::json::{JsonObject, Members};
use crate::member::{
    collect_unlisted, deny_undeclared, optional_integer, optional_integer_of, optional_object,
    optional_object_of, optional_text, optional_text_of, optional_unsigned,
    optional_unsigned_of, required_text, required_text_of, then_optional, undeclared, unlisted,
};
use crate::streams::{stream_tags_names, stream_tags_of, StreamTags, StreamTagsView};
use crate::text::names_of;
use vstd::prelude::*;

verus! {

/// The tags of a subtitle stream.
#[derive(Debug, Clone, PartialEq, Eq)]
pub struct SubtititleTags {
    /// The tags common to streams of several kinds.
    pub tags: StreamTags,
    pub filename: Option<String>,
    pub mimetype: Option<String>,
    pub width: Option<i64>,
    pub height: Option<i64>,
    /// Bits per second.
    pub bit_rate: Option<String>,
    pub source_id: Option<String>,
    /// The members that the record does not declare, as they were given.
    pub extra: JsonObject,
}

/// The mathematical model of [`SubtititleTags`].
pub struct SubtititleTagsView {
    pub tags: StreamTagsView,
    pub filename: Option<Seq<char>>,
    pub mimetype: Option<Seq<char>>,
    pub width: Option<i64>,
    pub height: Option<i64>,
    pub bit_rate: Option<Seq<char>>,
    pub source_id: Option<Seq<char>>,
    pub extra: Members,
}

impl View for SubtititleTags {
    type V = SubtititleTagsView;

    open spec fn view(&self) -> SubtititleTagsView {
        SubtititleTagsView {
            tags: self.tags@,
            filename: self.filename.deep_view(),
            mimetype: self.mimetype.deep_view(),
            width: self.width,
            height: self.height,
            bit_rate: self.bit_rate.deep_view(),
            source_id: self.source_id.deep_view(),
            extra: self.extra.deep_view(),
        }
    }
}

impl DeepView for SubtititleTags {
    type V = SubtititleTagsView;

    open spec fn deep_view(&self) -> SubtititleTagsView {
        self@
    }
}

/// The names of the members that the record declares: those of the record that
/// it embeds, and its own.
pub open spec fn subtitle_tags_names() -> Seq<Seq<char>> {
    stream_tags_names() + seq![
        "filename"@,
        "mimetype"@,
        "width"@,
        "height"@,
        "bit_rate"@,
        "SOURCE_ID"@,
    ]
}

/// The tags that the members of a subtitle stream's tag object make: the common
/// tags, the tags of subtitle streams, and aside every member that is neither.
pub open spec fn subtitle_tags_of(m: Members) -> Result<SubtititleTagsView, MemberErrorView> {
    if let Err(e) = stream_tags_of(m) {
        Err(e)
    } else if let Err(e) = optional_text_of(m, "filename"@) {
        Err(e)
    } else if let Err(e) = optional_text_of(m, "mimetype"@) {
        Err(e)
    } else if let Err(e) = optional_integer_of(m, "width"@) {
        Err(e)
    } else if let Err(e) = optional_integer_of(m, "height"@) {
        Err(e)
    } else if let Err(e) = optional_text_of(m, "bit_rate"@) {
        Err(e)
    } else if let Err(e) = optional_text_of(m, "SOURCE_ID"@) {
        Err(e)
    } else {
        Ok(
            SubtititleTagsView {
                tags: stream_tags_of(m)->Ok_0,
                filename: optional_text_of(m, "filename"@)->Ok_0,
                mimetype: optional_text_of(m, "mimetype"@)->Ok_0,
                width: optional_integer_of(m, "width"@)->Ok_0,
                height: optional_integer_of(m, "height"@)->Ok_0,
                bit_rate: optional_text_of(m, "bit_rate"@)->Ok_0,
                source_id: optional_text_of(m, "SOURCE_ID"@)->Ok_0,
                extra: unlisted(m, subtitle_tags_names()),
            },
        )
    }
}

impl SubtititleTags {
    /// Decodes the record from the members of its object.
    pub fn from_members(m: &JsonObject) -> (r: Result<SubtititleTags, MemberError>)
        ensures
            result_is(r, subtitle_tags_of(m.deep_view())),
    {
        let mut names = StreamTags::names();
        names.push("filename");
        names.push("mimetype");
        names.push("width");
        names.push("height");
        names.push("bit_rate");
        names.push("SOURCE_ID");
        assert(names_of(names@) =~= subtitle_tags_names());
        let tags = StreamTags::from_members(m)?;
        let filename = optional_text(m, "filename")?;
        let mimetype = optional_text(m, "mimetype")?;
        let width = optional_integer(m, "width")?;
        let height = optional_integer(m, "height")?;
        let bit_rate = optional_text(m, "bit_rate")?;
        let source_id = optional_text(m, "SOURCE_ID")?;
        let extra = collect_unlisted(m, names.as_slice());
        Ok(
            SubtititleTags {
                tags,
                filename,
                mimetype,
                width,
                height,
                bit_rate,
                source_id,
                extra,
            },
        )
    }
}

/// What a stream of kind `subtitle` has beyond the envelope of every stream.
#[derive(Debug, Clone, PartialEq, Eq)]
pub struct SubtitleStream {
    /// Bits per second.
    pub bit_rate: Option<String>,
    pub width: Option<i64>,
    pub height: Option<i64>,
    /// Full name of the codec.
    pub codec_long_name: String,
    pub codec_name: String,
    /// Length of the stream in units of its time base.
    pub duration_ts: Option<u64>,
    pub tags: Option<SubtititleTags>,
}

/// The mathematical model of [`SubtitleStream`].
pub struct SubtitleStreamView {
    pub bit_rate: Option<Seq<char>>,
    pub width: Option<i64>,
    pub height: Option<i64>,
    pub codec_long_name: Seq<char>,
    pub codec_name: Seq<char>,
    pub duration_ts: Option<u64>,
    pub tags: Option<SubtititleTagsView>,
}

impl View for SubtitleStream {
    type V = SubtitleStreamView;

    open spec fn view(&self) -> SubtitleStreamView {
        SubtitleStreamView {
            bit_rate: self.bit_rate.deep_view(),
            width: self.width,
            height: self.height,
            codec_long_name: self.codec_long_name@,
            codec_name: self.codec_name@,
            duration_ts: self.duration_ts,
            tags: self.tags.deep_view(),
        }
    }
}

impl DeepView for SubtitleStream {
    type V = SubtitleStreamView;

    open spec fn deep_view(&self) -> SubtitleStreamView {
        self@
    }
}

/// The names of the members that the record declares, and of those that it lets
/// pass in strict mode though it keeps nothing of them.
pub open spec fn subtitle_stream_names() -> Seq<Seq<char>> {
    seq![
        "bit_rate"@,
        "width"@,
        "height"@,
        "codec_long_name"@,
        "codec_name"@,
        "duration_ts"@,
        "tags"@,
        "codec_type"@,
        "start_time"@,
        "duration"@,
    ]
}

/// The subtitle record that the members of a stream make. In strict mode a
/// member that the record does not declare is refused before any other is read.
/// The members are then read in the order of the record, and the first that is
/// refused decides the error.
pub open spec fn subtitle_stream_of(
    m: Members,
    strict: bool,
) -> Result<SubtitleStreamView, MemberErrorView> {
    if let Some(e) = undeclared(m, subtitle_stream_names(), strict) {
        Err(e)
    } else if let Err(e) = optional_text_of(m, "bit_rate"@) {
        Err(e)
    } else if let Err(e) = optional_integer_of(m, "width"@) {
        Err(e)
    } else if let Err(e) = optional_integer_of(m, "height"@) {
        Err(e)
    } else if let Err(e) = required_text_of(m, "codec_long_name"@) {
        Err(e)
    } else if let Err(e) = required_text_of(m, "codec_name"@) {
        Err(e)
    } else if let Err(e) = optional_unsigned_of(m, "duration_ts"@) {
        Err(e)
    } else if let Err(e) = then_optional(
        optional_object_of(m, "tags"@),
        |t: Members| subtitle_tags_of(t),
    ) {
        Err(e)
    } else {
        Ok(
            SubtitleStreamView {
                bit_rate: optional_text_of(m, "bit_rate"@)->Ok_0,
                width: optional_integer_of(m, "width"@)->Ok_0,
                height: optional_integer_of(m, "height"@)->Ok_0,
                codec_long_name: required_text_of(m, "codec_long_name"@)->Ok_0,
                codec_name: required_text_of(m, "codec_name"@)->Ok_0,
                duration_ts: optional_unsigned_of(m, "duration_ts"@)->Ok_0,
                tags: then_optional(
                    optional_object_of(m, "tags"@),
                    |t: Members| subtitle_tags_of(t),
                )->Ok_0,
            },
        )
    }
}

impl SubtitleStream {
    /// Decodes the record from the members of its object.
    pub fn from_members(m: &JsonObject, strict: bool) -> (r: Result<SubtitleStream, MemberError>)
        ensures
            result_is(r, subtitle_stream_of(m.deep_view(), strict)),
    {
        let names = [
            "bit_rate",
            "width",
            "height",
            "codec_long_name",
            "codec_name",
            "duration_ts",
            "tags",
            "codec_type",
            "start_time",
            "duration",
        ];
        assert(names_of(names@) =~= subtitle_stream_names());
        deny_undeclared(m, &names, strict)?;
        let bit_rate = optional_text(m, "bit_rate")?;
        let width = optional_integer(m, "width")?;
        let height = optional_integer(m, "height")?;
        let codec_long_name = required_text(m, "codec_long_name")?;
        let codec_name = required_text(m, "codec_name")?;
        let duration_ts = optional_unsigned(m, "duration_ts")?;
        let tags = match optional_object(m, "tags")? {
            Some(t) => Some(SubtititleTags::from_members(t)?),
            None => None,
        };
        Ok(
            SubtitleStream {
                bit_rate,
                width,
                height,
                codec_long_name,
                codec_name,
                duration_ts,
                tags,
            },
        )
    }
}

} // verus!
