//! Streams of kind `video`.

use crate::error::{result_is, MemberError, MemberErrorView};
use crate::json::{JsonObject, Members};
use crate::member::{
    collect_unlisted, deny_undeclared, optional_object, optional_object_of, optional_ratio,
    optional_ratio_of, optional_text, optional_text_of, optional_unsigned, optional_unsigned_of,
    required_integer, required_integer_of, required_text, required_text_of, then_optional,
    undeclared, unlisted,
};
use crate::ratio::Ratio;
use crate::streams::{stream_tags_names, stream_tags_of, StreamTags, StreamTagsView};
use crate::text::names_of;
use vstd::prelude::*;

verus! {

/// The tags of a video stream.
#[derive(Debug, Clone, PartialEq, Eq)]
pub struct VideoTags {
    /// The tags common to streams of several kinds.
    pub tags: StreamTags,
    pub filename: Option<String>,
    pub mimetype: Option<String>,
    /// The members that the record does not declare, as they were given.
    pub extra: JsonObject,
}

/// The mathematical model of [`VideoTags`].
pub struct VideoTagsView {
    pub tags: StreamTagsView,
    pub filename: Option<Seq<char>>,
    pub mimetype: Option<Seq<char>>,
    pub extra: Members,
}

impl View for VideoTags {
    type V = VideoTagsView;

    open spec fn view(&self) -> VideoTagsView {
        VideoTagsView {
            tags: self.tags@,
            filename: self.filename.deep_view(),
            mimetype: self.mimetype.deep_view(),
            extra: self.extra.deep_view(),
        }
    }
}

impl DeepView for VideoTags {
    type V = VideoTagsView;

    open spec fn deep_view(&self) -> VideoTagsView {
        self@
    }
}

/// The names of the members that the record declares: those of the record that
/// it embeds, and its own.
pub open spec fn video_tags_names() -> Seq<Seq<char>> {
    stream_tags_names() + seq![
        "filename"@,
        "mimetype"@,
    ]
}

/// The tags that the members of a video stream's tag object make: the common
/// tags, the tags of video streams, and aside every member that is neither.
pub open spec fn video_tags_of(m: Members) -> Result<VideoTagsView, MemberErrorView> {
    if let Err(e) = stream_tags_of(m) {
        Err(e)
    } else if let Err(e) = optional_text_of(m, "filename"@) {
        Err(e)
    } else if let Err(e) = optional_text_of(m, "mimetype"@) {
        Err(e)
    } else {
        Ok(
            VideoTagsView {
                tags: stream_tags_of(m)->Ok_0,
                filename: optional_text_of(m, "filename"@)->Ok_0,
                mimetype: optional_text_of(m, "mimetype"@)->Ok_0,
                extra: unlisted(m, video_tags_names()),
            },
        )
    }
}

impl VideoTags {
    /// Decodes the record from the members of its object.
    pub fn from_members(m: &JsonObject) -> (r: Result<VideoTags, MemberError>)
        ensures
            result_is(r, video_tags_of(m.deep_view())),
    {
        let mut names = StreamTags::names();
        names.push("filename");
        names.push("mimetype");
        assert(names_of(names@) =~= video_tags_names());
        let tags = StreamTags::from_members(m)?;
        let filename = optional_text(m, "filename")?;
        let mimetype = optional_text(m, "mimetype")?;
        let extra = collect_unlisted(m, names.as_slice());
        Ok(
            VideoTags {
                tags,
                filename,
                mimetype,
                extra,
            },
        )
    }
}

/// What a stream of kind `video` has beyond the envelope of every stream.
#[derive(Debug, Clone, PartialEq, Eq)]
pub struct VideoStream {
    /// Width of the picture in pixels.
    pub width: i64,
    /// Height of the picture in pixels.
    pub height: i64,
    /// Height before cropping.
    pub coded_height: i64,
    /// Width before cropping.
    pub coded_width: i64,
    /// Width to height of one pixel as stored.
    pub sample_aspect_ratio: Option<Ratio>,
    /// Width to height of the picture as shown.
    pub display_aspect_ratio: Option<Ratio>,
    /// Bits per sample before encoding.
    pub bits_per_raw_sample: Option<String>,
    /// Where the chroma samples sit, such as `left`.
    pub chroma_location: Option<String>,
    /// Whether the stream carries closed captions (0 or 1).
    pub closed_captions: i64,
    /// Full name of the codec.
    pub codec_long_name: String,
    /// Short name of the codec, such as `h264`.
    pub codec_name: String,
    /// Colour primaries, such as `bt709`.
    pub color_primaries: Option<String>,
    /// Colour range, such as `tv`.
    pub color_range: Option<String>,
    /// Colour space, such as `bt709`.
    pub color_space: Option<String>,
    /// Colour transfer characteristic, such as `bt709`.
    pub color_transfer: Option<String>,
    /// The order of the fields of interlaced video.
    pub field_order: Option<String>,
    /// Whether film grain is present (0 or 1).
    pub film_grain: i64,
    /// How many frames the decoder holds back to reorder.
    pub has_b_frames: i64,
    /// Whether the stream is in AVC format, as the text `true` or `false`.
    pub is_avc: Option<String>,
    /// Level of the codec's profile.
    pub level: i64,
    /// Size of the length field of NAL units, in bytes.
    pub nal_length_size: Option<String>,
    /// Pixel format, such as `yuv420p`.
    pub pix_fmt: Option<String>,
    /// Profile of the codec, such as `High`.
    pub profile: Option<String>,
    /// Length of the stream in units of its time base.
    pub duration_ts: Option<u64>,
    /// Number of reference frames.
    pub refs: i64,
    pub tags: Option<VideoTags>,
    /// Bits per second.
    pub bit_rate: Option<String>,
    /// Whether the stream is packed as DivX packs it.
    pub divx_packed: Option<String>,
    /// Whether motion is given to the quarter of a sample.
    pub quarter_sample: Option<String>,
}

/// The mathematical model of [`VideoStream`].
pub struct VideoStreamView {
    pub width: i64,
    pub height: i64,
    pub coded_height: i64,
    pub coded_width: i64,
    pub sample_aspect_ratio: Option<(u64, u64)>,
    pub display_aspect_ratio: Option<(u64, u64)>,
    pub bits_per_raw_sample: Option<Seq<char>>,
    pub chroma_location: Option<Seq<char>>,
    pub closed_captions: i64,
    pub codec_long_name: Seq<char>,
    pub codec_name: Seq<char>,
    pub color_primaries: Option<Seq<char>>,
    pub color_range: Option<Seq<char>>,
    pub color_space: Option<Seq<char>>,
    pub color_transfer: Option<Seq<char>>,
    pub field_order: Option<Seq<char>>,
    pub film_grain: i64,
    pub has_b_frames: i64,
    pub is_avc: Option<Seq<char>>,
    pub level: i64,
    pub nal_length_size: Option<Seq<char>>,
    pub pix_fmt: Option<Seq<char>>,
    pub profile: Option<Seq<char>>,
    pub duration_ts: Option<u64>,
    pub refs: i64,
    pub tags: Option<VideoTagsView>,
    pub bit_rate: Option<Seq<char>>,
    pub divx_packed: Option<Seq<char>>,
    pub quarter_sample: Option<Seq<char>>,
}

impl View for VideoStream {
    type V = VideoStreamView;

    open spec fn view(&self) -> VideoStreamView {
        VideoStreamView {
            width: self.width,
            height: self.height,
            coded_height: self.coded_height,
            coded_width: self.coded_width,
            sample_aspect_ratio: self.sample_aspect_ratio.deep_view(),
            display_aspect_ratio: self.display_aspect_ratio.deep_view(),
            bits_per_raw_sample: self.bits_per_raw_sample.deep_view(),
            chroma_location: self.chroma_location.deep_view(),
            closed_captions: self.closed_captions,
            codec_long_name: self.codec_long_name@,
            codec_name: self.codec_name@,
            color_primaries: self.color_primaries.deep_view(),
            color_range: self.color_range.deep_view(),
            color_space: self.color_space.deep_view(),
            color_transfer: self.color_transfer.deep_view(),
            field_order: self.field_order.deep_view(),
            film_grain: self.film_grain,
            has_b_frames: self.has_b_frames,
            is_avc: self.is_avc.deep_view(),
            level: self.level,
            nal_length_size: self.nal_length_size.deep_view(),
            pix_fmt: self.pix_fmt.deep_view(),
            profile: self.profile.deep_view(),
            duration_ts: self.duration_ts,
            refs: self.refs,
            tags: self.tags.deep_view(),
            bit_rate: self.bit_rate.deep_view(),
            divx_packed: self.divx_packed.deep_view(),
            quarter_sample: self.quarter_sample.deep_view(),
        }
    }
}

impl DeepView for VideoStream {
    type V = VideoStreamView;

    open spec fn deep_view(&self) -> VideoStreamView {
        self@
    }
}

/// The names of the members that the record declares, and of those that it lets
/// pass in strict mode though it keeps nothing of them.
pub open spec fn video_stream_names() -> Seq<Seq<char>> {
    seq![
        "width"@,
        "height"@,
        "coded_height"@,
        "coded_width"@,
        "sample_aspect_ratio"@,
        "display_aspect_ratio"@,
        "bits_per_raw_sample"@,
        "chroma_location"@,
        "closed_captions"@,
        "codec_long_name"@,
        "codec_name"@,
        "color_primaries"@,
        "color_range"@,
        "color_space"@,
        "color_transfer"@,
        "field_order"@,
        "film_grain"@,
        "has_b_frames"@,
        "is_avc"@,
        "level"@,
        "nal_length_size"@,
        "pix_fmt"@,
        "profile"@,
        "duration_ts"@,
        "refs"@,
        "tags"@,
        "bit_rate"@,
        "divx_packed"@,
        "quarter_sample"@,
        "codec_type"@,
        "start_time"@,
        "duration"@,
    ]
}

/// The video record that the members of a stream make. In strict mode a member
/// that the record does not declare is refused before any other is read. The
/// members are then read in the order of the record, and the first that is
/// refused decides the error.
pub open spec fn video_stream_of(
    m: Members,
    strict: bool,
) -> Result<VideoStreamView, MemberErrorView> {
    if let Some(e) = undeclared(m, video_stream_names(), strict) {
        Err(e)
    } else if let Err(e) = required_integer_of(m, "width"@) {
        Err(e)
    } else if let Err(e) = required_integer_of(m, "height"@) {
        Err(e)
    } else if let Err(e) = required_integer_of(m, "coded_height"@) {
        Err(e)
    } else if let Err(e) = required_integer_of(m, "coded_width"@) {
        Err(e)
    } else if let Err(e) = optional_ratio_of(m, "sample_aspect_ratio"@) {
        Err(e)
    } else if let Err(e) = optional_ratio_of(m, "display_aspect_ratio"@) {
        Err(e)
    } else if let Err(e) = optional_text_of(m, "bits_per_raw_sample"@) {
        Err(e)
    } else if let Err(e) = optional_text_of(m, "chroma_location"@) {
        Err(e)
    } else if let Err(e) = required_integer_of(m, "closed_captions"@) {
        Err(e)
    } else if let Err(e) = required_text_of(m, "codec_long_name"@) {
        Err(e)
    } else if let Err(e) = required_text_of(m, "codec_name"@) {
        Err(e)
    } else if let Err(e) = optional_text_of(m, "color_primaries"@) {
        Err(e)
    } else if let Err(e) = optional_text_of(m, "color_range"@) {
        Err(e)
    } else if let Err(e) = optional_text_of(m, "color_space"@) {
        Err(e)
    } else if let Err(e) = optional_text_of(m, "color_transfer"@) {
        Err(e)
    } else if let Err(e) = optional_text_of(m, "field_order"@) {
        Err(e)
    } else if let Err(e) = required_integer_of(m, "film_grain"@) {
        Err(e)
    } else if let Err(e) = required_integer_of(m, "has_b_frames"@) {
        Err(e)
    } else if let Err(e) = optional_text_of(m, "is_avc"@) {
        Err(e)
    } else if let Err(e) = required_integer_of(m, "level"@) {
        Err(e)
    } else if let Err(e) = optional_text_of(m, "nal_length_size"@) {
        Err(e)
    } else if let Err(e) = optional_text_of(m, "pix_fmt"@) {
        Err(e)
    } else if let Err(e) = optional_text_of(m, "profile"@) {
        Err(e)
    } else if let Err(e) = optional_unsigned_of(m, "duration_ts"@) {
        Err(e)
    } else if let Err(e) = required_integer_of(m, "refs"@) {
        Err(e)
    } else if let Err(e) = then_optional(
        optional_object_of(m, "tags"@),
        |t: Members| video_tags_of(t),
    ) {
        Err(e)
    } else if let Err(e) = optional_text_of(m, "bit_rate"@) {
        Err(e)
    } else if let Err(e) = optional_text_of(m, "divx_packed"@) {
        Err(e)
    } else if let Err(e) = optional_text_of(m, "quarter_sample"@) {
        Err(e)
    } else {
        Ok(
            VideoStreamView {
                width: required_integer_of(m, "width"@)->Ok_0,
                height: required_integer_of(m, "height"@)->Ok_0,
                coded_height: required_integer_of(m, "coded_height"@)->Ok_0,
                coded_width: required_integer_of(m, "coded_width"@)->Ok_0,
                sample_aspect_ratio: optional_ratio_of(m, "sample_aspect_ratio"@)->Ok_0,
                display_aspect_ratio: optional_ratio_of(m, "display_aspect_ratio"@)->Ok_0,
                bits_per_raw_sample: optional_text_of(m, "bits_per_raw_sample"@)->Ok_0,
                chroma_location: optional_text_of(m, "chroma_location"@)->Ok_0,
                closed_captions: required_integer_of(m, "closed_captions"@)->Ok_0,
                codec_long_name: required_text_of(m, "codec_long_name"@)->Ok_0,
                codec_name: required_text_of(m, "codec_name"@)->Ok_0,
                color_primaries: optional_text_of(m, "color_primaries"@)->Ok_0,
                color_range: optional_text_of(m, "color_range"@)->Ok_0,
                color_space: optional_text_of(m, "color_space"@)->Ok_0,
                color_transfer: optional_text_of(m, "color_transfer"@)->Ok_0,
                field_order: optional_text_of(m, "field_order"@)->Ok_0,
                film_grain: required_integer_of(m, "film_grain"@)->Ok_0,
                has_b_frames: required_integer_of(m, "has_b_frames"@)->Ok_0,
                is_avc: optional_text_of(m, "is_avc"@)->Ok_0,
                level: required_integer_of(m, "level"@)->Ok_0,
                nal_length_size: optional_text_of(m, "nal_length_size"@)->Ok_0,
                pix_fmt: optional_text_of(m, "pix_fmt"@)->Ok_0,
                profile: optional_text_of(m, "profile"@)->Ok_0,
                duration_ts: optional_unsigned_of(m, "duration_ts"@)->Ok_0,
                refs: required_integer_of(m, "refs"@)->Ok_0,
                tags: then_optional(
                    optional_object_of(m, "tags"@),
                    |t: Members| video_tags_of(t),
                )->Ok_0,
                bit_rate: optional_text_of(m, "bit_rate"@)->Ok_0,
                divx_packed: optional_text_of(m, "divx_packed"@)->Ok_0,
                quarter_sample: optional_text_of(m, "quarter_sample"@)->Ok_0,
            },
        )
    }
}

impl VideoStream {
    /// Decodes the record from the members of its object.
    pub fn from_members(m: &JsonObject, strict: bool) -> (r: Result<VideoStream, MemberError>)
        ensures
            result_is(r, video_stream_of(m.deep_view(), strict)),
    {
        let names = [
            "width",
            "height",
            "coded_height",
            "coded_width",
            "sample_aspect_ratio",
            "display_aspect_ratio",
            "bits_per_raw_sample",
            "chroma_location",
            "closed_captions",
            "codec_long_name",
            "codec_name",
            "color_primaries",
            "color_range",
            "color_space",
            "color_transfer",
            "field_order",
            "film_grain",
            "has_b_frames",
            "is_avc",
            "level",
            "nal_length_size",
            "pix_fmt",
            "profile",
            "duration_ts",
            "refs",
            "tags",
            "bit_rate",
            "divx_packed",
            "quarter_sample",
            "codec_type",
            "start_time",
            "duration",
        ];
        assert(names_of(names@) =~= video_stream_names());
        deny_undeclared(m, &names, strict)?;
        let width = required_integer(m, "width")?;
        let height = required_integer(m, "height")?;
        let coded_height = required_integer(m, "coded_height")?;
        let coded_width = required_integer(m, "coded_width")?;
        let sample_aspect_ratio = optional_ratio(m, "sample_aspect_ratio")?;
        let display_aspect_ratio = optional_ratio(m, "display_aspect_ratio")?;
        let bits_per_raw_sample = optional_text(m, "bits_per_raw_sample")?;
        let chroma_location = optional_text(m, "chroma_location")?;
        let closed_captions = required_integer(m, "closed_captions")?;
        let codec_long_name = required_text(m, "codec_long_name")?;
        let codec_name = required_text(m, "codec_name")?;
        let color_primaries = optional_text(m, "color_primaries")?;
        let color_range = optional_text(m, "color_range")?;
        let color_space = optional_text(m, "color_space")?;
        let color_transfer = optional_text(m, "color_transfer")?;
        let field_order = optional_text(m, "field_order")?;
        let film_grain = required_integer(m, "film_grain")?;
        let has_b_frames = required_integer(m, "has_b_frames")?;
        let is_avc = optional_text(m, "is_avc")?;
        let level = required_integer(m, "level")?;
        let nal_length_size = optional_text(m, "nal_length_size")?;
        let pix_fmt = optional_text(m, "pix_fmt")?;
        let profile = optional_text(m, "profile")?;
        let duration_ts = optional_unsigned(m, "duration_ts")?;
        let refs = required_integer(m, "refs")?;
        let tags = match optional_object(m, "tags")? {
            Some(t) => Some(VideoTags::from_members(t)?),
            None => None,
        };
        let bit_rate = optional_text(m, "bit_rate")?;
        let divx_packed = optional_text(m, "divx_packed")?;
        let quarter_sample = optional_text(m, "quarter_sample")?;
        Ok(
            VideoStream {
                width,
                height,
                coded_height,
                coded_width,
                sample_aspect_ratio,
                display_aspect_ratio,
                bits_per_raw_sample,
                chroma_location,
                closed_captions,
                codec_long_name,
                codec_name,
                color_primaries,
                color_range,
                color_space,
                color_transfer,
                field_order,
                film_grain,
                has_b_frames,
                is_avc,
                level,
                nal_length_size,
                pix_fmt,
                profile,
                duration_ts,
                refs,
                tags,
                bit_rate,
                divx_packed,
                quarter_sample,
            },
        )
    }
}

} // verus!
