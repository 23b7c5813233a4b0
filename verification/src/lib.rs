//! Typed decoding of the JSON report that `ffprobe` prints about a media
//! file.
//!
//! The report is a JSON document with three sections: the streams of the
//! container, its chapters, and its format. [`FfProbe::from_slice`] reads the
//! document and decodes it into records whose members have the types that
//! they stand for: ratios, spans of time, points in time, bytes and integers,
//! whether the report writes them as numbers or as text. A stream is
//! resolved to the record of the kind that its `codec_type` names. Members
//! of a tag object that no record declares are kept aside in the record,
//! none is dropped. A member that breaks its grammar fails the decoding of
//! the whole document.
//!
//! Every function of the library is verified against a contract that says
//! what it returns for every input. The contracts are stated over models:
//! the model of a text is its sequence of characters, that of a record the
//! record with its texts and lists as sequences. What is left to other
//! crates, and believed of them, is in [`document`] and [`timestamp`].

pub mod attachment_stream;
pub mod audio_stream;
pub mod chapter;
pub mod config;
pub mod data_stream;
pub mod disposition;
pub mod document;
pub mod duration;
pub mod error;
pub mod ffprobe;
pub mod format;
pub mod json;
pub mod member;
pub mod ratio;
pub mod scalar;
pub mod streams;
pub mod subtitle_stream;
pub mod text;
pub mod timestamp;
pub mod video_stream;

pub use attachment_stream::{AttachmentStream, AttachmentTags};
pub use audio_stream::{AudioStream, AudioTags};
pub use chapter::{Chapter, ChapterTags};
pub use config::{Config, Sections};
pub use data_stream::{DataStream, DataTags};
pub use disposition::Disposition;
pub use duration::Duration;
pub use error::{DecodeError, Fault, Grammar, Malformed, MemberError, Shape};
pub use ffprobe::FfProbe;
pub use format::{Format, FormatTags, SonyXDCAM};
pub use json::{JsonNumber, JsonObject, JsonType, JsonValue};
pub use ratio::Ratio;
pub use scalar::{
    option_chronostring_to_duration, option_string_to_bool, option_string_to_datetime,
    option_string_to_duration, option_string_to_int, option_string_to_naivedatetime,
    string_to_bytes, string_to_int,
};
pub use streams::{Seconds, SideData, Stream, StreamKinds, StreamTags};
pub use subtitle_stream::{SubtititleTags, SubtitleStream};
pub use timestamp::{ClockTime, DateTime, NaiveDateTime};
pub use video_stream::{VideoStream, VideoTags};
