//! Streams of kind `data`.

use crate::error::{result_is, Fault, FaultView, MemberError, MemberErrorView};
use crate::json::{find, lookup, JsonObject, Members};
use crate::member::{
    collect_unlisted, deny_undeclared, optional_text, optional_text_of, refuse, refused,
    required_object, required_object_of, required_unsigned, required_unsigned_of, then_required,
    undeclared, unlisted,
};
use crate::text::names_of;
use vstd::prelude::*;

verus! {

/// The tags of a data stream.
#[derive(Debug, Clone, PartialEq, Eq)]
pub struct DataTags {
    pub creation_time: Option<String>,
    pub language: Option<String>,
    /// The members that the record does not declare, as they were given.
    pub extra: JsonObject,
}

/// The mathematical model of [`DataTags`].
pub struct DataTagsView {
    pub creation_time: Option<Seq<char>>,
    pub language: Option<Seq<char>>,
    pub extra: Members,
}

impl View for DataTags {
    type V = DataTagsView;

    open spec fn view(&self) -> DataTagsView {
        DataTagsView {
            creation_time: self.creation_time.deep_view(),
            language: self.language.deep_view(),
            extra: self.extra.deep_view(),
        }
    }
}

impl DeepView for DataTags {
    type V = DataTagsView;

    open spec fn deep_view(&self) -> DataTagsView {
        self@
    }
}

/// The names of the members that the record declares.
pub open spec fn data_tags_names() -> Seq<Seq<char>> {
    seq![
        "creation_time"@,
        "language"@,
    ]
}

/// The tags that the members of a data stream's tag object make, and aside
/// every member that is no such tag.
pub open spec fn data_tags_of(m: Members) -> Result<DataTagsView, MemberErrorView> {
    if let Err(e) = optional_text_of(m, "creation_time"@) {
        Err(e)
    } else if let Err(e) = optional_text_of(m, "language"@) {
        Err(e)
    } else {
        Ok(
            DataTagsView {
                creation_time: optional_text_of(m, "creation_time"@)->Ok_0,
                language: optional_text_of(m, "language"@)->Ok_0,
                extra: unlisted(m, data_tags_names()),
            },
        )
    }
}

impl DataTags {
    /// Decodes the record from the members of its object.
    pub fn from_members(m: &JsonObject) -> (r: Result<DataTags, MemberError>)
        ensures
            result_is(r, data_tags_of(m.deep_view())),
    {
        let names = [
            "creation_time",
            "language",
        ];
        assert(names_of(names@) =~= data_tags_names());
        let creation_time = optional_text(m, "creation_time")?;
        let language = optional_text(m, "language")?;
        let extra = collect_unlisted(m, &names);
        Ok(
            DataTags {
                creation_time,
                language,
                extra,
            },
        )
    }
}

/// What a stream of kind `data` has beyond the envelope of every stream.
#[derive(Debug, Clone, PartialEq, Eq)]
pub struct DataStream {
    /// Length of the stream in units of its time base.
    pub duration_ts: u64,
    pub tags: DataTags,
    /// Full name of the codec.
    pub codec_long_name: Option<String>,
    pub codec_name: Option<String>,
}

/// The mathematical model of [`DataStream`].
pub struct DataStreamView {
    pub duration_ts: u64,
    pub tags: DataTagsView,
    pub codec_long_name: Option<Seq<char>>,
    pub codec_name: Option<Seq<char>>,
}

impl View for DataStream {
    type V = DataStreamView;

    open spec fn view(&self) -> DataStreamView {
        DataStreamView {
            duration_ts: self.duration_ts,
            tags: self.tags@,
            codec_long_name: self.codec_long_name.deep_view(),
            codec_name: self.codec_name.deep_view(),
        }
    }
}

impl DeepView for DataStream {
    type V = DataStreamView;

    open spec fn deep_view(&self) -> DataStreamView {
        self@
    }
}

/// The names of the members that the record declares, and of those that it lets
/// pass in strict mode though it keeps nothing of them.
pub open spec fn data_stream_names() -> Seq<Seq<char>> {
    seq![
        "duration_ts"@,
        "tags"@,
        "codec_long_name"@,
        "codec_name"@,
        "codec_type"@,
        "start_time"@,
        "duration"@,
    ]
}

/// The data record that the members of a stream make. In strict mode a member
/// that the record does not declare is refused before any other is read. The
/// members are then read in the order of the record, and the first that is
/// refused decides the error. Strict mode also wants the kind itself to be
/// among the members.
pub open spec fn data_stream_of(
    m: Members,
    strict: bool,
) -> Result<DataStreamView, MemberErrorView> {
    if let Some(e) = undeclared(m, data_stream_names(), strict) {
        Err(e)
    } else if let Err(e) = required_unsigned_of(m, "duration_ts"@) {
        Err(e)
    } else if let Err(e) = then_required(
        required_object_of(m, "tags"@),
        |t: Members| data_tags_of(t),
    ) {
        Err(e)
    } else if let Err(e) = optional_text_of(m, "codec_long_name"@) {
        Err(e)
    } else if let Err(e) = optional_text_of(m, "codec_name"@) {
        Err(e)
    } else if strict && lookup(m, "codec_type"@) is None {
        Err(refused("codec_type"@, FaultView::Missing))
    } else {
        Ok(
            DataStreamView {
                duration_ts: required_unsigned_of(m, "duration_ts"@)->Ok_0,
                tags: then_required(
                    required_object_of(m, "tags"@),
                    |t: Members| data_tags_of(t),
                )->Ok_0,
                codec_long_name: optional_text_of(m, "codec_long_name"@)->Ok_0,
                codec_name: optional_text_of(m, "codec_name"@)->Ok_0,
            },
        )
    }
}

impl DataStream {
    /// Decodes the record from the members of its object.
    pub fn from_members(m: &JsonObject, strict: bool) -> (r: Result<DataStream, MemberError>)
        ensures
            result_is(r, data_stream_of(m.deep_view(), strict)),
    {
        let names = [
            "duration_ts",
            "tags",
            "codec_long_name",
            "codec_name",
            "codec_type",
            "start_time",
            "duration",
        ];
        assert(names_of(names@) =~= data_stream_names());
        deny_undeclared(m, &names, strict)?;
        let duration_ts = required_unsigned(m, "duration_ts")?;
        let tags = {
            let t = required_object(m, "tags")?;
            DataTags::from_members(t)?
        };
        let codec_long_name = optional_text(m, "codec_long_name")?;
        let codec_name = optional_text(m, "codec_name")?;
        if strict && find(m, "codec_type").is_none() {
            return Err(refuse("codec_type", Fault::Missing));
        }
        Ok(
            DataStream {
                duration_ts,
                tags,
                codec_long_name,
                codec_name,
            },
        )
    }
}

} // verus!
