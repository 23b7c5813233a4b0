//! Streams of kind `attachment`.

use crate::error::{result_is, Fault, FaultView, MemberError, MemberErrorView};
use crate::json::{find, lookup, JsonObject, Members};
use crate::member::{
    collect_unlisted, deny_undeclared, optional_text, optional_text_of, refuse, refused,
    required_object, required_object_of, required_text, required_text_of, required_unsigned,
    required_unsigned_of, then_required, undeclared, unlisted,
};
use crate::text::names_of;
use vstd::prelude::*;

verus! {

/// The tags of an attachment.
#[derive(Debug, Clone, PartialEq, Eq)]
pub struct AttachmentTags {
    pub filename: String,
    pub mimetype: String,
    pub title: Option<String>,
    /// The members that the record does not declare, as they were given.
    pub extra: JsonObject,
}

/// The mathematical model of [`AttachmentTags`].
pub struct AttachmentTagsView {
    pub filename: Seq<char>,
    pub mimetype: Seq<char>,
    pub title: Option<Seq<char>>,
    pub extra: Members,
}

impl View for AttachmentTags {
    type V = AttachmentTagsView;

    open spec fn view(&self) -> AttachmentTagsView {
        AttachmentTagsView {
            filename: self.filename@,
            mimetype: self.mimetype@,
            title: self.title.deep_view(),
            extra: self.extra.deep_view(),
        }
    }
}

impl DeepView for AttachmentTags {
    type V = AttachmentTagsView;

    open spec fn deep_view(&self) -> AttachmentTagsView {
        self@
    }
}

/// The names of the members that the record declares.
pub open spec fn attachment_tags_names() -> Seq<Seq<char>> {
    seq![
        "filename"@,
        "mimetype"@,
        "title"@,
    ]
}

/// The tags that the members of an attachment's tag object make, and aside
/// every member that is no such tag.
pub open spec fn attachment_tags_of(m: Members) -> Result<AttachmentTagsView, MemberErrorView> {
    if let Err(e) = required_text_of(m, "filename"@) {
        Err(e)
    } else if let Err(e) = required_text_of(m, "mimetype"@) {
        Err(e)
    } else if let Err(e) = optional_text_of(m, "title"@) {
        Err(e)
    } else {
        Ok(
            AttachmentTagsView {
                filename: required_text_of(m, "filename"@)->Ok_0,
                mimetype: required_text_of(m, "mimetype"@)->Ok_0,
                title: optional_text_of(m, "title"@)->Ok_0,
                extra: unlisted(m, attachment_tags_names()),
            },
        )
    }
}

impl AttachmentTags {
    /// Decodes the record from the members of its object.
    pub fn from_members(m: &JsonObject) -> (r: Result<AttachmentTags, MemberError>)
        ensures
            result_is(r, attachment_tags_of(m.deep_view())),
    {
        let names = [
            "filename",
            "mimetype",
            "title",
        ];
        assert(names_of(names@) =~= attachment_tags_names());
        let filename = required_text(m, "filename")?;
        let mimetype = required_text(m, "mimetype")?;
        let title = optional_text(m, "title")?;
        let extra = collect_unlisted(m, &names);
        Ok(
            AttachmentTags {
                filename,
                mimetype,
                title,
                extra,
            },
        )
    }
}

/// What a stream of kind `attachment` has beyond the envelope of every stream.
#[derive(Debug, Clone, PartialEq, Eq)]
pub struct AttachmentStream {
    /// Length of the stream in units of its time base.
    pub duration_ts: u64,
    pub tags: AttachmentTags,
    /// Full name of the codec.
    pub codec_long_name: Option<String>,
    pub codec_name: Option<String>,
}

/// The mathematical model of [`AttachmentStream`].
pub struct AttachmentStreamView {
    pub duration_ts: u64,
    pub tags: AttachmentTagsView,
    pub codec_long_name: Option<Seq<char>>,
    pub codec_name: Option<Seq<char>>,
}

impl View for AttachmentStream {
    type V = AttachmentStreamView;

    open spec fn view(&self) -> AttachmentStreamView {
        AttachmentStreamView {
            duration_ts: self.duration_ts,
            tags: self.tags@,
            codec_long_name: self.codec_long_name.deep_view(),
            codec_name: self.codec_name.deep_view(),
        }
    }
}

impl DeepView for AttachmentStream {
    type V = AttachmentStreamView;

    open spec fn deep_view(&self) -> AttachmentStreamView {
        self@
    }
}

/// The names of the members that the record declares, and of those that it lets
/// pass in strict mode though it keeps nothing of them.
pub open spec fn attachment_stream_names() -> Seq<Seq<char>> {
    seq![
        "duration_ts"@,
        "tags"@,
        "codec_long_name"@,
        "codec_name"@,
        "codec_type"@,
        "start_time"@,
        "duration"@,
    ]
}

/// The attachment record that the members of a stream make. In strict mode a
/// member that the record does not declare is refused before any other is read.
/// The members are then read in the order of the record, and the first that is
/// refused decides the error. Strict mode also wants the kind itself to be
/// among the members.
pub open spec fn attachment_stream_of(
    m: Members,
    strict: bool,
) -> Result<AttachmentStreamView, MemberErrorView> {
    if let Some(e) = undeclared(m, attachment_stream_names(), strict) {
        Err(e)
    } else if let Err(e) = required_unsigned_of(m, "duration_ts"@) {
        Err(e)
    } else if let Err(e) = then_required(
        required_object_of(m, "tags"@),
        |t: Members| attachment_tags_of(t),
    ) {
        Err(e)
    } else if let Err(e) = optional_text_of(m, "codec_long_name"@) {
        Err(e)
    } else if let Err(e) = optional_text_of(m, "codec_name"@) {
        Err(e)
    } else if strict && lookup(m, "codec_type"@) is None {
        Err(refused("codec_type"@, FaultView::Missing))
    } else {
        Ok(
            AttachmentStreamView {
                duration_ts: required_unsigned_of(m, "duration_ts"@)->Ok_0,
                tags: then_required(
                    required_object_of(m, "tags"@),
                    |t: Members| attachment_tags_of(t),
                )->Ok_0,
                codec_long_name: optional_text_of(m, "codec_long_name"@)->Ok_0,
                codec_name: optional_text_of(m, "codec_name"@)->Ok_0,
            },
        )
    }
}

impl AttachmentStream {
    /// Decodes the record from the members of its object.
    pub fn from_members(m: &JsonObject, strict: bool) -> (r: Result<AttachmentStream, MemberError>)
        ensures
            result_is(r, attachment_stream_of(m.deep_view(), strict)),
    {
        let names = [
            "duration_ts",
            "tags",
            "codec_long_name",
            "codec_name",
            "codec_type",
            "start_time",
            "duration",
        ];
        assert(names_of(names@) =~= attachment_stream_names());
        deny_undeclared(m, &names, strict)?;
        let duration_ts = required_unsigned(m, "duration_ts")?;
        let tags = {
            let t = required_object(m, "tags")?;
            AttachmentTags::from_members(t)?
        };
        let codec_long_name = optional_text(m, "codec_long_name")?;
        let codec_name = optional_text(m, "codec_name")?;
        if strict && find(m, "codec_type").is_none() {
            return Err(refuse("codec_type", Fault::Missing));
        }
        Ok(
            AttachmentStream {
                duration_ts,
                tags,
                codec_long_name,
                codec_name,
            },
        )
    }
}

} // verus!
