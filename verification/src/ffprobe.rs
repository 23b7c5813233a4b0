//! The report as a whole.

use crate::chapter::{chapter_of, Chapter, ChapterView};
use crate::config::{flag, Sections};
use crate::document::{copy_tree, json_document, read_document, syntax_message};
use crate::error::{result_is, DecodeError, DecodeErrorView, MemberError, MemberErrorView, Shape};
use crate::format::{empty_format, format_of, Format, FormatView};
use crate::json::{lemma_view_unfolds, JsonObject, JsonValue, JsonView, Members};
use crate::member::{
    deny_undeclared, each, lemma_each_step, refuse, required_array, required_array_of,
    required_object, required_object_of, then_required, undeclared, wrong_type,
};
use crate::streams::{in_document, stream_of, Stream, StreamView};
use crate::text::names_of;
use vstd::prelude::*;

verus! {

/// What the probe reports of one file: its streams and its chapters, each in
/// the order of the report, and its format.
#[derive(Debug, Clone, PartialEq, Eq)]
pub struct FfProbe {
    pub streams: Vec<Stream>,
    pub chapters: Vec<Chapter>,
    pub format: Format,
}

/// The mathematical model of [`FfProbe`].
pub struct FfProbeView {
    pub streams: Seq<StreamView>,
    pub chapters: Seq<ChapterView>,
    pub format: FormatView,
}

impl View for FfProbe {
    type V = FfProbeView;

    open spec fn view(&self) -> FfProbeView {
        FfProbeView {
            streams: self.streams.deep_view(),
            chapters: self.chapters.deep_view(),
            format: self.format@,
        }
    }
}

impl DeepView for FfProbe {
    type V = FfProbeView;

    open spec fn deep_view(&self) -> FfProbeView {
        self@
    }
}

/// The names of the sections of a report that are asked for.
pub open spec fn section_names(sections: Sections) -> Seq<Seq<char>> {
    flag(sections.streams, "streams"@) + flag(sections.chapters, "chapters"@) + flag(
        sections.format,
        "format"@,
    )
}

/// The streams of a report: one for each item of the list at `streams`, in
/// the order of the list.
pub open spec fn streams_of(m: Members, strict: bool) -> Result<Seq<StreamView>, DecodeErrorView> {
    match required_array_of(m, "streams"@) {
        Err(e) => Err(DecodeErrorView::Member(e)),
        Ok(items) => each(
            items,
            "streams"@,
            |t: Members| stream_of(t, strict),
            |e: MemberErrorView| DecodeErrorView::Member(e),
        ),
    }
}

/// The chapters of a report: one for each item of the list at `chapters`, in
/// the order of the list.
pub open spec fn chapters_of(
    m: Members,
    strict: bool,
) -> Result<Seq<ChapterView>, MemberErrorView> {
    match required_array_of(m, "chapters"@) {
        Err(e) => Err(e),
        Ok(items) => each(
            items,
            "chapters"@,
            |t: Members| chapter_of(t, strict),
            |e: MemberErrorView| e,
        ),
    }
}

/// The format of a report: what the object at `format` makes.
pub open spec fn format_section_of(m: Members) -> Result<FormatView, MemberErrorView> {
    then_required(required_object_of(m, "format"@), |t: Members| format_of(t))
}

/// The report that the members of the document's root make. In strict mode a
/// member that is no section asked for is refused first. Then the streams,
/// the chapters and the format are decoded, in that order and each only if it
/// is asked for, and the first failure is the failure of the whole: nothing
/// is handed out of a report of which a part was refused. A section that is
/// not asked for is empty in the report, whatever the document holds.
pub open spec fn ffprobe_of(m: Members, sections: Sections, strict: bool) -> Result<
    FfProbeView,
    DecodeErrorView,
> {
    if let Some(e) = undeclared(m, section_names(sections), strict) {
        Err(DecodeErrorView::Member(e))
    } else if sections.streams && streams_of(m, strict) is Err {
        Err(streams_of(m, strict)->Err_0)
    } else if sections.chapters && chapters_of(m, strict) is Err {
        Err(DecodeErrorView::Member(chapters_of(m, strict)->Err_0))
    } else if sections.format && format_section_of(m) is Err {
        Err(DecodeErrorView::Member(format_section_of(m)->Err_0))
    } else {
        Ok(
            FfProbeView {
                streams: if sections.streams {
                    streams_of(m, strict)->Ok_0
                } else {
                    Seq::empty()
                },
                chapters: if sections.chapters {
                    chapters_of(m, strict)->Ok_0
                } else {
                    Seq::empty()
                },
                format: if sections.format {
                    format_section_of(m)->Ok_0
                } else {
                    empty_format()
                },
            },
        )
    }
}

/// The report that a document makes: that of its members where its root is an
/// object, and none otherwise.
pub open spec fn document_of(v: JsonView, sections: Sections, strict: bool) -> Result<
    FfProbeView,
    DecodeErrorView,
> {
    match v {
        JsonView::Object(m) => ffprobe_of(m, sections, strict),
        _ => Err(DecodeErrorView::NotAnObject(v.kind())),
    }
}

/// Decodes the streams of a report.
#[verifier::loop_isolation(false)]
fn streams(m: &JsonObject, strict: bool) -> (r: Result<Vec<Stream>, DecodeError>)
    ensures
        result_is(r, streams_of(m.deep_view(), strict)),
{
    let items = in_document(required_array(m, "streams"))?;
    let ghost all = items.deep_view();
    let ghost decode = |t: Members| stream_of(t, strict);
    let ghost lift = |e: MemberErrorView| DecodeErrorView::Member(e);
    let mut out: Vec<Stream> = Vec::new();
    let mut i: usize = 0;
    assert(out.deep_view() =~= Seq::<StreamView>::empty());
    while i < items.len()
        invariant
            i <= items.len(),
            each(all.take(i as int), "streams"@, decode, lift) == Ok::<
                Seq<StreamView>,
                DecodeErrorView,
            >(out.deep_view()),
        decreases items.len() - i,
    {
        proof {
            lemma_each_step(all, "streams"@, decode, lift, i as int);
            lemma_view_unfolds(items[i as int]);
        }
        let ghost before = out.deep_view();
        match &items[i] {
            JsonValue::Object(t) => match Stream::from_members(t, strict) {
                Ok(x) => {
                    out.push(x);
                    assert(out.deep_view() =~= before.push(x@));
                },
                Err(e) => {
                    return Err(e);
                },
            },
            other => {
                return Err(
                    DecodeError::Member(refuse("streams", wrong_type(Shape::Object, other))),
                );
            },
        }
        i += 1;
    }
    assert(all.take(items.len() as int) =~= all);
    Ok(out)
}

/// Decodes the chapters of a report.
#[verifier::loop_isolation(false)]
fn chapters(m: &JsonObject, strict: bool) -> (r: Result<Vec<Chapter>, MemberError>)
    ensures
        result_is(r, chapters_of(m.deep_view(), strict)),
{
    let items = required_array(m, "chapters")?;
    let ghost all = items.deep_view();
    let ghost decode = |t: Members| chapter_of(t, strict);
    let ghost lift = |e: MemberErrorView| e;
    let mut out: Vec<Chapter> = Vec::new();
    let mut i: usize = 0;
    assert(out.deep_view() =~= Seq::<ChapterView>::empty());
    while i < items.len()
        invariant
            i <= items.len(),
            each(all.take(i as int), "chapters"@, decode, lift) == Ok::<
                Seq<ChapterView>,
                MemberErrorView,
            >(out.deep_view()),
        decreases items.len() - i,
    {
        proof {
            lemma_each_step(all, "chapters"@, decode, lift, i as int);
            lemma_view_unfolds(items[i as int]);
        }
        let ghost before = out.deep_view();
        match &items[i] {
            JsonValue::Object(t) => match Chapter::from_members(t, strict) {
                Ok(x) => {
                    out.push(x);
                    assert(out.deep_view() =~= before.push(x@));
                },
                Err(e) => {
                    return Err(e);
                },
            },
            other => {
                return Err(refuse("chapters", wrong_type(Shape::Object, other)));
            },
        }
        i += 1;
    }
    assert(all.take(items.len() as int) =~= all);
    Ok(out)
}

/// Decodes the format of a report.
fn format_section(m: &JsonObject) -> (r: Result<Format, MemberError>)
    ensures
        result_is(r, format_section_of(m.deep_view())),
{
    let t = required_object(m, "format")?;
    Format::from_members(t)
}

impl FfProbe {
    /// Decodes a report from the members of the document's root.
    pub fn from_members(m: &JsonObject, sections: Sections, strict: bool) -> (r: Result<
        FfProbe,
        DecodeError,
    >)
        ensures
            result_is(r, ffprobe_of(m.deep_view(), sections, strict)),
    {
        let mut names: Vec<&'static str> = Vec::new();
        if sections.streams {
            names.push("streams");
        }
        if sections.chapters {
            names.push("chapters");
        }
        if sections.format {
            names.push("format");
        }
        assert(names_of(names@) =~= section_names(sections));
        in_document(deny_undeclared(m, names.as_slice(), strict))?;
        let streams = if sections.streams {
            streams(m, strict)?
        } else {
            let none: Vec<Stream> = Vec::new();
            assert(none.deep_view() =~= Seq::<StreamView>::empty());
            none
        };
        let chapters = if sections.chapters {
            in_document(chapters(m, strict))?
        } else {
            let none: Vec<Chapter> = Vec::new();
            assert(none.deep_view() =~= Seq::<ChapterView>::empty());
            none
        };
        let format = if sections.format {
            in_document(format_section(m))?
        } else {
            Format::default()
        };
        Ok(FfProbe { streams, chapters, format })
    }

    /// Decodes a report from a document that was read already.
    pub fn from_value(v: &JsonValue, sections: Sections, strict: bool) -> (r: Result<
        FfProbe,
        DecodeError,
    >)
        ensures
            result_is(r, document_of(v@, sections, strict)),
    {
        proof {
            lemma_view_unfolds(*v);
        }
        match v {
            JsonValue::Object(m) => FfProbe::from_members(m, sections, strict),
            _ => Err(DecodeError::NotAnObject(v.kind())),
        }
    }

    /// Decodes a report from the bytes that the probe printed. Bytes that are
    /// no JSON document give an error of syntax; a document is decoded as
    /// [`FfProbe::from_value`] decodes it.
    pub fn from_slice(bytes: &[u8], sections: Sections, strict: bool) -> (r: Result<
        FfProbe,
        DecodeError,
    >)
        ensures
            match json_document(bytes@) {
                Some(v) => result_is(r, document_of(v, sections, strict)),
                None => r matches Err(DecodeError::Syntax(_)),
            },
    {
        match read_document(bytes) {
            Ok(v) => FfProbe::from_value(&copy_tree(&v), sections, strict),
            Err(e) => Err(DecodeError::Syntax(syntax_message(&e))),
        }
    }
}

} // verus!
