//! Chapters.

use crate::duration::Duration;
use crate::error::{result_is, MemberError, MemberErrorView};
use crate::json::{JsonObject, Members};
use crate::member::{
    deny_undeclared, required_integer, required_integer_of, required_object, required_object_of,
    required_ratio, required_ratio_of, required_text, required_text_of, then_required,
    undeclared,
};
use crate::ratio::{millis_in, Ratio};
use crate::text::names_of;
use vstd::prelude::*;

verus! {

/// The tags of a chapter.
#[derive(Debug, Clone, PartialEq, Eq)]
pub struct ChapterTags {
    /// The chapter's title.
    pub title: String,
}

/// The mathematical model of [`ChapterTags`].
pub struct ChapterTagsView {
    pub title: Seq<char>,
}

impl View for ChapterTags {
    type V = ChapterTagsView;

    open spec fn view(&self) -> ChapterTagsView {
        ChapterTagsView {
            title: self.title@,
        }
    }
}

impl DeepView for ChapterTags {
    type V = ChapterTagsView;

    open spec fn deep_view(&self) -> ChapterTagsView {
        self@
    }
}

/// The tags that the members of a chapter's tag object make.
pub open spec fn chapter_tags_of(m: Members) -> Result<ChapterTagsView, MemberErrorView> {
    if let Err(e) = required_text_of(m, "title"@) {
        Err(e)
    } else {
        Ok(
            ChapterTagsView {
                title: required_text_of(m, "title"@)->Ok_0,
            },
        )
    }
}

impl ChapterTags {
    /// Decodes the record from the members of its object.
    pub fn from_members(m: &JsonObject) -> (r: Result<ChapterTags, MemberError>)
        ensures
            result_is(r, chapter_tags_of(m.deep_view())),
    {
        let title = required_text(m, "title")?;
        Ok(
            ChapterTags {
                title,
            },
        )
    }
}

/// A chapter of the container.
#[derive(Debug, Clone, PartialEq, Eq)]
pub struct Chapter {
    /// The chapter's number. Nothing keeps two chapters from bearing the same.
    pub id: i64,
    /// The length of one unit of `start` and `end`, in seconds.
    pub time_base: Ratio,
    /// Where the chapter starts, in units of the time base.
    pub start: i64,
    /// Where the chapter ends, in units of the time base.
    pub end: i64,
    pub tags: ChapterTags,
}

/// The mathematical model of [`Chapter`].
pub struct ChapterView {
    pub id: i64,
    pub time_base: (u64, u64),
    pub start: i64,
    pub end: i64,
    pub tags: ChapterTagsView,
}

impl View for Chapter {
    type V = ChapterView;

    open spec fn view(&self) -> ChapterView {
        ChapterView {
            id: self.id,
            time_base: self.time_base@,
            start: self.start,
            end: self.end,
            tags: self.tags@,
        }
    }
}

impl DeepView for Chapter {
    type V = ChapterView;

    open spec fn deep_view(&self) -> ChapterView {
        self@
    }
}

/// The names of the members that the record declares, and of those that it lets
/// pass in strict mode though it keeps nothing of them.
pub open spec fn chapter_names() -> Seq<Seq<char>> {
    seq![
        "id"@,
        "time_base"@,
        "start"@,
        "end"@,
        "tags"@,
        "start_time"@,
        "end_time"@,
    ]
}

/// The chapter that the members of an object make. In strict mode a member that
/// the record does not declare is refused before any other is read. The members
/// are then read in the order of the record, and the first that is refused
/// decides the error.
pub open spec fn chapter_of(m: Members, strict: bool) -> Result<ChapterView, MemberErrorView> {
    if let Some(e) = undeclared(m, chapter_names(), strict) {
        Err(e)
    } else if let Err(e) = required_integer_of(m, "id"@) {
        Err(e)
    } else if let Err(e) = required_ratio_of(m, "time_base"@) {
        Err(e)
    } else if let Err(e) = required_integer_of(m, "start"@) {
        Err(e)
    } else if let Err(e) = required_integer_of(m, "end"@) {
        Err(e)
    } else if let Err(e) = then_required(
        required_object_of(m, "tags"@),
        |t: Members| chapter_tags_of(t),
    ) {
        Err(e)
    } else {
        Ok(
            ChapterView {
                id: required_integer_of(m, "id"@)->Ok_0,
                time_base: required_ratio_of(m, "time_base"@)->Ok_0,
                start: required_integer_of(m, "start"@)->Ok_0,
                end: required_integer_of(m, "end"@)->Ok_0,
                tags: then_required(
                    required_object_of(m, "tags"@),
                    |t: Members| chapter_tags_of(t),
                )->Ok_0,
            },
        )
    }
}

impl Chapter {
    /// Decodes the record from the members of its object.
    pub fn from_members(m: &JsonObject, strict: bool) -> (r: Result<Chapter, MemberError>)
        ensures
            result_is(r, chapter_of(m.deep_view(), strict)),
    {
        let names = [
            "id",
            "time_base",
            "start",
            "end",
            "tags",
            "start_time",
            "end_time",
        ];
        assert(names_of(names@) =~= chapter_names());
        deny_undeclared(m, &names, strict)?;
        let id = required_integer(m, "id")?;
        let time_base = required_ratio(m, "time_base")?;
        let start = required_integer(m, "start")?;
        let end = required_integer(m, "end")?;
        let tags = {
            let t = required_object(m, "tags")?;
            ChapterTags::from_members(t)?
        };
        Ok(
            Chapter {
                id,
                time_base,
                start,
                end,
                tags,
            },
        )
    }
}

/// The whole milliseconds from the start of the container to a time stamp of
/// a chapter. A time stamp before the start counts as the start.
pub open spec fn chapter_millis(stamp: i64, base: (u64, u64)) -> u64 {
    if stamp <= 0 {
        0
    } else {
        millis_in(stamp as nat, base)
    }
}

impl Chapter {
    /// The span from the start of the container to a time stamp.
    fn time_of(&self, stamp: i64) -> (d: Duration)
        ensures
            d@ == chapter_millis(stamp, self.time_base@) * 1_000_000,
    {
        if stamp <= 0 {
            Duration::from_millis(0)
        } else {
            Duration::from_millis(self.time_base.millis(stamp as u64))
        }
    }

    /// Where the chapter starts, to the millisecond below.
    pub fn start_time(&self) -> (d: Duration)
        ensures
            d@ == chapter_millis(self@.start, self@.time_base) * 1_000_000,
    {
        self.time_of(self.start)
    }

    /// Where the chapter ends, to the millisecond below.
    pub fn end_time(&self) -> (d: Duration)
        ensures
            d@ == chapter_millis(self@.end, self@.time_base) * 1_000_000,
    {
        self.time_of(self.end)
    }
}

} // verus!
