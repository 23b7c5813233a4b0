//! The flags that say what role a stream plays.

use crate::error::{result_is, MemberError, MemberErrorView};
use crate::json::{JsonObject, Members};
use crate::member::{deny_undeclared, required_integer, required_integer_of, undeclared};
use crate::text::names_of;
use vstd::prelude::*;

verus! {

/// The disposition of a stream: a fixed set of flags, each 0 or 1 as given.
#[derive(Debug, Clone, Copy, PartialEq, Eq, Structural)]
pub struct Disposition {
    pub attached_pic: i64,
    pub captions: i64,
    pub clean_effects: i64,
    pub comment: i64,
    pub default: i64,
    pub dependent: i64,
    pub descriptions: i64,
    pub dub: i64,
    pub forced: i64,
    pub hearing_impaired: i64,
    pub karaoke: i64,
    pub lyrics: i64,
    pub metadata: i64,
    pub non_diegetic: i64,
    pub original: i64,
    pub still_image: i64,
    pub timed_thumbnails: i64,
    pub visual_impaired: i64,
}

impl View for Disposition {
    type V = Disposition;

    open spec fn view(&self) -> Disposition {
        *self
    }
}

impl DeepView for Disposition {
    type V = Disposition;

    open spec fn deep_view(&self) -> Disposition {
        *self
    }
}

/// The names of the flags.
pub open spec fn disposition_names() -> Seq<Seq<char>> {
    seq![
        "attached_pic"@,
        "captions"@,
        "clean_effects"@,
        "comment"@,
        "default"@,
        "dependent"@,
        "descriptions"@,
        "dub"@,
        "forced"@,
        "hearing_impaired"@,
        "karaoke"@,
        "lyrics"@,
        "metadata"@,
        "non_diegetic"@,
        "original"@,
        "still_image"@,
        "timed_thumbnails"@,
        "visual_impaired"@,
    ]
}

/// The disposition that the members of an object make. Every flag is a
/// required integer. In strict mode a member that is no flag is refused
/// before any flag is read; the flags are read in the order of the record.
pub open spec fn disposition_of(m: Members, strict: bool) -> Result<Disposition, MemberErrorView> {
    if let Some(e) = undeclared(m, disposition_names(), strict) {
        Err(e)
    } else if let Err(e) = required_integer_of(m, "attached_pic"@) {
        Err(e)
    } else if let Err(e) = required_integer_of(m, "captions"@) {
        Err(e)
    } else if let Err(e) = required_integer_of(m, "clean_effects"@) {
        Err(e)
    } else if let Err(e) = required_integer_of(m, "comment"@) {
        Err(e)
    } else if let Err(e) = required_integer_of(m, "default"@) {
        Err(e)
    } else if let Err(e) = required_integer_of(m, "dependent"@) {
        Err(e)
    } else if let Err(e) = required_integer_of(m, "descriptions"@) {
        Err(e)
    } else if let Err(e) = required_integer_of(m, "dub"@) {
        Err(e)
    } else if let Err(e) = required_integer_of(m, "forced"@) {
        Err(e)
    } else if let Err(e) = required_integer_of(m, "hearing_impaired"@) {
        Err(e)
    } else if let Err(e) = required_integer_of(m, "karaoke"@) {
        Err(e)
    } else if let Err(e) = required_integer_of(m, "lyrics"@) {
        Err(e)
    } else if let Err(e) = required_integer_of(m, "metadata"@) {
        Err(e)
    } else if let Err(e) = required_integer_of(m, "non_diegetic"@) {
        Err(e)
    } else if let Err(e) = required_integer_of(m, "original"@) {
        Err(e)
    } else if let Err(e) = required_integer_of(m, "still_image"@) {
        Err(e)
    } else if let Err(e) = required_integer_of(m, "timed_thumbnails"@) {
        Err(e)
    } else if let Err(e) = required_integer_of(m, "visual_impaired"@) {
        Err(e)
    } else {
        Ok(
            Disposition {
                attached_pic: required_integer_of(m, "attached_pic"@)->Ok_0,
                captions: required_integer_of(m, "captions"@)->Ok_0,
                clean_effects: required_integer_of(m, "clean_effects"@)->Ok_0,
                comment: required_integer_of(m, "comment"@)->Ok_0,
                default: required_integer_of(m, "default"@)->Ok_0,
                dependent: required_integer_of(m, "dependent"@)->Ok_0,
                descriptions: required_integer_of(m, "descriptions"@)->Ok_0,
                dub: required_integer_of(m, "dub"@)->Ok_0,
                forced: required_integer_of(m, "forced"@)->Ok_0,
                hearing_impaired: required_integer_of(m, "hearing_impaired"@)->Ok_0,
                karaoke: required_integer_of(m, "karaoke"@)->Ok_0,
                lyrics: required_integer_of(m, "lyrics"@)->Ok_0,
                metadata: required_integer_of(m, "metadata"@)->Ok_0,
                non_diegetic: required_integer_of(m, "non_diegetic"@)->Ok_0,
                original: required_integer_of(m, "original"@)->Ok_0,
                still_image: required_integer_of(m, "still_image"@)->Ok_0,
                timed_thumbnails: required_integer_of(m, "timed_thumbnails"@)->Ok_0,
                visual_impaired: required_integer_of(m, "visual_impaired"@)->Ok_0,
            },
        )
    }
}

impl Disposition {
    /// Decodes the disposition of a stream from the members of its object.
    pub fn from_members(m: &JsonObject, strict: bool) -> (r: Result<
        Disposition,
        MemberError,
    >)
        ensures
            result_is(r, disposition_of(m.deep_view(), strict)),
    {
        let names = [
            "attached_pic",
            "captions",
            "clean_effects",
            "comment",
            "default",
            "dependent",
            "descriptions",
            "dub",
            "forced",
            "hearing_impaired",
            "karaoke",
            "lyrics",
            "metadata",
            "non_diegetic",
            "original",
            "still_image",
            "timed_thumbnails",
            "visual_impaired",
        ];
        assert(names_of(names@) =~= disposition_names());
        deny_undeclared(m, &names, strict)?;
        let attached_pic = required_integer(m, "attached_pic")?;
        let captions = required_integer(m, "captions")?;
        let clean_effects = required_integer(m, "clean_effects")?;
        let comment = required_integer(m, "comment")?;
        let default = required_integer(m, "default")?;
        let dependent = required_integer(m, "dependent")?;
        let descriptions = required_integer(m, "descriptions")?;
        let dub = required_integer(m, "dub")?;
        let forced = required_integer(m, "forced")?;
        let hearing_impaired = required_integer(m, "hearing_impaired")?;
        let karaoke = required_integer(m, "karaoke")?;
        let lyrics = required_integer(m, "lyrics")?;
        let metadata = required_integer(m, "metadata")?;
        let non_diegetic = required_integer(m, "non_diegetic")?;
        let original = required_integer(m, "original")?;
        let still_image = required_integer(m, "still_image")?;
        let timed_thumbnails = required_integer(m, "timed_thumbnails")?;
        let visual_impaired = required_integer(m, "visual_impaired")?;
        Ok(
            Disposition {
                attached_pic,
                captions,
                clean_effects,
                comment,
                default,
                dependent,
                descriptions,
                dub,
                forced,
                hearing_impaired,
                karaoke,
                lyrics,
                metadata,
                non_diegetic,
                original,
                still_image,
                timed_thumbnails,
                visual_impaired,
            },
        )
    }
}

} // verus!
