//! The container as a whole.

use crate::duration::Duration;
use crate::error::{result_is, Malformed, MalformedView, MemberError, MemberErrorView};
use crate::json::{JsonObject, JsonView, Members};
use crate::member::{
    collect_unlisted, integer_or_text_or_zero, integer_or_text_or_zero_of,
    optional_integer_or_text, optional_integer_or_text_of, optional_object, optional_object_of,
    optional_seconds, optional_seconds_of, optional_text, optional_text_alias,
    optional_text_alias_of, optional_text_of, required_text, required_text_of,
    required_unsigned, required_unsigned_of, then_optional, unlisted,
};
use crate::scalar::{duration_of_text, string_to_duration};
use crate::text::names_of;
use vstd::prelude::*;

verus! {

/// The tags that Sony XDCAM cameras write.
#[derive(Debug, Clone, PartialEq, Eq)]
pub struct SonyXDCAM {
    pub operational_pattern_ul: Option<String>,
    pub uid: Option<String>,
    pub generation_uid: Option<String>,
    pub company_name: Option<String>,
    pub product_name: Option<String>,
    pub product_version: Option<String>,
    pub product_uid: Option<String>,
    pub modification_date: Option<String>,
    pub material_package_umid: Option<String>,
    pub timecode: Option<String>,
}

/// The mathematical model of [`SonyXDCAM`].
pub struct SonyXDCAMView {
    pub operational_pattern_ul: Option<Seq<char>>,
    pub uid: Option<Seq<char>>,
    pub generation_uid: Option<Seq<char>>,
    pub company_name: Option<Seq<char>>,
    pub product_name: Option<Seq<char>>,
    pub product_version: Option<Seq<char>>,
    pub product_uid: Option<Seq<char>>,
    pub modification_date: Option<Seq<char>>,
    pub material_package_umid: Option<Seq<char>>,
    pub timecode: Option<Seq<char>>,
}

impl View for SonyXDCAM {
    type V = SonyXDCAMView;

    open spec fn view(&self) -> SonyXDCAMView {
        SonyXDCAMView {
            operational_pattern_ul: self.operational_pattern_ul.deep_view(),
            uid: self.uid.deep_view(),
            generation_uid: self.generation_uid.deep_view(),
            company_name: self.company_name.deep_view(),
            product_name: self.product_name.deep_view(),
            product_version: self.product_version.deep_view(),
            product_uid: self.product_uid.deep_view(),
            modification_date: self.modification_date.deep_view(),
            material_package_umid: self.material_package_umid.deep_view(),
            timecode: self.timecode.deep_view(),
        }
    }
}

impl DeepView for SonyXDCAM {
    type V = SonyXDCAMView;

    open spec fn deep_view(&self) -> SonyXDCAMView {
        self@
    }
}

impl Default for SonyXDCAM {
    fn default() -> (r: SonyXDCAM)
        ensures
            r@ == empty_sony_xdcam(),
    {
        SonyXDCAM {
            operational_pattern_ul: None,
            uid: None,
            generation_uid: None,
            company_name: None,
            product_name: None,
            product_version: None,
            product_uid: None,
            modification_date: None,
            material_package_umid: None,
            timecode: None,
        }
    }
}

/// The record with nothing in it: no text, no number but zero, and nothing
/// where something may be left out.
pub open spec fn empty_sony_xdcam() -> SonyXDCAMView {
    SonyXDCAMView {
        operational_pattern_ul: None,
        uid: None,
        generation_uid: None,
        company_name: None,
        product_name: None,
        product_version: None,
        product_uid: None,
        modification_date: None,
        material_package_umid: None,
        timecode: None,
    }
}

/// The names of the members that the record declares.
pub open spec fn sony_xdcam_names() -> Seq<Seq<char>> {
    seq![
        "operational_pattern_ul"@,
        "uid"@,
        "generation_uid"@,
        "company_name"@,
        "product_name"@,
        "product_version"@,
        "product_uid"@,
        "modification_date"@,
        "material_package_umid"@,
        "timecode"@,
    ]
}

/// The camera's tags that the members of a tag object make. Every tag may be
/// left out.
pub open spec fn sony_xdcam_of(m: Members) -> Result<SonyXDCAMView, MemberErrorView> {
    if let Err(e) = optional_text_of(m, "operational_pattern_ul"@) {
        Err(e)
    } else if let Err(e) = optional_text_of(m, "uid"@) {
        Err(e)
    } else if let Err(e) = optional_text_of(m, "generation_uid"@) {
        Err(e)
    } else if let Err(e) = optional_text_of(m, "company_name"@) {
        Err(e)
    } else if let Err(e) = optional_text_of(m, "product_name"@) {
        Err(e)
    } else if let Err(e) = optional_text_of(m, "product_version"@) {
        Err(e)
    } else if let Err(e) = optional_text_of(m, "product_uid"@) {
        Err(e)
    } else if let Err(e) = optional_text_of(m, "modification_date"@) {
        Err(e)
    } else if let Err(e) = optional_text_of(m, "material_package_umid"@) {
        Err(e)
    } else if let Err(e) = optional_text_of(m, "timecode"@) {
        Err(e)
    } else {
        Ok(
            SonyXDCAMView {
                operational_pattern_ul: optional_text_of(m, "operational_pattern_ul"@)->Ok_0,
                uid: optional_text_of(m, "uid"@)->Ok_0,
                generation_uid: optional_text_of(m, "generation_uid"@)->Ok_0,
                company_name: optional_text_of(m, "company_name"@)->Ok_0,
                product_name: optional_text_of(m, "product_name"@)->Ok_0,
                product_version: optional_text_of(m, "product_version"@)->Ok_0,
                product_uid: optional_text_of(m, "product_uid"@)->Ok_0,
                modification_date: optional_text_of(m, "modification_date"@)->Ok_0,
                material_package_umid: optional_text_of(m, "material_package_umid"@)->Ok_0,
                timecode: optional_text_of(m, "timecode"@)->Ok_0,
            },
        )
    }
}

impl SonyXDCAM {
    /// Decodes the record from the members of its object.
    pub fn from_members(m: &JsonObject) -> (r: Result<SonyXDCAM, MemberError>)
        ensures
            result_is(r, sony_xdcam_of(m.deep_view())),
    {
        let operational_pattern_ul = optional_text(m, "operational_pattern_ul")?;
        let uid = optional_text(m, "uid")?;
        let generation_uid = optional_text(m, "generation_uid")?;
        let company_name = optional_text(m, "company_name")?;
        let product_name = optional_text(m, "product_name")?;
        let product_version = optional_text(m, "product_version")?;
        let product_uid = optional_text(m, "product_uid")?;
        let modification_date = optional_text(m, "modification_date")?;
        let material_package_umid = optional_text(m, "material_package_umid")?;
        let timecode = optional_text(m, "timecode")?;
        Ok(
            SonyXDCAM {
                operational_pattern_ul,
                uid,
                generation_uid,
                company_name,
                product_name,
                product_version,
                product_uid,
                modification_date,
                material_package_umid,
                timecode,
            },
        )
    }

    /// The names of the members that the record declares.
    pub fn names() -> (names: Vec<&'static str>)
        ensures
            names_of(names@) == sony_xdcam_names(),
    {
        let mut names: Vec<&'static str> = Vec::new();
        names.push("operational_pattern_ul");
        names.push("uid");
        names.push("generation_uid");
        names.push("company_name");
        names.push("product_name");
        names.push("product_version");
        names.push("product_uid");
        names.push("modification_date");
        names.push("material_package_umid");
        names.push("timecode");
        assert(names_of(names@) =~= sony_xdcam_names());
        names
    }
}

/// The tags of the container.
#[derive(Debug, Clone, PartialEq, Eq)]
pub struct FormatTags {
    pub wmfsdkneeded: Option<String>,
    pub device_conformance_template: Option<String>,
    pub wmfsdkversion: Option<String>,
    pub is_vbr: Option<String>,
    pub major_brand: Option<String>,
    pub minor_version: Option<String>,
    pub compatible_brands: Option<String>,
    pub encoder: Option<String>,
    /// The encoder as `MOVIE/ENCODER` names it: kept apart from `encoder`.
    pub encoder_: Option<String>,
    pub artist: Option<String>,
    pub comment: Option<String>,
    pub subject: Option<String>,
    pub product: Option<String>,
    pub irtd: Option<String>,
    pub title: Option<String>,
    pub copyright: Option<String>,
    pub software: Option<String>,
    pub language: Option<String>,
    pub track: Option<String>,
    pub tdtg: Option<String>,
    pub encoded_by: Option<String>,
    pub date: Option<String>,
    pub tlen: Option<String>,
    pub encoded_by_: Option<String>,
    pub description: Option<String>,
    pub source: Option<String>,
    pub imdb: Option<String>,
    pub creation_time: Option<String>,
    pub tmdb: Option<String>,
    pub genre: Option<String>,
    pub album: Option<String>,
    /// The tags that Sony XDCAM cameras write.
    pub sony_xdcam: SonyXDCAM,
    /// The members that the record does not declare, as they were given.
    pub extra: JsonObject,
}

/// The mathematical model of [`FormatTags`].
pub struct FormatTagsView {
    pub wmfsdkneeded: Option<Seq<char>>,
    pub device_conformance_template: Option<Seq<char>>,
    pub wmfsdkversion: Option<Seq<char>>,
    pub is_vbr: Option<Seq<char>>,
    pub major_brand: Option<Seq<char>>,
    pub minor_version: Option<Seq<char>>,
    pub compatible_brands: Option<Seq<char>>,
    pub encoder: Option<Seq<char>>,
    pub encoder_: Option<Seq<char>>,
    pub artist: Option<Seq<char>>,
    pub comment: Option<Seq<char>>,
    pub subject: Option<Seq<char>>,
    pub product: Option<Seq<char>>,
    pub irtd: Option<Seq<char>>,
    pub title: Option<Seq<char>>,
    pub copyright: Option<Seq<char>>,
    pub software: Option<Seq<char>>,
    pub language: Option<Seq<char>>,
    pub track: Option<Seq<char>>,
    pub tdtg: Option<Seq<char>>,
    pub encoded_by: Option<Seq<char>>,
    pub date: Option<Seq<char>>,
    pub tlen: Option<Seq<char>>,
    pub encoded_by_: Option<Seq<char>>,
    pub description: Option<Seq<char>>,
    pub source: Option<Seq<char>>,
    pub imdb: Option<Seq<char>>,
    pub creation_time: Option<Seq<char>>,
    pub tmdb: Option<Seq<char>>,
    pub genre: Option<Seq<char>>,
    pub album: Option<Seq<char>>,
    pub sony_xdcam: SonyXDCAMView,
    pub extra: Members,
}

impl View for FormatTags {
    type V = FormatTagsView;

    open spec fn view(&self) -> FormatTagsView {
        FormatTagsView {
            wmfsdkneeded: self.wmfsdkneeded.deep_view(),
            device_conformance_template: self.device_conformance_template.deep_view(),
            wmfsdkversion: self.wmfsdkversion.deep_view(),
            is_vbr: self.is_vbr.deep_view(),
            major_brand: self.major_brand.deep_view(),
            minor_version: self.minor_version.deep_view(),
            compatible_brands: self.compatible_brands.deep_view(),
            encoder: self.encoder.deep_view(),
            encoder_: self.encoder_.deep_view(),
            artist: self.artist.deep_view(),
            comment: self.comment.deep_view(),
            subject: self.subject.deep_view(),
            product: self.product.deep_view(),
            irtd: self.irtd.deep_view(),
            title: self.title.deep_view(),
            copyright: self.copyright.deep_view(),
            software: self.software.deep_view(),
            language: self.language.deep_view(),
            track: self.track.deep_view(),
            tdtg: self.tdtg.deep_view(),
            encoded_by: self.encoded_by.deep_view(),
            date: self.date.deep_view(),
            tlen: self.tlen.deep_view(),
            encoded_by_: self.encoded_by_.deep_view(),
            description: self.description.deep_view(),
            source: self.source.deep_view(),
            imdb: self.imdb.deep_view(),
            creation_time: self.creation_time.deep_view(),
            tmdb: self.tmdb.deep_view(),
            genre: self.genre.deep_view(),
            album: self.album.deep_view(),
            sony_xdcam: self.sony_xdcam@,
            extra: self.extra.deep_view(),
        }
    }
}

impl DeepView for FormatTags {
    type V = FormatTagsView;

    open spec fn deep_view(&self) -> FormatTagsView {
        self@
    }
}

impl Default for FormatTags {
    fn default() -> (r: FormatTags)
        ensures
            r@ == empty_format_tags(),
    {
        let extra: JsonObject = Vec::new();
        assert(extra.deep_view() =~= Seq::<(Seq<char>, JsonView)>::empty());
        FormatTags {
            wmfsdkneeded: None,
            device_conformance_template: None,
            wmfsdkversion: None,
            is_vbr: None,
            major_brand: None,
            minor_version: None,
            compatible_brands: None,
            encoder: None,
            encoder_: None,
            artist: None,
            comment: None,
            subject: None,
            product: None,
            irtd: None,
            title: None,
            copyright: None,
            software: None,
            language: None,
            track: None,
            tdtg: None,
            encoded_by: None,
            date: None,
            tlen: None,
            encoded_by_: None,
            description: None,
            source: None,
            imdb: None,
            creation_time: None,
            tmdb: None,
            genre: None,
            album: None,
            sony_xdcam: SonyXDCAM::default(),
            extra,
        }
    }
}

/// The record with nothing in it: no text, no number but zero, and nothing
/// where something may be left out.
pub open spec fn empty_format_tags() -> FormatTagsView {
    FormatTagsView {
        wmfsdkneeded: None,
        device_conformance_template: None,
        wmfsdkversion: None,
        is_vbr: None,
        major_brand: None,
        minor_version: None,
        compatible_brands: None,
        encoder: None,
        encoder_: None,
        artist: None,
        comment: None,
        subject: None,
        product: None,
        irtd: None,
        title: None,
        copyright: None,
        software: None,
        language: None,
        track: None,
        tdtg: None,
        encoded_by: None,
        date: None,
        tlen: None,
        encoded_by_: None,
        description: None,
        source: None,
        imdb: None,
        creation_time: None,
        tmdb: None,
        genre: None,
        album: None,
        sony_xdcam: empty_sony_xdcam(),
        extra: Seq::empty(),
    }
}

/// The names of the members that the record declares: those of the record that
/// it embeds, and its own.
pub open spec fn format_tags_names() -> Seq<Seq<char>> {
    sony_xdcam_names() + seq![
        "WMFSDKNeeded"@,
        "DeviceConformanceTemplate"@,
        "WMFSDKVersion"@,
        "IsVBR"@,
        "major_brand"@,
        "MAJOR_BRAND"@,
        "minor_version"@,
        "MINOR_VERSION"@,
        "compatible_brands"@,
        "COMPATIBLE_BRANDS"@,
        "encoder"@,
        "ENCODER"@,
        "encoder_"@,
        "MOVIE/ENCODER"@,
        "artist"@,
        "ARTIST"@,
        "comment"@,
        "COMMENT"@,
        "SUBJECT"@,
        "PRODUCT"@,
        "IRTD"@,
        "title"@,
        "COPYRIGHT"@,
        "SOFTWARE"@,
        "LANGUAGE"@,
        "track"@,
        "TDTG"@,
        "encoded_by"@,
        "ENCODED_BY"@,
        "date"@,
        "TLEN"@,
        "Encoded by"@,
        "DESCRIPTION"@,
        "Source"@,
        "IMDB"@,
        "creation_time"@,
        "CREATION_TIME"@,
        "TMDB"@,
        "genre"@,
        "album"@,
    ]
}

/// The tags that the members of the container's tag object make, and aside
/// every member that is no such tag.
pub open spec fn format_tags_of(m: Members) -> Result<FormatTagsView, MemberErrorView> {
    if let Err(e) = optional_text_of(m, "WMFSDKNeeded"@) {
        Err(e)
    } else if let Err(e) = optional_text_of(m, "DeviceConformanceTemplate"@) {
        Err(e)
    } else if let Err(e) = optional_text_of(m, "WMFSDKVersion"@) {
        Err(e)
    } else if let Err(e) = optional_text_of(m, "IsVBR"@) {
        Err(e)
    } else if let Err(e) = optional_text_alias_of(m, "major_brand"@, "MAJOR_BRAND"@) {
        Err(e)
    } else if let Err(e) = optional_text_alias_of(m, "minor_version"@, "MINOR_VERSION"@) {
        Err(e)
    } else if let Err(e) = optional_text_alias_of(m, "compatible_brands"@, "COMPATIBLE_BRANDS"@) {
        Err(e)
    } else if let Err(e) = optional_text_alias_of(m, "encoder"@, "ENCODER"@) {
        Err(e)
    } else if let Err(e) = optional_text_alias_of(m, "encoder_"@, "MOVIE/ENCODER"@) {
        Err(e)
    } else if let Err(e) = optional_text_alias_of(m, "artist"@, "ARTIST"@) {
        Err(e)
    } else if let Err(e) = optional_text_alias_of(m, "comment"@, "COMMENT"@) {
        Err(e)
    } else if let Err(e) = optional_text_of(m, "SUBJECT"@) {
        Err(e)
    } else if let Err(e) = optional_text_of(m, "PRODUCT"@) {
        Err(e)
    } else if let Err(e) = optional_text_of(m, "IRTD"@) {
        Err(e)
    } else if let Err(e) = optional_text_of(m, "title"@) {
        Err(e)
    } else if let Err(e) = optional_text_of(m, "COPYRIGHT"@) {
        Err(e)
    } else if let Err(e) = optional_text_of(m, "SOFTWARE"@) {
        Err(e)
    } else if let Err(e) = optional_text_of(m, "LANGUAGE"@) {
        Err(e)
    } else if let Err(e) = optional_text_of(m, "track"@) {
        Err(e)
    } else if let Err(e) = optional_text_of(m, "TDTG"@) {
        Err(e)
    } else if let Err(e) = optional_text_alias_of(m, "encoded_by"@, "ENCODED_BY"@) {
        Err(e)
    } else if let Err(e) = optional_text_of(m, "date"@) {
        Err(e)
    } else if let Err(e) = optional_text_of(m, "TLEN"@) {
        Err(e)
    } else if let Err(e) = optional_text_of(m, "Encoded by"@) {
        Err(e)
    } else if let Err(e) = optional_text_of(m, "DESCRIPTION"@) {
        Err(e)
    } else if let Err(e) = optional_text_of(m, "Source"@) {
        Err(e)
    } else if let Err(e) = optional_text_of(m, "IMDB"@) {
        Err(e)
    } else if let Err(e) = optional_text_alias_of(m, "creation_time"@, "CREATION_TIME"@) {
        Err(e)
    } else if let Err(e) = optional_text_of(m, "TMDB"@) {
        Err(e)
    } else if let Err(e) = optional_text_of(m, "genre"@) {
        Err(e)
    } else if let Err(e) = optional_text_of(m, "album"@) {
        Err(e)
    } else if let Err(e) = sony_xdcam_of(m) {
        Err(e)
    } else {
        Ok(
            FormatTagsView {
                wmfsdkneeded: optional_text_of(m, "WMFSDKNeeded"@)->Ok_0,
                device_conformance_template: optional_text_of(
                    m,
                    "DeviceConformanceTemplate"@,
                )->Ok_0,
                wmfsdkversion: optional_text_of(m, "WMFSDKVersion"@)->Ok_0,
                is_vbr: optional_text_of(m, "IsVBR"@)->Ok_0,
                major_brand: optional_text_alias_of(m, "major_brand"@, "MAJOR_BRAND"@)->Ok_0,
                minor_version: optional_text_alias_of(m, "minor_version"@, "MINOR_VERSION"@)->Ok_0,
                compatible_brands: optional_text_alias_of(
                    m,
                    "compatible_brands"@,
                    "COMPATIBLE_BRANDS"@,
                )->Ok_0,
                encoder: optional_text_alias_of(m, "encoder"@, "ENCODER"@)->Ok_0,
                encoder_: optional_text_alias_of(m, "encoder_"@, "MOVIE/ENCODER"@)->Ok_0,
                artist: optional_text_alias_of(m, "artist"@, "ARTIST"@)->Ok_0,
                comment: optional_text_alias_of(m, "comment"@, "COMMENT"@)->Ok_0,
                subject: optional_text_of(m, "SUBJECT"@)->Ok_0,
                product: optional_text_of(m, "PRODUCT"@)->Ok_0,
                irtd: optional_text_of(m, "IRTD"@)->Ok_0,
                title: optional_text_of(m, "title"@)->Ok_0,
                copyright: optional_text_of(m, "COPYRIGHT"@)->Ok_0,
                software: optional_text_of(m, "SOFTWARE"@)->Ok_0,
                language: optional_text_of(m, "LANGUAGE"@)->Ok_0,
                track: optional_text_of(m, "track"@)->Ok_0,
                tdtg: optional_text_of(m, "TDTG"@)->Ok_0,
                encoded_by: optional_text_alias_of(m, "encoded_by"@, "ENCODED_BY"@)->Ok_0,
                date: optional_text_of(m, "date"@)->Ok_0,
                tlen: optional_text_of(m, "TLEN"@)->Ok_0,
                encoded_by_: optional_text_of(m, "Encoded by"@)->Ok_0,
                description: optional_text_of(m, "DESCRIPTION"@)->Ok_0,
                source: optional_text_of(m, "Source"@)->Ok_0,
                imdb: optional_text_of(m, "IMDB"@)->Ok_0,
                creation_time: optional_text_alias_of(m, "creation_time"@, "CREATION_TIME"@)->Ok_0,
                tmdb: optional_text_of(m, "TMDB"@)->Ok_0,
                genre: optional_text_of(m, "genre"@)->Ok_0,
                album: optional_text_of(m, "album"@)->Ok_0,
                sony_xdcam: sony_xdcam_of(m)->Ok_0,
                extra: unlisted(m, format_tags_names()),
            },
        )
    }
}

impl FormatTags {
    /// Decodes the record from the members of its object.
    pub fn from_members(m: &JsonObject) -> (r: Result<FormatTags, MemberError>)
        ensures
            result_is(r, format_tags_of(m.deep_view())),
    {
        let mut names = SonyXDCAM::names();
        names.push("WMFSDKNeeded");
        names.push("DeviceConformanceTemplate");
        names.push("WMFSDKVersion");
        names.push("IsVBR");
        names.push("major_brand");
        names.push("MAJOR_BRAND");
        names.push("minor_version");
        names.push("MINOR_VERSION");
        names.push("compatible_brands");
        names.push("COMPATIBLE_BRANDS");
        names.push("encoder");
        names.push("ENCODER");
        names.push("encoder_");
        names.push("MOVIE/ENCODER");
        names.push("artist");
        names.push("ARTIST");
        names.push("comment");
        names.push("COMMENT");
        names.push("SUBJECT");
        names.push("PRODUCT");
        names.push("IRTD");
        names.push("title");
        names.push("COPYRIGHT");
        names.push("SOFTWARE");
        names.push("LANGUAGE");
        names.push("track");
        names.push("TDTG");
        names.push("encoded_by");
        names.push("ENCODED_BY");
        names.push("date");
        names.push("TLEN");
        names.push("Encoded by");
        names.push("DESCRIPTION");
        names.push("Source");
        names.push("IMDB");
        names.push("creation_time");
        names.push("CREATION_TIME");
        names.push("TMDB");
        names.push("genre");
        names.push("album");
        assert(names_of(names@) =~= format_tags_names());
        let wmfsdkneeded = optional_text(m, "WMFSDKNeeded")?;
        let device_conformance_template = optional_text(m, "DeviceConformanceTemplate")?;
        let wmfsdkversion = optional_text(m, "WMFSDKVersion")?;
        let is_vbr = optional_text(m, "IsVBR")?;
        let major_brand = optional_text_alias(m, "major_brand", "MAJOR_BRAND")?;
        let minor_version = optional_text_alias(m, "minor_version", "MINOR_VERSION")?;
        let compatible_brands = optional_text_alias(m, "compatible_brands", "COMPATIBLE_BRANDS")?;
        let encoder = optional_text_alias(m, "encoder", "ENCODER")?;
        let encoder_ = optional_text_alias(m, "encoder_", "MOVIE/ENCODER")?;
        let artist = optional_text_alias(m, "artist", "ARTIST")?;
        let comment = optional_text_alias(m, "comment", "COMMENT")?;
        let subject = optional_text(m, "SUBJECT")?;
        let product = optional_text(m, "PRODUCT")?;
        let irtd = optional_text(m, "IRTD")?;
        let title = optional_text(m, "title")?;
        let copyright = optional_text(m, "COPYRIGHT")?;
        let software = optional_text(m, "SOFTWARE")?;
        let language = optional_text(m, "LANGUAGE")?;
        let track = optional_text(m, "track")?;
        let tdtg = optional_text(m, "TDTG")?;
        let encoded_by = optional_text_alias(m, "encoded_by", "ENCODED_BY")?;
        let date = optional_text(m, "date")?;
        let tlen = optional_text(m, "TLEN")?;
        let encoded_by_ = optional_text(m, "Encoded by")?;
        let description = optional_text(m, "DESCRIPTION")?;
        let source = optional_text(m, "Source")?;
        let imdb = optional_text(m, "IMDB")?;
        let creation_time = optional_text_alias(m, "creation_time", "CREATION_TIME")?;
        let tmdb = optional_text(m, "TMDB")?;
        let genre = optional_text(m, "genre")?;
        let album = optional_text(m, "album")?;
        let sony_xdcam = SonyXDCAM::from_members(m)?;
        let extra = collect_unlisted(m, names.as_slice());
        Ok(
            FormatTags {
                wmfsdkneeded,
                device_conformance_template,
                wmfsdkversion,
                is_vbr,
                major_brand,
                minor_version,
                compatible_brands,
                encoder,
                encoder_,
                artist,
                comment,
                subject,
                product,
                irtd,
                title,
                copyright,
                software,
                language,
                track,
                tdtg,
                encoded_by,
                date,
                tlen,
                encoded_by_,
                description,
                source,
                imdb,
                creation_time,
                tmdb,
                genre,
                album,
                sony_xdcam,
                extra,
            },
        )
    }
}

/// What the report says of the container as a whole.
#[derive(Debug, Clone, PartialEq, Eq)]
pub struct Format {
    pub filename: String,
    /// Number of streams.
    pub nb_streams: u64,
    /// Number of programs.
    pub nb_programs: u64,
    /// Number of stream groups.
    pub nb_stream_groups: u64,
    /// Short names of the format, such as `matroska,webm`.
    pub format_name: String,
    pub format_long_name: String,
    pub start_time: Option<Duration>,
    /// Length of the container in seconds, as the report writes it.
    /// [`Format::get_duration`] reads it.
    pub duration: Option<String>,
    /// Size in bytes; zero where the report leaves it out.
    pub size: i64,
    /// Bits per second.
    pub bit_rate: Option<i64>,
    /// How sure the probe is of the format, from 0 to 100.
    pub probe_score: u64,
    pub tags: Option<FormatTags>,
}

/// The mathematical model of [`Format`].
pub struct FormatView {
    pub filename: Seq<char>,
    pub nb_streams: u64,
    pub nb_programs: u64,
    pub nb_stream_groups: u64,
    pub format_name: Seq<char>,
    pub format_long_name: Seq<char>,
    pub start_time: Option<nat>,
    pub duration: Option<Seq<char>>,
    pub size: i64,
    pub bit_rate: Option<i64>,
    pub probe_score: u64,
    pub tags: Option<FormatTagsView>,
}

impl View for Format {
    type V = FormatView;

    open spec fn view(&self) -> FormatView {
        FormatView {
            filename: self.filename@,
            nb_streams: self.nb_streams,
            nb_programs: self.nb_programs,
            nb_stream_groups: self.nb_stream_groups,
            format_name: self.format_name@,
            format_long_name: self.format_long_name@,
            start_time: self.start_time.deep_view(),
            duration: self.duration.deep_view(),
            size: self.size,
            bit_rate: self.bit_rate,
            probe_score: self.probe_score,
            tags: self.tags.deep_view(),
        }
    }
}

impl DeepView for Format {
    type V = FormatView;

    open spec fn deep_view(&self) -> FormatView {
        self@
    }
}

impl Default for Format {
    fn default() -> (r: Format)
        ensures
            r@ == empty_format(),
    {
        Format {
            filename: String::new(),
            nb_streams: 0,
            nb_programs: 0,
            nb_stream_groups: 0,
            format_name: String::new(),
            format_long_name: String::new(),
            start_time: None,
            duration: None,
            size: 0,
            bit_rate: None,
            probe_score: 0,
            tags: None,
        }
    }
}

/// The record with nothing in it: no text, no number but zero, and nothing
/// where something may be left out.
pub open spec fn empty_format() -> FormatView {
    FormatView {
        filename: Seq::empty(),
        nb_streams: 0,
        nb_programs: 0,
        nb_stream_groups: 0,
        format_name: Seq::empty(),
        format_long_name: Seq::empty(),
        start_time: None,
        duration: None,
        size: 0,
        bit_rate: None,
        probe_score: 0,
        tags: None,
    }
}

/// The format record that the members of an object make. The members are read
/// in the order of the record, and the first that is refused decides the error.
/// Members that the record does not declare are passed over.
pub open spec fn format_of(m: Members) -> Result<FormatView, MemberErrorView> {
    if let Err(e) = required_text_of(m, "filename"@) {
        Err(e)
    } else if let Err(e) = required_unsigned_of(m, "nb_streams"@) {
        Err(e)
    } else if let Err(e) = required_unsigned_of(m, "nb_programs"@) {
        Err(e)
    } else if let Err(e) = required_unsigned_of(m, "nb_stream_groups"@) {
        Err(e)
    } else if let Err(e) = required_text_of(m, "format_name"@) {
        Err(e)
    } else if let Err(e) = required_text_of(m, "format_long_name"@) {
        Err(e)
    } else if let Err(e) = optional_seconds_of(m, "start_time"@) {
        Err(e)
    } else if let Err(e) = optional_text_of(m, "duration"@) {
        Err(e)
    } else if let Err(e) = integer_or_text_or_zero_of(m, "size"@) {
        Err(e)
    } else if let Err(e) = optional_integer_or_text_of(m, "bit_rate"@) {
        Err(e)
    } else if let Err(e) = required_unsigned_of(m, "probe_score"@) {
        Err(e)
    } else if let Err(e) = then_optional(
        optional_object_of(m, "tags"@),
        |t: Members| format_tags_of(t),
    ) {
        Err(e)
    } else {
        Ok(
            FormatView {
                filename: required_text_of(m, "filename"@)->Ok_0,
                nb_streams: required_unsigned_of(m, "nb_streams"@)->Ok_0,
                nb_programs: required_unsigned_of(m, "nb_programs"@)->Ok_0,
                nb_stream_groups: required_unsigned_of(m, "nb_stream_groups"@)->Ok_0,
                format_name: required_text_of(m, "format_name"@)->Ok_0,
                format_long_name: required_text_of(m, "format_long_name"@)->Ok_0,
                start_time: optional_seconds_of(m, "start_time"@)->Ok_0,
                duration: optional_text_of(m, "duration"@)->Ok_0,
                size: integer_or_text_or_zero_of(m, "size"@)->Ok_0,
                bit_rate: optional_integer_or_text_of(m, "bit_rate"@)->Ok_0,
                probe_score: required_unsigned_of(m, "probe_score"@)->Ok_0,
                tags: then_optional(
                    optional_object_of(m, "tags"@),
                    |t: Members| format_tags_of(t),
                )->Ok_0,
            },
        )
    }
}

impl Format {
    /// Decodes the record from the members of its object.
    pub fn from_members(m: &JsonObject) -> (r: Result<Format, MemberError>)
        ensures
            result_is(r, format_of(m.deep_view())),
    {
        let filename = required_text(m, "filename")?;
        let nb_streams = required_unsigned(m, "nb_streams")?;
        let nb_programs = required_unsigned(m, "nb_programs")?;
        let nb_stream_groups = required_unsigned(m, "nb_stream_groups")?;
        let format_name = required_text(m, "format_name")?;
        let format_long_name = required_text(m, "format_long_name")?;
        let start_time = optional_seconds(m, "start_time")?;
        let duration = optional_text(m, "duration")?;
        let size = integer_or_text_or_zero(m, "size")?;
        let bit_rate = optional_integer_or_text(m, "bit_rate")?;
        let probe_score = required_unsigned(m, "probe_score")?;
        let tags = match optional_object(m, "tags")? {
            Some(t) => Some(FormatTags::from_members(t)?),
            None => None,
        };
        Ok(
            Format {
                filename,
                nb_streams,
                nb_programs,
                nb_stream_groups,
                format_name,
                format_long_name,
                start_time,
                duration,
                size,
                bit_rate,
                probe_score,
                tags,
            },
        )
    }
}

/// What the text at `duration` says, where there is one: the length in
/// nanoseconds, or the text as an offence against the grammar of seconds.
pub open spec fn format_duration(f: FormatView) -> Option<Result<nat, MalformedView>> {
    match f.duration {
        Some(text) => Some(duration_of_text(text)),
        None => None,
    }
}

impl Format {
    /// The length of the container, read from the text at `duration`. The
    /// outcome tells three cases apart: no text, a text that is no decimal
    /// number of seconds, and a length.
    pub fn try_get_duration(&self) -> (r: Result<Option<Duration>, Malformed>)
        ensures
            match r {
                Ok(None) => format_duration(self@) is None,
                Ok(Some(d)) => format_duration(self@) == Some(Ok::<nat, MalformedView>(d@)),
                Err(e) => format_duration(self@) == Some(Err::<nat, MalformedView>(e@)),
            },
    {
        match &self.duration {
            None => Ok(None),
            Some(text) => match string_to_duration(text.as_str()) {
                Ok(d) => Ok(Some(d)),
                Err(e) => Err(e),
            },
        }
    }

    /// The length of the container, where the text at `duration` gives one:
    /// nothing both where there is no text and where the text cannot be
    /// read.
    pub fn get_duration(&self) -> (r: Option<Duration>)
        ensures
            match r {
                Some(d) => format_duration(self@) == Some(Ok::<nat, MalformedView>(d@)),
                None => !(format_duration(self@) matches Some(Ok(_))),
            },
    {
        match self.try_get_duration() {
            Ok(d) => d,
            Err(_) => None,
        }
    }
}

} // verus!
