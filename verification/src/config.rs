//! How the probe is to be run.

use crate::text::names_of;
use vstd::prelude::*;

verus! {

/// The sections of a report that are asked of the probe, and decoded from
/// what it prints. A section that is not asked for is not looked at: the
/// report then has it empty.
#[derive(Debug, Clone, Copy, PartialEq, Eq, Structural)]
pub struct Sections {
    pub streams: bool,
    pub chapters: bool,
    pub format: bool,
}

impl Sections {
    /// All three sections.
    pub fn all() -> (s: Sections)
        ensures
            s == (Sections { streams: true, chapters: true, format: true }),
    {
        Sections { streams: true, chapters: true, format: true }
    }
}

/// The settings of a run of the probe. Made by [`Config::new`] and changed by
/// the methods that take and return it.
#[derive(Debug, Clone, PartialEq, Eq)]
pub struct Config {
    count_frames: bool,
    ffprobe_bin: String,
    sections: Sections,
}

/// The mathematical model of [`Config`].
pub struct ConfigView {
    pub count_frames: bool,
    pub ffprobe_bin: Seq<char>,
    pub sections: Sections,
}

impl View for Config {
    type V = ConfigView;

    closed spec fn view(&self) -> ConfigView {
        ConfigView {
            count_frames: self.count_frames,
            ffprobe_bin: self.ffprobe_bin@,
            sections: self.sections,
        }
    }
}

/// One argument where it is wanted, and none where it is not.
pub open spec fn flag(wanted: bool, argument: Seq<char>) -> Seq<Seq<char>> {
    if wanted {
        seq![argument]
    } else {
        Seq::empty()
    }
}

/// The arguments that a run of the probe is given before the path of the
/// file: a quiet run that prints JSON; then one argument for each section
/// that is asked for, chapters before format before streams; then the
/// argument that has the frames counted, where the settings ask for it.
pub open spec fn arguments_of(c: ConfigView) -> Seq<Seq<char>> {
    seq!["-v"@, "quiet"@, "-print_format"@, "json"@] + flag(
        c.sections.chapters,
        "-show_chapters"@,
    ) + flag(c.sections.format, "-show_format"@) + flag(c.sections.streams, "-show_streams"@)
        + flag(c.count_frames, "-count_frames"@)
}

/// The settings to start from: the binary `ffprobe`, all three sections, and
/// no counting of frames.
pub open spec fn initial_config() -> ConfigView {
    ConfigView {
        count_frames: false,
        ffprobe_bin: "ffprobe"@,
        sections: Sections { streams: true, chapters: true, format: true },
    }
}

impl Config {
    /// The settings to start from: the binary `ffprobe`, all three sections,
    /// and no counting of frames.
    pub fn new() -> (c: Config)
        ensures
            c@ == initial_config(),
    {
        Config {
            count_frames: false,
            ffprobe_bin: "ffprobe".to_owned(),
            sections: Sections::all(),
        }
    }

    /// Asks the probe to decode the whole file and count its frames, or not
    /// to. The count is then in `nb_read_frames` of each stream.
    pub fn count_frames(self, count_frames: bool) -> (c: Config)
        ensures
            c@ == (ConfigView { count_frames, ..self@ }),
    {
        Config { count_frames, ffprobe_bin: self.ffprobe_bin, sections: self.sections }
    }

    /// Names the binary to run, such as `ffprobe-6`, or its path, such as
    /// `/opt/bin/ffprobe`.
    pub fn ffprobe_bin(self, ffprobe_bin: &str) -> (c: Config)
        ensures
            c@ == (ConfigView { ffprobe_bin: ffprobe_bin@, ..self@ }),
    {
        Config {
            count_frames: self.count_frames,
            ffprobe_bin: ffprobe_bin.to_owned(),
            sections: self.sections,
        }
    }

    /// Says which sections of the report to ask for.
    pub fn sections(self, sections: Sections) -> (c: Config)
        ensures
            c@ == (ConfigView { sections, ..self@ }),
    {
        Config { count_frames: self.count_frames, ffprobe_bin: self.ffprobe_bin, sections }
    }

    /// The sections of the report that are asked for.
    pub fn wanted_sections(&self) -> (s: Sections)
        ensures
            s == self@.sections,
    {
        self.sections
    }

    /// Whether the probe is asked to count frames.
    pub fn counts_frames(&self) -> (r: bool)
        ensures
            r == self@.count_frames,
    {
        self.count_frames
    }

    /// The binary to run.
    pub fn binary(&self) -> (r: &str)
        ensures
            r@ == self@.ffprobe_bin,
    {
        self.ffprobe_bin.as_str()
    }

    /// The arguments to give the probe before the path of the file.
    pub fn arguments(&self) -> (r: Vec<&'static str>)
        ensures
            names_of(r@) == arguments_of(self@),
    {
        let mut out: Vec<&'static str> = Vec::new();
        out.push("-v");
        out.push("quiet");
        out.push("-print_format");
        out.push("json");
        if self.sections.chapters {
            out.push("-show_chapters");
        }
        if self.sections.format {
            out.push("-show_format");
        }
        if self.sections.streams {
            out.push("-show_streams");
        }
        if self.count_frames {
            out.push("-count_frames");
        }
        out
    }
}

impl Default for Config {
    fn default() -> (c: Config)
        ensures
            c@ == initial_config(),
    {
        Config::new()
    }
}

} // verus!
