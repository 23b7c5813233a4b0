use ffprobe::{Config, Sections};

#[test]
fn config_starts_with_the_default_binary() {
    let config = Config::new();
    assert_eq!(config.binary(), "ffprobe");
    assert!(!config.counts_frames());
    assert_eq!(Config::default(), Config::new());
}

#[test]
fn config_builders_change_one_setting_each() {
    let config = Config::new().count_frames(true);
    assert!(config.counts_frames());
    assert_eq!(config.binary(), "ffprobe");
    let config = config.ffprobe_bin("/opt/bin/ffprobe-6");
    assert!(config.counts_frames());
    assert_eq!(config.binary(), "/opt/bin/ffprobe-6");
    let config = config.count_frames(false);
    assert!(!config.counts_frames());
    assert_eq!(config.binary(), "/opt/bin/ffprobe-6");
}

#[test]
fn config_arguments_ask_for_every_section() {
    assert_eq!(
        Config::new().arguments(),
        vec![
            "-v",
            "quiet",
            "-print_format",
            "json",
            "-show_chapters",
            "-show_format",
            "-show_streams"
        ]
    );
    assert_eq!(Config::new().count_frames(true).arguments().last(), Some(&"-count_frames"));
    assert_eq!(Config::new().count_frames(true).arguments().len(), 8);
}

#[test]
fn config_arguments_follow_the_sections() {
    let only_format = Sections { streams: false, chapters: false, format: true };
    let config = Config::new().sections(only_format);
    assert_eq!(config.wanted_sections(), only_format);
    assert_eq!(
        config.arguments(),
        vec!["-v", "quiet", "-print_format", "json", "-show_format"]
    );
    let none = Sections { streams: false, chapters: false, format: false };
    assert_eq!(
        Config::new().sections(none).count_frames(true).arguments(),
        vec!["-v", "quiet", "-print_format", "json", "-count_frames"]
    );
    assert_eq!(Config::new().wanted_sections(), Sections::all());
}
