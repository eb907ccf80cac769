use full_strm_sync::processor::Processor;
use full_strm_sync::types::{Config, FileInput, ProcessingResult};

fn texts(items: &[&str]) -> Vec<String> {
    items.iter().map(|s| s.to_string()).collect()
}

fn base_config() -> Config {
    Config {
        pan_transfer_enabled: false,
        pan_transfer_paths: Vec::new(),
        auto_download_mediainfo: false,
        rmt_mediaext_set: texts(&[".mkv"]),
        download_mediaext_set: Vec::new(),
        strm_generate_blacklist: Vec::new(),
        mediainfo_download_whitelist: Vec::new(),
        mediainfo_download_blacklist: Vec::new(),
        full_sync_min_file_size: 0,
        pan_media_dir: "/media".to_string(),
    }
}

fn mediainfo_config() -> Config {
    let mut config = base_config();
    config.auto_download_mediainfo = true;
    config.download_mediaext_set = texts(&[".nfo"]);
    config
}

fn media_file() -> FileInput {
    FileInput {
        name: "Show.S01E01.mkv".to_string(),
        path: "/media/Show/Show.S01E01.mkv".to_string(),
        is_dir: false,
        size: Some(500),
        pickcode: Some("ABCDE12345FGHIJ67".to_string()),
        sha1: None,
    }
}

fn info_file() -> FileInput {
    FileInput {
        name: "info.nfo".to_string(),
        path: "/media/Show/info.nfo".to_string(),
        is_dir: false,
        size: None,
        pickcode: Some("ABCDE12345FGHIJ67".to_string()),
        sha1: Some("deadbeef".to_string()),
    }
}

fn processor(config: Config) -> Processor {
    match Processor::new(config) {
        Ok(p) => p,
        Err(e) => panic!("{}", e.describe()),
    }
}

fn skip_reason(outcome: &ProcessingResult) -> (String, String) {
    match outcome {
        ProcessingResult::Skip(info) => (info.path_in_pan.clone(), info.reason.clone()),
        other => panic!("expected a skip, got {:?}", other),
    }
}

fn fail_reason(outcome: &ProcessingResult) -> (String, String) {
    match outcome {
        ProcessingResult::Fail(info) => (info.path_in_pan.clone(), info.reason.clone()),
        other => panic!("expected a failure, got {:?}", other),
    }
}

#[test]
fn media_file_becomes_pointer_target() {
    let p = processor(base_config());
    match p.process_item(&media_file()) {
        ProcessingResult::Strm(info) => {
            assert_eq!(info.pickcode, "ABCDE12345FGHIJ67");
            assert_eq!(info.original_file_name, "Show.S01E01.mkv");
            assert_eq!(info.path_in_pan, "/media/Show/Show.S01E01.mkv");
        }
        other => panic!("expected a pointer target, got {:?}", other),
    }
}

#[test]
fn short_pickcode_is_malformed() {
    let p = processor(base_config());
    let mut item = media_file();
    item.pickcode = Some("short123".to_string());
    let (path, reason) = fail_reason(&p.process_item(&item));
    assert_eq!(path, "/media/Show/Show.S01E01.mkv");
    assert_eq!(reason, "/media/Show/Show.S01E01.mkv: malformed identifier: short123");
}

#[test]
fn metadata_file_becomes_download_target() {
    let p = processor(mediainfo_config());
    match p.process_item(&info_file()) {
        ProcessingResult::Download(info) => {
            assert_eq!(info.pickcode, "ABCDE12345FGHIJ67");
            assert_eq!(info.sha1, "deadbeef");
            assert_eq!(info.path_in_pan, "/media/Show/info.nfo");
        }
        other => panic!("expected a download target, got {:?}", other),
    }
}

#[test]
fn metadata_file_without_sha1_fails() {
    let p = processor(mediainfo_config());
    let mut item = info_file();
    item.sha1 = None;
    let (path, reason) = fail_reason(&p.process_item(&item));
    assert_eq!(path, "/media/Show/info.nfo");
    assert_eq!(reason, "/media/Show/info.nfo: missing content hash");
}

#[test]
fn metadata_file_without_pickcode_fails() {
    let p = processor(mediainfo_config());
    let mut item = info_file();
    item.pickcode = None;
    let (_, reason) = fail_reason(&p.process_item(&item));
    assert_eq!(reason, "/media/Show/info.nfo: missing identifier");
    item.sha1 = None;
    let (_, reason) = fail_reason(&p.process_item(&item));
    assert_eq!(reason, "/media/Show/info.nfo: missing identifier");
}

#[test]
fn metadata_file_is_never_a_pointer_target() {
    let mut config = mediainfo_config();
    config.rmt_mediaext_set = texts(&[".mkv", ".nfo"]);
    let p = processor(config);
    assert!(matches!(p.process_item(&info_file()), ProcessingResult::Download(_)));
    let mut item = info_file();
    item.pickcode = Some("bad".to_string());
    assert!(matches!(p.process_item(&item), ProcessingResult::Download(_)));
}

#[test]
fn blacklisted_name_is_skipped_with_keyword() {
    let mut config = base_config();
    config.strm_generate_blacklist = texts(&["trailer"]);
    let p = processor(config);
    let mut item = media_file();
    item.name = "Movie.trailer.mkv".to_string();
    item.path = "/media/Movie/Movie.trailer.mkv".to_string();
    let (path, reason) = skip_reason(&p.process_item(&item));
    assert_eq!(path, "/media/Movie/Movie.trailer.mkv");
    assert!(reason.contains("trailer"));
    assert_eq!(reason, "/media/Movie/Movie.trailer.mkv: matched strm blacklist keyword: trailer");
}

#[test]
fn blacklist_ignores_ascii_case_and_reports_the_keyword_as_configured() {
    let mut config = base_config();
    config.strm_generate_blacklist = texts(&["sample", "TRAILER"]);
    let p = processor(config);
    let mut item = media_file();
    item.name = "Movie.Trailer.mkv".to_string();
    let (_, reason) = skip_reason(&p.process_item(&item));
    assert_eq!(reason, "/media/Show/Show.S01E01.mkv: matched strm blacklist keyword: TRAILER");
}

#[test]
fn directory_is_skipped_whatever_else_it_holds() {
    let p = processor(base_config());
    let mut item = media_file();
    item.is_dir = true;
    let (path, reason) = skip_reason(&p.process_item(&item));
    assert_eq!(path, "/media/Show/Show.S01E01.mkv");
    assert_eq!(reason, "/media/Show/Show.S01E01.mkv: path is a directory");
    item.path = "/elsewhere".to_string();
    let (_, reason) = skip_reason(&p.process_item(&item));
    assert_eq!(reason, "/elsewhere: path is a directory");
}

#[test]
fn path_outside_media_dir_is_skipped() {
    let p = processor(base_config());
    let mut item = media_file();
    item.path = "/other/Show/Show.S01E01.mkv".to_string();
    let (_, reason) = skip_reason(&p.process_item(&item));
    assert_eq!(reason, "/other/Show/Show.S01E01.mkv: path outside media root");
    let p = processor(mediainfo_config());
    let mut item = info_file();
    item.path = "/medi".to_string();
    let (_, reason) = skip_reason(&p.process_item(&item));
    assert_eq!(reason, "/medi: path outside media root");
}

#[test]
fn prefix_comparison_is_plain_text() {
    let p = processor(base_config());
    let mut item = media_file();
    item.path = "/mediaXYZ/Show.S01E01.mkv".to_string();
    assert!(matches!(p.process_item(&item), ProcessingResult::Strm(_)));
}

#[test]
fn transfer_paths_skip_only_when_enabled_and_non_empty() {
    let mut config = base_config();
    config.pan_transfer_paths = texts(&["", "/media/incoming"]);
    let mut item = media_file();
    item.path = "/media/incoming/Show.S01E01.mkv".to_string();
    let p = processor(config.clone());
    assert!(matches!(p.process_item(&item), ProcessingResult::Strm(_)));
    config.pan_transfer_enabled = true;
    let p = processor(config.clone());
    let (_, reason) = skip_reason(&p.process_item(&item));
    assert_eq!(reason, "/media/incoming/Show.S01E01.mkv: path under staging directory");
    assert!(matches!(p.process_item(&media_file()), ProcessingResult::Strm(_)));
    config.pan_transfer_paths = texts(&[""]);
    let p = processor(config);
    assert!(matches!(p.process_item(&item), ProcessingResult::Strm(_)));
}

#[test]
fn unknown_suffix_is_skipped() {
    let p = processor(base_config());
    let mut item = media_file();
    item.name = "notes.txt".to_string();
    let (_, reason) = skip_reason(&p.process_item(&item));
    assert_eq!(
        reason,
        "/media/Show/Show.S01E01.mkv: extension not recognized as media or metadata"
    );
    item.name = "no_extension".to_string();
    assert!(matches!(p.process_item(&item), ProcessingResult::Skip(_)));
    item.name = ".mkv".to_string();
    assert!(matches!(p.process_item(&item), ProcessingResult::Skip(_)));
}

#[test]
fn suffix_is_lower_cased_before_lookup() {
    let p = processor(base_config());
    let mut item = media_file();
    item.name = "Show.S01E01.MKV".to_string();
    assert!(matches!(p.process_item(&item), ProcessingResult::Strm(_)));
}

#[test]
fn metadata_suffix_is_ignored_unless_download_is_on() {
    let mut config = mediainfo_config();
    config.auto_download_mediainfo = false;
    let p = processor(config);
    let (_, reason) = skip_reason(&p.process_item(&info_file()));
    assert_eq!(reason, "/media/Show/info.nfo: extension not recognized as media or metadata");
}

#[test]
fn whitelist_must_match_when_present() {
    let mut config = mediainfo_config();
    config.mediainfo_download_whitelist = texts(&["poster", "INFO"]);
    let p = processor(config.clone());
    assert!(matches!(p.process_item(&info_file()), ProcessingResult::Download(_)));
    let mut item = info_file();
    item.name = "other.nfo".to_string();
    let (_, reason) = skip_reason(&p.process_item(&item));
    assert_eq!(reason, "/media/Show/info.nfo: no whitelist keyword matched");
    config.mediainfo_download_whitelist = Vec::new();
    let p = processor(config);
    assert!(matches!(p.process_item(&item), ProcessingResult::Download(_)));
}

#[test]
fn metadata_blacklist_skips_with_keyword() {
    let mut config = mediainfo_config();
    config.mediainfo_download_blacklist = texts(&["sample", "info"]);
    let p = processor(config.clone());
    let (_, reason) = skip_reason(&p.process_item(&info_file()));
    assert_eq!(reason, "/media/Show/info.nfo: matched metadata blacklist keyword: info");
    config.mediainfo_download_whitelist = texts(&["zzz"]);
    let p = processor(config);
    let (_, reason) = skip_reason(&p.process_item(&info_file()));
    assert_eq!(reason, "/media/Show/info.nfo: no whitelist keyword matched");
}

#[test]
fn strm_blacklist_does_not_touch_metadata_files() {
    let mut config = mediainfo_config();
    config.strm_generate_blacklist = texts(&["info"]);
    let p = processor(config);
    assert!(matches!(p.process_item(&info_file()), ProcessingResult::Download(_)));
}

#[test]
fn minimum_size_applies_to_known_sizes_only() {
    let mut config = base_config();
    config.full_sync_min_file_size = 501;
    let p = processor(config.clone());
    let (_, reason) = skip_reason(&p.process_item(&media_file()));
    assert_eq!(reason, "/media/Show/Show.S01E01.mkv: file below minimum size");
    let mut item = media_file();
    item.size = None;
    assert!(matches!(p.process_item(&item), ProcessingResult::Strm(_)));
    item.size = Some(501);
    assert!(matches!(p.process_item(&item), ProcessingResult::Strm(_)));
    config.full_sync_min_file_size = 0;
    let p = processor(config);
    item.size = Some(0);
    assert!(matches!(p.process_item(&item), ProcessingResult::Strm(_)));
}

#[test]
fn size_rule_comes_before_pickcode_check() {
    let mut config = base_config();
    config.full_sync_min_file_size = 1000;
    let p = processor(config);
    let mut item = media_file();
    item.pickcode = None;
    assert!(matches!(p.process_item(&item), ProcessingResult::Skip(_)));
}

#[test]
fn missing_pickcode_fails() {
    let p = processor(base_config());
    let mut item = media_file();
    item.pickcode = None;
    let (path, reason) = fail_reason(&p.process_item(&item));
    assert_eq!(path, "/media/Show/Show.S01E01.mkv");
    assert_eq!(reason, "/media/Show/Show.S01E01.mkv: missing identifier");
}

#[test]
fn pickcode_must_be_seventeen_ascii_letters_or_digits() {
    let p = processor(base_config());
    let mut item = media_file();
    for bad in ["ABCDE12345FGHIJ6", "ABCDE12345FGHIJ678", "ABCDE12345FGHIJ6-", "ABCDE12345FGHI\u{e9}6", ""] {
        item.pickcode = Some(bad.to_string());
        assert!(matches!(p.process_item(&item), ProcessingResult::Fail(_)), "{}", bad);
    }
    for good in ["abcdefghijklmnopq", "01234567890123456", "aZ09aZ09aZ09aZ09a"] {
        item.pickcode = Some(good.to_string());
        assert!(matches!(p.process_item(&item), ProcessingResult::Strm(_)), "{}", good);
    }
}

#[test]
fn same_record_twice_gives_the_same_outcome() {
    let mut config = mediainfo_config();
    config.strm_generate_blacklist = texts(&["trailer"]);
    let first = processor(config.clone());
    let second = processor(config);
    let mut blacklisted = media_file();
    blacklisted.name = "Movie.trailer.mkv".to_string();
    for item in [media_file(), info_file(), blacklisted] {
        let a = format!("{:?}", first.process_item(&item));
        let b = format!("{:?}", first.process_item(&item));
        let c = format!("{:?}", second.process_item(&item.clone()));
        assert_eq!(a, b);
        assert_eq!(a, c);
    }
}
