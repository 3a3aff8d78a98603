use audio_conv::config::BitrateType;
use audio_conv::config::Transcode;
use audio_conv::rules::compile_matches;
use audio_conv::rules::resolve;
use audio_conv::rules::ConfigError;
use audio_conv::rules::TranscodeMatch;
use audio_conv::rules::TranscodeMatchFile;

fn rule(
    glob: Option<&str>,
    regex: Option<&str>,
    extensions: &[&str],
    to: Transcode,
) -> TranscodeMatchFile {
    TranscodeMatchFile {
        glob: glob.map(String::from),
        regex: regex.map(String::from),
        extensions: extensions.iter().map(|e| String::from(*e)).collect(),
        to,
    }
}

fn compiled(srcs: Vec<TranscodeMatchFile>) -> Vec<TranscodeMatch> {
    compile_matches(&srcs).expect("rules should compile")
}

#[test]
fn first_match_wins_over_later_rule() {
    // Both rules match *.flac; the first one decides.
    let rules = compiled(vec![
        rule(None, None, &["flac"], Transcode::Flac { compression: 5 }),
        rule(None, Some(".*"), &[], Transcode::Copy),
    ]);
    let got = resolve(&rules, b"album/a.flac");
    assert!(matches!(got, Some(Transcode::Flac { compression: 5 })));
    // A file only the second rule matches falls through to it.
    let got = resolve(&rules, b"album/cover.png");
    assert!(matches!(got, Some(Transcode::Copy)));
}

#[test]
fn empty_rule_list_yields_default_rule() {
    let rules = compiled(vec![]);
    assert_eq!(rules.len(), 1);
    let got = resolve(&rules, b"x.flac");
    assert!(matches!(
        got,
        Some(Transcode::Opus { bitrate: 160, bitrate_type: BitrateType::Vbr })
    ));
    assert!(resolve(&rules, b"x.wav").is_some());
    assert!(resolve(&rules, b"x.mp3").is_none());
}

#[test]
fn default_pattern_is_case_insensitive() {
    let rules = compiled(vec![]);
    assert!(resolve(&rules, b"LOUD.FLAC").is_some());
    assert!(resolve(&rules, b"Mixed.Wav").is_some());
}

#[test]
fn rule_without_patterns_gets_default_pattern() {
    let rules = compiled(vec![rule(None, None, &[], Transcode::Copy)]);
    assert!(matches!(resolve(&rules, b"a.wav"), Some(Transcode::Copy)));
    assert!(resolve(&rules, b"a.ogg").is_none());
}

#[test]
fn glob_and_regex_together_is_ambiguous() {
    let r = compile_matches(&vec![rule(
        Some("*.flac"),
        Some("\\.flac$"),
        &[],
        Transcode::Copy,
    )]);
    assert!(matches!(r, Err(ConfigError::AmbiguousRule)));
}

#[test]
fn invalid_regex_is_rejected_at_load_time() {
    let r = compile_matches(&vec![rule(None, Some("["), &[], Transcode::Copy)]);
    assert!(matches!(r, Err(ConfigError::BadPattern { .. })));
}

#[test]
fn invalid_glob_is_rejected_at_load_time() {
    let r = compile_matches(&vec![rule(Some("a["), None, &[], Transcode::Copy)]);
    assert!(matches!(r, Err(ConfigError::BadPattern { .. })));
}

#[test]
fn glob_matches_nested_paths() {
    let rules = compiled(vec![rule(Some("**/*.flac"), None, &[], Transcode::Copy)]);
    assert!(resolve(&rules, b"music/a/b.flac").is_some());
    assert!(resolve(&rules, b"music/a/b.mp3").is_none());
}

#[test]
fn glob_is_case_insensitive() {
    let rules = compiled(vec![rule(Some("*.flac"), None, &[], Transcode::Copy)]);
    assert!(resolve(&rules, b"A.FLAC").is_some());
}

#[test]
fn regex_rule_is_case_insensitive() {
    let rules = compiled(vec![rule(None, Some("\\.FLAC$"), &[], Transcode::Copy)]);
    assert!(resolve(&rules, b"a.flac").is_some());
    assert!(resolve(&rules, b"a.flacx").is_none());
}

#[test]
fn extension_rule_matches_with_or_without_leading_dot() {
    let rules = compiled(vec![rule(None, None, &[".wav"], Transcode::Copy)]);
    assert!(matches!(resolve(&rules, b"c.wav"), Some(Transcode::Copy)));
    let rules = compiled(vec![rule(None, None, &["wav"], Transcode::Copy)]);
    assert!(matches!(resolve(&rules, b"c.wav"), Some(Transcode::Copy)));
    assert!(resolve(&rules, b"cwav").is_none());
}

#[test]
fn extension_rule_escapes_meta_characters() {
    let rules = compiled(vec![rule(None, None, &["c++"], Transcode::Copy)]);
    assert!(resolve(&rules, b"song.c++").is_some());
    // Unescaped, "c++" would match a bare repeated "c".
    assert!(resolve(&rules, b"song.cc").is_none());
}

#[test]
fn no_rule_in_the_list_means_no_match() {
    let rules: Vec<TranscodeMatch> = Vec::new();
    assert!(resolve(&rules, b"a.flac").is_none());
}

#[test]
fn a_rule_may_list_several_extensions() {
    let rules = compiled(vec![rule(None, None, &["flac", "wav"], Transcode::Copy)]);
    assert!(resolve(&rules, b"a.flac").is_some());
    assert!(resolve(&rules, b"a.wav").is_some());
    assert!(resolve(&rules, b"a.ogg").is_none());
}

#[test]
fn extension_rule_anchors_at_path_end() {
    let rules = compiled(vec![rule(None, None, &["wav"], Transcode::Copy)]);
    assert!(resolve(&rules, b"c.wav.bak").is_none());
}
