use audio::alsa_volume::{parse_volume_percent, volume_arg, volume_from_amixer, VolumeError};

#[test]
fn test_parse_volume_percent() {
    let output = r#"Simple mixer control 'XVF3800 SoftMaster',0
  Capabilities: volume
  Playback channels: Mono
  Capture channels: Mono
  Limits: 0 - 100
  Mono: 75 [75%]"#;
    assert_eq!(parse_volume_percent(output), Some(75));
}

#[test]
fn test_parse_volume_percent_stereo() {
    let output = r#"Simple mixer control 'Master',0
  Capabilities: pvolume pswitch pswitch-joined
  Playback channels: Front Left - Front Right
  Limits: Playback 0 - 65536
  Front Left: Playback 32768 [50%] [on]
  Front Right: Playback 32768 [50%] [on]"#;
    assert_eq!(parse_volume_percent(output), Some(50));
}

#[test]
fn test_parse_volume_percent_zero() {
    let output = "  Mono: 0 [0%]";
    assert_eq!(parse_volume_percent(output), Some(0));
}

#[test]
fn test_parse_volume_percent_no_match() {
    assert_eq!(parse_volume_percent("no volume info here"), None);
}

#[test]
fn parse_volume_percent_skips_lines_without_a_number() {
    // a bracket without a percentage, then a value that is out of range for u8
    let output = "Front: [on]\nLeft: [300%]\nRight: [ +42 %]\n";
    assert_eq!(parse_volume_percent(output), Some(42));
}

#[test]
fn parse_volume_percent_trims_and_rejects_signs() {
    assert_eq!(parse_volume_percent("[ 7\t%]"), Some(7));
    assert_eq!(parse_volume_percent("[-7%]"), None);
    assert_eq!(parse_volume_percent("[+%]"), None);
    assert_eq!(parse_volume_percent("[%]"), None);
    assert_eq!(parse_volume_percent("[255%]"), Some(255));
    assert_eq!(parse_volume_percent("[256%]"), None);
    assert_eq!(parse_volume_percent("[007%]"), Some(7));
}

#[test]
fn volume_from_amixer_reports_failures() {
    match volume_from_amixer(false, b"", b"boom") {
        Err(VolumeError::CommandFailed(m)) => assert_eq!(m, "boom"),
        other => panic!("unexpected {:?}", other),
    }
    assert!(matches!(volume_from_amixer(true, b"nothing", b""), Err(VolumeError::ParseError)));
    assert_eq!(volume_from_amixer(true, b"  Mono: 33 [33%]", b"").unwrap(), 33);
}

#[test]
fn volume_arg_caps_at_100() {
    assert_eq!(volume_arg(42), "42%");
    assert_eq!(volume_arg(0), "0%");
    assert_eq!(volume_arg(250), "100%");
}
