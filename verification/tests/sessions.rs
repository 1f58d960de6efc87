use volume_mixer::session::{
    build_session, get_app_icon_base64, AudioSession, RawSession, DEFAULT_MUTED,
    DEFAULT_VOLUME_BITS, PLACEHOLDER_ICON,
};

fn raw(pid: u32, path: &str, volume: Option<f32>, muted: Option<bool>) -> RawSession {
    RawSession {
        pid,
        path: String::from(path),
        volume_bits: volume.map(f32::to_bits),
        muted,
    }
}

#[test]
fn icon_is_the_placeholder_for_any_path() {
    let expected = Some(String::from(PLACEHOLDER_ICON));
    assert_eq!(get_app_icon_base64("C:\\Apps\\game.exe"), expected);
    assert_eq!(get_app_icon_base64(""), expected);
}

#[test]
fn placeholder_icon_is_a_png_data_uri() {
    assert!(PLACEHOLDER_ICON.starts_with("data:image/png;base64,iVBORw0KGgo"));
    assert!(PLACEHOLDER_ICON.ends_with("5sqHBwAAAABJRU5ErkJggg=="));
    assert_eq!(PLACEHOLDER_ICON.len(), 326);
}

#[test]
fn defaults_are_silence_and_unmuted() {
    assert_eq!(f32::from_bits(DEFAULT_VOLUME_BITS), 0.0);
    assert_eq!(DEFAULT_VOLUME_BITS, 0.0f32.to_bits());
    assert!(!DEFAULT_MUTED);
}

#[test]
fn session_is_built_from_report() {
    let session = build_session(&raw(100, "C:\\a\\x.exe", Some(0.5), Some(true)));
    assert_eq!(
        session,
        AudioSession {
            pid: 100,
            name: String::from("x"),
            path: String::from("C:\\a\\x.exe"),
            volume_bits: 0.5f32.to_bits(),
            muted: true,
            icon_path: Some(String::from(PLACEHOLDER_ICON)),
        }
    );
    assert_eq!(f32::from_bits(session.volume_bits), 0.5);
}

#[test]
fn failed_volume_read_becomes_silence() {
    let session = build_session(&raw(7, "C:\\a\\x.exe", None, Some(true)));
    assert_eq!(f32::from_bits(session.volume_bits), 0.0);
    assert!(session.muted);
    assert_eq!(session.pid, 7);
    assert_eq!(session.name, "x");
}

#[test]
fn failed_mute_read_becomes_unmuted() {
    let session = build_session(&raw(7, "C:\\a\\x.exe", Some(0.25), None));
    assert_eq!(f32::from_bits(session.volume_bits), 0.25);
    assert!(!session.muted);
}

#[test]
fn both_reads_failed() {
    let session = build_session(&raw(7, "C:\\a\\x.exe", None, None));
    assert_eq!(session.volume_bits, 0);
    assert!(!session.muted);
    assert_eq!(session.path, "C:\\a\\x.exe");
}

#[test]
fn volume_bits_are_kept_exactly() {
    for bits in [0u32, 1, 0x3f80_0000, 0x3f00_0000, 0x7fc0_0000, 0x8000_0000, u32::MAX] {
        let session = build_session(&RawSession {
            pid: 1,
            path: String::from("a"),
            volume_bits: Some(bits),
            muted: Some(false),
        });
        assert_eq!(session.volume_bits, bits);
    }
}

#[test]
fn clone_is_an_equal_independent_copy() {
    let session = build_session(&raw(100, "C:\\a\\x.exe", Some(0.5), Some(false)));
    let mut copy = session.clone();
    assert_eq!(copy, session);
    copy.muted = true;
    copy.name.push('!');
    assert!(!session.muted);
    assert_eq!(session.name, "x");
}
