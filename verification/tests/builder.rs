use notify_rs::errors::NotifyError;
use notify_rs::notification::PyNotification;
use notify_rs::timeout::{
    decode_timeout, encode_timeout, Timeout, TIMEOUT_DEFAULT, TIMEOUT_NEVER,
};
use notify_rs::urgency::{
    decode_urgency, encode_urgency, Urgency, URGENCY_CRITICAL, URGENCY_LOW, URGENCY_NORMAL,
};

#[test]
fn boundary_constants_have_their_documented_values() {
    assert_eq!(TIMEOUT_NEVER, -2);
    assert_eq!(TIMEOUT_DEFAULT, -1);
    assert_eq!(URGENCY_LOW, 0);
    assert_eq!(URGENCY_NORMAL, 1);
    assert_eq!(URGENCY_CRITICAL, 2);
}

#[test]
fn timeout_rejects_every_other_negative_value() {
    let mut draft = PyNotification::new();
    for bad in [-3, -7, -100, i32::MIN] {
        assert_eq!(draft.timeout(bad), Err(NotifyError::InvalidArgument(bad)));
        // A rejected code leaves the draft untouched.
        assert_eq!(draft.get_timeout(), TIMEOUT_DEFAULT);
    }
}

#[test]
fn timeout_accepts_sentinels_and_milliseconds() {
    let mut draft = PyNotification::new();
    for good in [-2, -1, 0, 1, 5000, i32::MAX] {
        assert_eq!(draft.timeout(good), Ok(()));
        assert_eq!(draft.get_timeout(), good);
    }
}

#[test]
fn timeout_codec_is_symmetric_on_valid_codes() {
    assert_eq!(decode_timeout(-1), Ok(Timeout::ServerDefault));
    assert_eq!(decode_timeout(-2), Ok(Timeout::Never));
    assert_eq!(decode_timeout(0), Ok(Timeout::Milliseconds(0)));
    assert_eq!(decode_timeout(750), Ok(Timeout::Milliseconds(750)));
    assert_eq!(decode_timeout(-5), Err(NotifyError::InvalidArgument(-5)));
    for code in [-2, -1, 0, 750, i32::MAX] {
        assert_eq!(encode_timeout(&decode_timeout(code).unwrap()), code);
    }
}

#[test]
fn urgency_rejects_out_of_range_values() {
    let mut draft = PyNotification::new();
    for bad in [-1, 3, 7, i32::MAX, i32::MIN] {
        assert_eq!(draft.urgency(bad), Err(NotifyError::InvalidArgument(bad)));
    }
}

#[test]
fn urgency_accepts_low_normal_critical() {
    let mut draft = PyNotification::new();
    for good in [0, 1, 2] {
        assert_eq!(draft.urgency(good), Ok(()));
    }
}

#[test]
fn urgency_codec_is_symmetric_on_valid_codes() {
    assert_eq!(decode_urgency(0), Ok(Urgency::Low));
    assert_eq!(decode_urgency(1), Ok(Urgency::Normal));
    assert_eq!(decode_urgency(2), Ok(Urgency::Critical));
    assert_eq!(decode_urgency(4), Err(NotifyError::InvalidArgument(4)));
    for code in [0, 1, 2] {
        assert_eq!(encode_urgency(&decode_urgency(code).unwrap()), code);
    }
}

#[test]
fn setter_chaining_equals_two_sequential_calls() {
    let mut chained = PyNotification::new();
    chained.summary("a").body("b");

    let mut sequential = PyNotification::new();
    sequential.summary("a");
    sequential.body("b");

    assert_eq!(chained.get_summary(), "a");
    assert_eq!(chained.get_body(), "b");
    assert_eq!(chained.get_summary(), sequential.get_summary());
    assert_eq!(chained.get_body(), sequential.get_body());
}

#[test]
fn fresh_draft_has_defaults() {
    let draft = PyNotification::new();
    // Only the appname is pre-filled, with the host executable's name.
    assert!(!draft.get_appname().is_empty());
    assert_eq!(draft.get_summary(), "");
    assert_eq!(draft.get_body(), "");
    assert_eq!(draft.get_icon(), "");
    assert_eq!(draft.get_subtitle(), None);
    assert_eq!(draft.get_timeout(), TIMEOUT_DEFAULT);
}

#[test]
fn getters_are_idempotent() {
    let mut draft = PyNotification::new();
    draft.summary("summary").body("body").subtitle("sub").icon("dialog-ok");
    draft.timeout(1234).unwrap();
    assert_eq!(draft.get_appname(), draft.get_appname());
    assert_eq!(draft.get_summary(), draft.get_summary());
    assert_eq!(draft.get_body(), draft.get_body());
    assert_eq!(draft.get_subtitle(), draft.get_subtitle());
    assert_eq!(draft.get_icon(), draft.get_icon());
    assert_eq!(draft.get_timeout(), draft.get_timeout());
}

#[test]
fn setters_are_reflected_by_getters() {
    let mut draft = PyNotification::new();
    draft
        .appname("someapp")
        .summary("a summary")
        .subtitle("a subtitle")
        .body("a body")
        .icon("firefox")
        .image_path("/tmp/picture.png")
        .sound_name("message-new-instant")
        .id(42);
    assert_eq!(draft.get_appname(), "someapp");
    assert_eq!(draft.get_summary(), "a summary");
    assert_eq!(draft.get_subtitle(), Some("a subtitle".to_string()));
    assert_eq!(draft.get_body(), "a body");
    assert_eq!(draft.get_icon(), "firefox");
}

#[test]
fn auto_icon_follows_the_executable_naming_convention() {
    let mut draft = PyNotification::new();
    assert_eq!(draft.get_icon(), "");
    draft.auto_icon();
    // Both the default appname and the automatic icon come from the host
    // executable's name.
    assert_eq!(draft.get_icon(), draft.get_appname());
}

#[test]
fn finalize_returns_an_equal_copy() {
    let mut draft = PyNotification::new();
    draft.summary("done").body("all targets built").icon("emblem-ok");
    draft.timeout(3000).unwrap();
    let copy = draft.finalize();
    assert_eq!(copy.get_appname(), draft.get_appname());
    assert_eq!(copy.get_summary(), draft.get_summary());
    assert_eq!(copy.get_body(), draft.get_body());
    assert_eq!(copy.get_subtitle(), draft.get_subtitle());
    assert_eq!(copy.get_icon(), draft.get_icon());
    assert_eq!(copy.get_timeout(), draft.get_timeout());
}
