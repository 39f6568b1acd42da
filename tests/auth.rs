use chat_relay::auth::{get_access_token_from_auth_header, User};

#[test]
fn bearer_token_is_extracted() {
    assert_eq!(
        get_access_token_from_auth_header("Bearer abc.def.ghi"),
        Some("abc.def.ghi".to_string())
    );
}

#[test]
fn bearer_token_takes_second_word_only() {
    assert_eq!(
        get_access_token_from_auth_header("Bearer   tok   more"),
        Some("tok".to_string())
    );
    assert_eq!(
        get_access_token_from_auth_header("Bearer \ttok\tx"),
        Some("tok".to_string())
    );
}

#[test]
fn bearer_prefix_is_required() {
    assert_eq!(get_access_token_from_auth_header("Basic abc"), None);
    assert_eq!(get_access_token_from_auth_header("bearer abc"), None);
    assert_eq!(get_access_token_from_auth_header("Bearer\tabc"), None);
    assert_eq!(get_access_token_from_auth_header(""), None);
    assert_eq!(get_access_token_from_auth_header("Bear"), None);
}

#[test]
fn bearer_without_token_is_none() {
    assert_eq!(get_access_token_from_auth_header("Bearer "), None);
    assert_eq!(get_access_token_from_auth_header("Bearer  \t "), None);
}

#[test]
fn bearer_token_with_unicode_space() {
    assert_eq!(
        get_access_token_from_auth_header("Bearer \u{3000}tøk\u{2003}rest"),
        Some("tøk".to_string())
    );
}

#[test]
fn user_id_is_returned() {
    let u = User { user_id: 0x1234_5678_9abc_def0_1122_3344_5566_7788 };
    assert_eq!(u.user_id(), 0x1234_5678_9abc_def0_1122_3344_5566_7788);
}
