use pam::constants::{
    PamResultCode, PAM_BINARY_PROMPT, PAM_ERROR_MSG, PAM_PROMPT_ECHO_OFF, PAM_PROMPT_ECHO_ON,
    PAM_RADIO_TYPE, PAM_TEXT_INFO,
};

#[test]
fn codes_have_c_numbers() {
    assert_eq!(PamResultCode::PAM_SUCCESS.code(), 0);
    assert_eq!(PamResultCode::PAM_BUF_ERR.code(), 5);
    assert_eq!(PamResultCode::PAM_AUTH_ERR.code(), 7);
    assert_eq!(PamResultCode::PAM_CONV_ERR.code(), 19);
    assert_eq!(PamResultCode::PAM_IGNORE.code(), 25);
    assert_eq!(PamResultCode::PAM_ABORT.code(), 26);
    assert_eq!(PamResultCode::PAM_INCOMPLETE.code(), 31);
}

#[test]
fn code_round_trip() {
    for n in 0..32 {
        let c = PamResultCode::from_code(n).unwrap();
        assert_eq!(c.code(), n);
        assert_eq!(PamResultCode::from_code(c.code()), Some(c));
    }
    assert_eq!(PamResultCode::from_code(32), None);
    assert_eq!(PamResultCode::from_code(-1), None);
}

#[test]
fn message_styles_have_c_numbers() {
    assert_eq!(PAM_PROMPT_ECHO_OFF, 1);
    assert_eq!(PAM_PROMPT_ECHO_ON, 2);
    assert_eq!(PAM_ERROR_MSG, 3);
    assert_eq!(PAM_TEXT_INFO, 4);
    assert_eq!(PAM_RADIO_TYPE, 5);
    assert_eq!(PAM_BINARY_PROMPT, 7);
}

#[test]
fn code_names_match_debug_output() {
    for n in 0..32 {
        let c = PamResultCode::from_code(n).unwrap();
        assert_eq!(c.name(), format!("{c:?}"));
    }
    assert_eq!(PamResultCode::PAM_ABORT.name(), "PAM_ABORT");
}
