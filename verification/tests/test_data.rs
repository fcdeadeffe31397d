use pam::constants::PamResultCode;
use pam::example_modules::data::{data_greeting, data_key, data_stored, data_verdict};

struct Status(bool);

impl Status {
    fn success(&self) -> bool {
        self.0
    }
}

struct Output {
    status: Status,
    stdout: Vec<u8>,
    stderr: Vec<u8>,
}

/// An in-process stand-in for running `pamtester` against a service whose
/// stack is the data module with the given control lines; the handle's
/// module data is a list of key/value pairs, as `pam_set_data` and
/// `pam_get_data` keep them.
fn pamtester(module: &str, config: &[&str], user: Option<&str>, operation: &str, stdin: &[u8]) -> Output {
    assert_eq!(module, "data");
    assert_eq!(operation, "authenticate");
    assert!(user.is_none());
    assert!(stdin.is_empty());
    assert!(config.iter().any(|line| line.starts_with("auth ")));
    let mut handle_data: Vec<(String, String)> = Vec::new();
    let mut stdout = Vec::new();
    let mut stderr = Vec::new();
    handle_data.push((data_key().to_string(), data_greeting()));
    let (code, line) = match data_stored(Ok(())) {
        Some((code, line)) => (code, Some(line)),
        None => {
            let read_back = handle_data
                .iter()
                .find(|(key, _)| key == data_key())
                .map(|(_, value)| value.clone())
                .ok_or(PamResultCode::PAM_NO_MODULE_DATA);
            data_verdict(read_back.as_deref().map_err(|e| *e))
        }
    };
    if let Some(line) = line {
        stderr.extend_from_slice(format!("{line}\n").as_bytes());
    }
    if code == PamResultCode::PAM_SUCCESS {
        stdout.extend_from_slice(b"pamtester: successfully authenticated\n");
    } else {
        stderr.extend_from_slice(format!("pamtester: {code:?}\n").as_bytes());
    }
    Output { status: Status(code == PamResultCode::PAM_SUCCESS), stdout, stderr }
}

#[test]
fn test_data_example_module() {
    let output = pamtester("data", &["auth required"], None, "authenticate", &[]);

    let expected_stdout = "pamtester: successfully authenticated\n";
    let expected_stderr = "data: hello\n";
    let actual_stdout = String::from_utf8_lossy(&output.stdout);
    let actual_stderr = String::from_utf8_lossy(&output.stderr);

    assert!(
        output.status.success(),
        "stdout: {actual_stdout} stderr: {actual_stderr}"
    );
    assert_eq!(expected_stdout, actual_stdout);
    assert_eq!(expected_stderr, actual_stderr);
}

#[test]
fn data_refuses_a_changed_greeting() {
    assert_eq!(data_verdict(Ok("hello")), (PamResultCode::PAM_SUCCESS, Some(String::from("data: hello"))));
    assert_eq!(data_verdict(Ok("hell")), (PamResultCode::PAM_AUTH_ERR, None));
    assert_eq!(data_verdict(Ok("Hello")), (PamResultCode::PAM_AUTH_ERR, None));
    assert_eq!(data_verdict(Ok("")), (PamResultCode::PAM_AUTH_ERR, None));
    assert_eq!(data_key(), "greeting");
    assert_eq!(data_greeting(), "hello");
}

#[test]
fn data_failures_report_their_code() {
    assert_eq!(data_stored(Ok(())), None);
    assert_eq!(
        data_stored(Err(PamResultCode::PAM_BUF_ERR)),
        Some((PamResultCode::PAM_BUF_ERR, String::from("set_data failed, error code: PAM_BUF_ERR")))
    );
    assert_eq!(
        data_verdict(Err(PamResultCode::PAM_NO_MODULE_DATA)),
        (
            PamResultCode::PAM_NO_MODULE_DATA,
            Some(String::from("get_data failed, error code: PAM_NO_MODULE_DATA"))
        )
    );
}
