use pam::constants::PamResultCode;
use pam::example_modules::quiz::{quiz_conversation_ready, quiz_prompt, quiz_verdict, QUIZ_PROMPT_STYLE};
use pam::constants::PAM_PROMPT_ECHO_ON;

struct Status(bool);

impl Status {
    fn success(&self) -> bool {
        self.0
    }
}

struct Output {
    status: Status,
    stdout: Vec<u8>,
    stderr: Vec<u8>,
}

/// An in-process stand-in for running `pamtester` against a service whose
/// stack is the quiz module with the given control lines: the client's
/// conversation prints each echoed prompt on stderr and answers with the next
/// line of `stdin`, as `pamtester`'s text conversation does.
fn pamtester(module: &str, config: &[&str], user: Option<&str>, operation: &str, stdin: &[u8]) -> Output {
    assert_eq!(module, "quiz");
    assert_eq!(operation, "authenticate");
    assert!(user.is_none());
    assert!(config.iter().any(|line| line.starts_with("auth ")));
    let mut stdout = Vec::new();
    let mut stderr = Vec::new();
    let code = match quiz_conversation_ready(Ok(true)) {
        Err(e) => e,
        Ok(()) => {
            assert_eq!(QUIZ_PROMPT_STYLE, PAM_PROMPT_ECHO_ON);
            stderr.extend_from_slice(quiz_prompt().as_bytes());
            let line: Vec<u8> = stdin.iter().copied().take_while(|&b| b != b'\n').collect();
            quiz_verdict(Ok(Some(line)))
        }
    };
    if code == PamResultCode::PAM_SUCCESS {
        stdout.extend_from_slice(b"pamtester: successfully authenticated\n");
    } else {
        stderr.extend_from_slice(format!("pamtester: {code:?}\n").as_bytes());
    }
    Output { status: Status(code == PamResultCode::PAM_SUCCESS), stdout, stderr }
}

#[test]
fn test_quiz_example_module() {
    let output = pamtester("quiz", &["auth required"], None, "authenticate", b"5\n");

    let expected_stdout = "pamtester: successfully authenticated\n";
    let expected_stderr = "2 + 3 = ";
    let actual_stdout = String::from_utf8_lossy(&output.stdout);
    let actual_stderr = String::from_utf8_lossy(&output.stderr);

    assert!(
        output.status.success(),
        "stdout: {actual_stdout} stderr: {actual_stderr}"
    );
    assert_eq!(expected_stdout, actual_stdout);
    assert_eq!(expected_stderr, actual_stderr);
}

#[test]
fn quiz_refuses_wrong_answers() {
    for answer in [b"4\n".as_slice(), b"five\n", b"\n", b"-5\n", b" 5\n", b"5 \n", b"4294967301\n"] {
        let output = pamtester("quiz", &["auth required"], None, "authenticate", answer);
        assert!(!output.status.success());
        assert!(output.stdout.is_empty());
    }
}

#[test]
fn quiz_accepts_plus_sign_and_leading_zeros() {
    for answer in [b"+5\n".as_slice(), b"05\n", b"0005"] {
        let output = pamtester("quiz", &["auth required"], None, "authenticate", answer);
        assert!(output.status.success());
    }
}

#[test]
fn quiz_verdict_cases() {
    assert_eq!(quiz_verdict(Err(PamResultCode::PAM_BUF_ERR)), PamResultCode::PAM_BUF_ERR);
    assert_eq!(quiz_verdict(Ok(None)), PamResultCode::PAM_CONV_ERR);
    assert_eq!(quiz_verdict(Ok(Some(vec![0xff]))), PamResultCode::PAM_AUTH_ERR);
    assert_eq!(quiz_verdict(Ok(Some(b"5".to_vec()))), PamResultCode::PAM_SUCCESS);
    assert_eq!(quiz_verdict(Ok(Some(b"6".to_vec()))), PamResultCode::PAM_AUTH_ERR);
    assert_eq!(quiz_conversation_ready(Ok(false)), Err(PamResultCode::PAM_CONV_ERR));
    assert_eq!(quiz_conversation_ready(Err(PamResultCode::PAM_BAD_ITEM)), Err(PamResultCode::PAM_BAD_ITEM));
}
