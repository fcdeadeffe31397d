use pam::constants::PamResultCode;
use pam::hooks::{check_hook_args, extract_argv};

/// Runs `hook` the way a module entry point does: the handle and
/// `argc`/`argv` are validated and the arguments are materialized.
fn invoke(
    handle_present: bool,
    argc: i32,
    argv: Option<&[Option<&'static str>]>,
    hook: fn(Vec<&'static str>) -> PamResultCode,
) -> PamResultCode {
    let count = match check_hook_args(!handle_present, argc, argv.is_none()) {
        Ok(n) => n,
        Err(e) => return e,
    };
    let entries: &[Option<&'static str>] = match argv {
        Some(a) if count > 0 => &a[..count],
        _ => &[],
    };
    match extract_argv(entries) {
        Ok(args) => hook(args),
        Err(e) => e,
    }
}

fn hook_success(_args: Vec<&'static str>) -> PamResultCode {
    PamResultCode::PAM_SUCCESS
}

#[test]
fn invoke_hook_validation() {
    let one_null: [Option<&'static str>; 1] = [None];
    let two_valid: [Option<&'static str>; 2] = [Some("first"), Some("second")];

    // Null PAM handle is rejected before the hook runs
    assert_eq!(invoke(false, 0, None, hook_success), PamResultCode::PAM_ABORT);
    // Negative argc is rejected
    assert_eq!(invoke(true, -1, None, hook_success), PamResultCode::PAM_ABORT);
    // Null argv with positive argc is rejected
    assert_eq!(invoke(true, 1, None, hook_success), PamResultCode::PAM_ABORT);
    // A null element within argv is rejected
    assert_eq!(invoke(true, 1, Some(&one_null), hook_success), PamResultCode::PAM_ABORT);
    // An empty argument list with no argv runs the hook
    assert_eq!(invoke(true, 0, None, hook_success), PamResultCode::PAM_SUCCESS);
    // Happy path: a valid handle and argv invoke the hook
    assert_eq!(invoke(true, 2, Some(&two_valid), hook_success), PamResultCode::PAM_SUCCESS);
}

#[test]
fn test_extract_argv() {
    // Error case: one element is null
    let with_null: [Option<&str>; 2] = [Some("first"), None];
    assert_eq!(extract_argv(&with_null).unwrap_err(), PamResultCode::PAM_ABORT);

    // Success: no arguments
    let empty: [Option<&str>; 0] = [];
    assert!(extract_argv(&empty).unwrap().is_empty());

    // Success: all elements are valid
    let valid: [Option<&str>; 2] = [Some("first"), Some("second")];
    let args = extract_argv(&valid).unwrap();
    assert_eq!(args.len(), 2);
    assert_eq!(args[0], "first");
    assert_eq!(args[1], "second");
}

#[test]
fn check_hook_args_accepts_usable_arguments() {
    assert_eq!(check_hook_args(false, 0, true), Ok(0));
    assert_eq!(check_hook_args(false, 0, false), Ok(0));
    assert_eq!(check_hook_args(false, 3, false), Ok(3));
    assert_eq!(check_hook_args(false, i32::MAX, false), Ok(i32::MAX as usize));
}

#[test]
fn check_hook_args_rejects_each_bad_input() {
    assert_eq!(check_hook_args(true, 0, false), Err(PamResultCode::PAM_ABORT));
    assert_eq!(check_hook_args(false, -1, false), Err(PamResultCode::PAM_ABORT));
    assert_eq!(check_hook_args(false, i32::MIN, true), Err(PamResultCode::PAM_ABORT));
    assert_eq!(check_hook_args(false, 1, true), Err(PamResultCode::PAM_ABORT));
}

#[test]
fn extract_argv_rejects_null_anywhere() {
    let first: [Option<u32>; 3] = [None, Some(2), Some(3)];
    let last: [Option<u32>; 3] = [Some(1), Some(2), None];
    assert_eq!(extract_argv(&first), Err(PamResultCode::PAM_ABORT));
    assert_eq!(extract_argv(&last), Err(PamResultCode::PAM_ABORT));
    let all: [Option<u32>; 3] = [Some(1), Some(2), Some(3)];
    assert_eq!(extract_argv(&all), Ok(vec![1, 2, 3]));
}
