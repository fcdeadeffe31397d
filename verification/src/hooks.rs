//! The checks that a module entry point runs on what PAM hands it before a
//! hook of the module is called.
use vstd::prelude::*;
use crate::constants::{PamResult, PamResultCode};

verus! {

/// The arguments that PAM passes to an entry point are usable: a handle is
/// present, `argc` is not negative, and an argument array is present whenever
/// `argc` is positive.
pub open spec fn hook_args_usable(handle_is_null: bool, argc: i32, argv_is_null: bool) -> bool {
    !handle_is_null && argc >= 0 && !(argc > 0 && argv_is_null)
}

/// Every entry of the argument array is present.
pub open spec fn all_present<T>(argv: Seq<Option<T>>) -> bool {
    forall|i: int| 0 <= i < argv.len() ==> (#[trigger] argv[i]) is Some
}

/// The values of the entries of the argument array, in order.
pub open spec fn present_values<T>(argv: Seq<Option<T>>) -> Seq<T> {
    argv.map_values(|entry: Option<T>| entry->0)
}

/// A present handle with a count that is not negative is accepted whenever
/// the argument array is present or the count is zero; a missing handle, a
/// negative count, or a missing array for a positive count is refused.
pub proof fn law_hook_args(handle_is_null: bool, argc: i32, argv_is_null: bool)
    ensures
        !handle_is_null && argc >= 0 && !argv_is_null ==> hook_args_usable(handle_is_null, argc, argv_is_null),
        !handle_is_null && argc == 0 ==> hook_args_usable(handle_is_null, argc, argv_is_null),
        handle_is_null ==> !hook_args_usable(handle_is_null, argc, argv_is_null),
        argc < 0 ==> !hook_args_usable(handle_is_null, argc, argv_is_null),
        argc > 0 && argv_is_null ==> !hook_args_usable(handle_is_null, argc, argv_is_null),
{
}

/// The arguments materialized from a complete argument array are all of its
/// entries, in order: as many as there are entries, the `i`-th being the
/// value of the `i`-th entry. An array is complete exactly when no entry is
/// missing.
pub proof fn law_present_values<T>(argv: Seq<Option<T>>)
    ensures
        all_present(argv) <==> !exists|i: int| 0 <= i < argv.len() && (#[trigger] argv[i]) is None,
        all_present(argv) ==> present_values(argv).len() == argv.len() && forall|i: int|
            0 <= i < argv.len() ==> argv[i] == Some(#[trigger] present_values(argv)[i]),
{
    if all_present(argv) {
        assert forall|i: int| 0 <= i < argv.len() implies argv[i] == Some(#[trigger] present_values(argv)[i]) by {
            assert(argv[i] is Some);
        }
    }
}

/// Validates the handle and `argc`/`argv` that PAM passes to an entry point.
///
/// Returns the number of arguments to read from `argv`; fails with
/// [`PamResultCode::PAM_ABORT`] if the handle is null, if `argc` is negative,
/// or if `argv` is null while `argc` is positive.
pub fn check_hook_args(handle_is_null: bool, argc: i32, argv_is_null: bool) -> (res: PamResult<usize>)
    ensures
        res is Ok <==> hook_args_usable(handle_is_null, argc, argv_is_null),
        res is Ok <==> (!handle_is_null && argc >= 0 && (argc == 0 || !argv_is_null)),
        res matches Ok(n) ==> n == argc,
        res matches Err(e) ==> e == PamResultCode::PAM_ABORT,
{
    if handle_is_null {
        return Err(PamResultCode::PAM_ABORT);
    }
    if argc < 0 || (argc > 0 && argv_is_null) {
        return Err(PamResultCode::PAM_ABORT);
    }
    Ok(argc as usize)
}

/// Materializes the module arguments, where `None` stands for a null entry.
///
/// Fails with [`PamResultCode::PAM_ABORT`] if any entry is null; otherwise
/// returns the values of all entries, in order.
pub fn extract_argv<T: Copy>(argv: &[Option<T>]) -> (res: PamResult<Vec<T>>)
    ensures
        res is Ok <==> all_present(argv@),
        res matches Ok(args) ==> args@ == present_values(argv@),
        res is Err <==> exists|i: int| 0 <= i < argv@.len() && (#[trigger] argv@[i]) is None,
        res matches Ok(args) ==> args@.len() == argv@.len() && forall|i: int|
            0 <= i < argv@.len() ==> argv@[i] == Some(#[trigger] args@[i]),
        res matches Err(e) ==> e == PamResultCode::PAM_ABORT,
{
    let mut args: Vec<T> = Vec::new();
    let n = argv.len();
    for i in 0..n
        invariant
            n == argv@.len(),
            all_present(argv@.take(i as int)),
            args@ == present_values(argv@.take(i as int)),
    {
        match argv[i] {
            Some(arg) => {
                args.push(arg);
                assert(argv@.take(i + 1) == argv@.take(i as int).push(argv@[i as int]));
            },
            None => {
                assert(!all_present(argv@)) by {
                    assert(argv@[i as int] is None);
                }
                return Err(PamResultCode::PAM_ABORT);
            },
        }
    }
    assert(argv@.take(n as int) == argv@);
    Ok(args)
}

} // verus!
