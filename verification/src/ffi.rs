use vstd::prelude::*;

use crate::imports::{ImportFn, ImportFnModel};

verus! {

/// The lengths of the argument and result slices a host function is called
/// with, or `None` when the call is refused: there is no registered function
/// behind the call, or a slice the function needs came as a null pointer. A
/// function taking no arguments (or giving no results) gets an empty slice
/// whatever the pointer.
pub open spec fn import_call_slices_spec(
    entry: Option<ImportFnModel>,
    args_present: bool,
    results_present: bool,
) -> Option<(usize, usize)> {
    match entry {
        None => None,
        Some(f) => if (f.param_count != 0 && !args_present) || (f.result_count != 0
            && !results_present) {
            None
        } else {
            Some((f.param_count as usize, f.result_count as usize))
        },
    }
}

/// Decides how the runtime's call of a registered host function is handed on:
/// `entry` is the function behind the call (`None` for a null environment),
/// and the flags say whether the argument and result pointers are non-null.
pub fn import_call_slices(entry: Option<&ImportFn>, args_present: bool, results_present: bool) -> (r:
    Option<(usize, usize)>)
    ensures
        r == import_call_slices_spec(
            match entry {
                Some(f) => Some(f@),
                None => None,
            },
            args_present,
            results_present,
        ),
        entry is None ==> r is None,
        entry matches Some(f) ==> (r == if (f.param_count != 0 && !args_present) || (
        f.result_count != 0 && !results_present) {
            None
        } else {
            Some((f.param_count as usize, f.result_count as usize))
        }),
{
    match entry {
        None => None,
        Some(f) => {
            if (f.param_count != 0 && !args_present) || (f.result_count != 0 && !results_present) {
                None
            } else {
                Some((f.param_count as usize, f.result_count as usize))
            }
        },
    }
}

/// A call handed on to a host function gets slices of exactly the counts the
/// function was registered with: an argument slice of its parameter count and a
/// result slice of its result count. A call is refused only when there is no
/// function behind it, or when a slice of non-zero length would have to be made
/// from a null pointer.
pub proof fn law_host_call_gets_registered_counts(
    f: ImportFnModel,
    args_present: bool,
    results_present: bool,
)
    ensures
        import_call_slices_spec(None, args_present, results_present) is None,
        (f.param_count == 0 || args_present) && (f.result_count == 0 || results_present)
            ==> import_call_slices_spec(Some(f), args_present, results_present) == Some(
            (f.param_count as usize, f.result_count as usize),
        ),
        import_call_slices_spec(Some(f), args_present, results_present) matches Some((n, m)) ==> (
        n == f.param_count && m == f.result_count),
        import_call_slices_spec(Some(f), args_present, results_present) is None ==> ((
        f.param_count != 0 && !args_present) || (f.result_count != 0 && !results_present)),
        import_call_slices_spec(Some(f), true, true) == Some(
            (f.param_count as usize, f.result_count as usize),
        ),
{
}

/// What the runtime is told of a host call: success exactly when the callback
/// returned `Ok`. `None` stands for a callback that panicked.
pub fn import_call_succeeded(outcome: Option<Result<(), String>>) -> (r: bool)
    ensures
        r <==> (outcome matches Some(Ok(_))),
{
    match outcome {
        Some(Ok(())) => true,
        _ => false,
    }
}

} // verus!
