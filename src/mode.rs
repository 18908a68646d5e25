//! Choosing between the managed Lambda runtime and the local server.
use vstd::prelude::*;

verus! {

/// The environment variable that the Lambda execution environment sets to the
/// address of its Runtime API. Its presence alone selects Lambda mode; its
/// value is never read here.
pub const RUNTIME_API_VAR: &'static str = "AWS_LAMBDA_RUNTIME_API";

/// Whether requests come from the Lambda Runtime API, given whether the
/// runtime's endpoint variable is present in the environment and whether this
/// build serves locally at all.
pub open spec fn lambda_selected(runtime_api_present: bool, local_serving: bool) -> bool {
    runtime_api_present || !local_serving
}

/// Decides whether to run under the Lambda runtime.
///
/// `runtime_api_present` tells whether [`RUNTIME_API_VAR`] is set, whatever
/// its value. A build without the local server has no other mode, so it always
/// answers `true`.
pub fn is_lambda(runtime_api_present: bool, local_serving: bool) -> (r: bool)
    ensures
        r == lambda_selected(runtime_api_present, local_serving),
        runtime_api_present ==> r,
        !local_serving ==> r,
        local_serving && !runtime_api_present ==> !r,
{
    if !local_serving {
        true
    } else {
        runtime_api_present
    }
}

} // verus!
