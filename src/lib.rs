//! Run an HTTP handler either inside AWS Lambda or as a local development server.
//!
//! The library holds the decisions: which of the two modes a process runs in,
//! which address the local server listens on, and how an inbound request is
//! handed to the user's handler. The transports themselves (the HTTP server
//! loop and the Lambda runtime client) stay at the edge of the program.
use vstd::prelude::*;

pub mod adapter;
pub mod listen;
pub mod mode;

pub use adapter::{respond, respond_with_context};
pub use listen::{first_listen_addr, ListenAddrError};
pub use mode::{is_lambda, RUNTIME_API_VAR};

verus! {

use crate::listen::listen_addr_choice;
use crate::mode::lambda_selected;

/// Without the runtime endpoint variable, a build that serves locally does not
/// take the Lambda path, and a listen address that resolves to at least one
/// socket address gives the local server the first of them.
pub proof fn unmanaged_resolvable_serves_locally<A>(addrs: Seq<A>)
    requires
        addrs.len() > 0,
    ensures
        !lambda_selected(false, true),
        listen_addr_choice(Some(addrs)) == Ok::<A, ListenAddrError>(addrs[0]),
{
}

/// In local mode, a listen address that fails to resolve, or resolves to no
/// socket address, never yields an address to serve on: it is a fatal error
/// that names which of the two happened.
pub proof fn unresolvable_is_fatal<A>(resolved: Option<Seq<A>>)
    requires
        resolved matches Some(addrs) ==> addrs.len() == 0,
    ensures
        listen_addr_choice(resolved) is Err,
        resolved is None ==> listen_addr_choice(resolved) == Err::<A, ListenAddrError>(
            ListenAddrError::ResolveFailed,
        ),
        resolved is Some ==> listen_addr_choice(resolved) == Err::<A, ListenAddrError>(
            ListenAddrError::NoAddresses,
        ),
{
}

/// Any value of the runtime endpoint variable selects Lambda mode: only its
/// presence counts, whether or not the build serves locally.
pub proof fn runtime_variable_selects_lambda(local_serving: bool)
    ensures
        lambda_selected(true, local_serving),
{
}

} // verus!
