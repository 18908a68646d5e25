//! Choosing the address the local server listens on.
use vstd::prelude::*;

verus! {

/// Why the listen address could not be turned into a socket address. Either
/// one is a fatal configuration error: the process stops with a diagnostic.
#[derive(Debug, Clone, Copy, PartialEq, Eq, Structural)]
pub enum ListenAddrError {
    /// Resolving the listen address failed.
    ResolveFailed,
    /// Resolving succeeded but produced no address.
    NoAddresses,
}

impl ListenAddrError {
    /// The diagnostic that names this error.
    pub fn message(&self) -> (r: &'static str)
        ensures
            r@ == self.message_text(),
    {
        match self {
            ListenAddrError::ResolveFailed => "listen_addr.to_socket_addrs() failed",
            ListenAddrError::NoAddresses => "listen_addr.to_socket_addrs() resolved to no addresses",
        }
    }

    /// The text of the diagnostic for this error.
    pub open spec fn message_text(&self) -> Seq<char> {
        match self {
            ListenAddrError::ResolveFailed => "listen_addr.to_socket_addrs() failed"@,
            ListenAddrError::NoAddresses => "listen_addr.to_socket_addrs() resolved to no addresses"@,
        }
    }
}

/// The outcome of picking a listen address from what resolution gave:
/// `None` when resolution failed, else the resolved addresses in order.
/// The first address wins.
pub open spec fn listen_addr_choice<A>(resolved: Option<Seq<A>>) -> Result<A, ListenAddrError> {
    match resolved {
        None => Err(ListenAddrError::ResolveFailed),
        Some(addrs) => if addrs.len() == 0 {
            Err(ListenAddrError::NoAddresses)
        } else {
            Ok(addrs[0])
        },
    }
}

/// The view of a resolution result.
pub open spec fn resolved_view<A>(resolved: Option<Vec<A>>) -> Option<Seq<A>> {
    match resolved {
        None => None,
        Some(v) => Some(v@),
    }
}

/// Picks the address to listen on: the first one that resolution produced.
///
/// `resolved` is `None` when resolution itself failed.
pub fn first_listen_addr<A>(resolved: Option<Vec<A>>) -> (r: Result<A, ListenAddrError>)
    ensures
        r == listen_addr_choice(resolved_view(resolved)),
        r is Ok <==> (resolved matches Some(v) && v.len() > 0),
        resolved is None ==> r == Err::<A, ListenAddrError>(ListenAddrError::ResolveFailed),
{
    match resolved {
        None => Err(ListenAddrError::ResolveFailed),
        Some(mut addrs) => {
            if addrs.len() == 0 {
                Err(ListenAddrError::NoAddresses)
            } else {
                Ok(addrs.remove(0))
            }
        },
    }
}

} // verus!
