//! What the service is started with.

use vstd::prelude::*;

verus! {

/// The most connections to storage that are open at a time.
pub const MAX_CONNECTIONS: u32 = 16;

/// The address to listen on where none is configured.
pub open spec fn default_address() -> Seq<char> {
    "127.0.0.1:3000"@
}

/// The address to listen on: the configured one, else `127.0.0.1:3000`.
pub fn server_address(configured: Option<String>) -> (address: String)
    ensures
        address@ == (match configured {
            Some(given) => given@,
            None => default_address(),
        }),
{
    match configured {
        Some(given) => given,
        None => "127.0.0.1:3000".to_owned(),
    }
}

} // verus!
