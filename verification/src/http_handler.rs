//! Decision logic of the control-plane handlers: path-parameter parsing and
//! the greeting. The HTTP server itself lives in the I/O shell and maps
//! these results onto status codes; the summary computation lives with the
//! data model.

use vstd::prelude::*;

use crate::numbers::{dec_val, parse_u64, parses_as_u64};

verus! {

/// Greeting served on the liveness route.
pub fn hello_message() -> (r: String)
    ensures
        r@ == "Hello world!"@,
{
    "Hello world!".to_owned()
}

/// Parses the offer id from a request path. A path that is not a decimal
/// number fitting an unsigned 64-bit integer answers 400.
pub fn parse_offer_id(s: &str) -> (r: Result<u64, u16>)
    ensures
        parses_as_u64(s@) ==> r == Ok::<u64, u16>((dec_val(s@) as u64)),
        !parses_as_u64(s@) ==> r == Err::<u64, u16>(400u16),
{
    match parse_u64(s) {
        Some(id) => Ok(id),
        None => Err(400),
    }
}

} // verus!
