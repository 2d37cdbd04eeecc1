//! Choosing the bridge address to talk to: an address given on the command
//! line wins; otherwise the last candidate that network discovery returned
//! is taken, and an empty discovery result is an error.

use vstd::prelude::*;

use crate::error::HueError;

verus! {

/// Picks the bridge address. An explicitly supplied address is used as is;
/// otherwise the last element of the discovery result is chosen, and an
/// empty discovery result yields `NoBridgeFound`.
pub fn resolve_bridge_address(explicit: Option<String>, discovered: Vec<String>) -> (r: Result<
    String,
    HueError,
>)
    ensures
        explicit matches Some(a) ==> (r matches Ok(x) && x@ == a@),
        explicit is None && discovered@.len() > 0 ==> (r matches Ok(x) && x@
            == discovered@.last()@),
        explicit is None && discovered@.len() == 0 ==> (r matches Err(e) && e
            == HueError::NoBridgeFound),
{
    match explicit {
        Some(a) => Ok(a),
        None => {
            let mut candidates = discovered;
            match candidates.pop() {
                Some(x) => Ok(x),
                None => Err(HueError::NoBridgeFound),
            }
        },
    }
}

} // verus!
