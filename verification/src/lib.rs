pub mod client;
pub mod error;
pub mod gpt;
pub mod score;
pub mod structs;

use crate::gpt::GPT;
use vstd::prelude::*;

verus! {

/// Construct the tutor façade from a credential string. Obtaining the
/// credential (environment, configuration files) is the caller's business;
/// the library only holds it for the transport.
pub fn get_client(secret_key: String) -> (r: GPT)
    ensures
        r.client.secret_key == secret_key,
{
    GPT::new(secret_key)
}

} // verus!
