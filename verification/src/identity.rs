//! Account addresses.

use vstd::prelude::*;

verus! {

/// `anchor_lang::prelude::Pubkey`, the address of an account on the host
/// ledger. Nothing is claimed about its contents: the library never looks
/// inside an address, it only copies addresses from its inputs into the
/// records, instructions and events that it writes.
#[verifier::external_type_specification]
#[verifier::external_body]
pub struct ExPubkey(anchor_lang::prelude::Pubkey);

} // verus!
