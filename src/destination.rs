//! The canonical token account of an investor.

use vstd::prelude::*;

use crate::key::Key;

verus! {

/// The canonical token account of `wallet` for `mint` (its associated token
/// account under the classic token program).
pub uninterp spec fn associated_address(wallet: Seq<u8>, mint: Seq<u8>) -> Seq<u8>;

/// Relies on anchor_spl::associated_token::get_associated_token_address: the
/// program-derived address of the associated token account of `wallet` for
/// `mint`, which depends on the two addresses alone. It panics only where no
/// bump seed gives an address off the curve, which its documentation calls
/// statistically improbable.
#[verifier::external_body]
pub(crate) fn associated_token_address(wallet: &Key, mint: &Key) -> (r: Key)
    ensures
        r@ == associated_address(wallet@, mint@),
{
    let address = anchor_spl::associated_token::get_associated_token_address(
        &anchor_lang::prelude::Pubkey::new_from_array(wallet.bytes),
        &anchor_lang::prelude::Pubkey::new_from_array(mint.bytes),
    );
    Key { bytes: address.to_bytes() }
}

} // verus!
