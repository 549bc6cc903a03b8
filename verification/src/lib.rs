//! Relay that forwards an opaque swap instruction to the Titan program.
//!
//! The library has two parts, run strictly in order:
//! first a payload validator that cross-checks the caller-declared
//! `amount` and `minimum_amount_out` against the same fields embedded at
//! fixed offsets in the payload header, then a delegated-call builder
//! that assembles the target's ordered account list (eight fixed
//! accounts plus a variable tail of caller-supplied accounts) together
//! with the signer seeds that re-derive the protocol authority.
//! Performing the call itself is left to the hosting runtime; the
//! library only decides whether it may happen and exactly what it is.

use vstd::prelude::*;

pub mod account;
pub mod constant;
pub mod swap;

use crate::account::DelegatedCall;
use crate::swap::Swap;
use crate::swap::ValidationError;
use crate::swap::protocol_authority_seed;
use crate::swap::spec_account_metas;
use crate::swap::spec_account_slots;
use crate::swap::spec_validate;
use crate::swap::valid_swap_request;

verus! {

/// Entry point: validate the payload against the declared amounts, and
/// if it agrees, build the delegated call that forwards it to the
/// target program under the derived protocol authority.
pub fn swap(
    accounts: &Swap,
    swap_data: &[u8],
    amount: u64,
    minimum_amount_out: u64,
    remaining_accounts: &Vec<account::ExtraAccount>,
    protocol_authority_bump: u8,
) -> (r: Result<DelegatedCall, ValidationError>)
    ensures
        r is Ok <==> valid_swap_request(swap_data@, amount, minimum_amount_out),
        r matches Err(e) ==> spec_validate(swap_data@, amount, minimum_amount_out) == Err::<
            (),
            ValidationError,
        >(e),
        r matches Ok(c) ==> {
            &&& c.instruction.program_id == accounts.titan_program
            &&& c.instruction.data@ == swap_data@
            &&& c.instruction.accounts@ == spec_account_metas(*accounts, remaining_accounts@)
            &&& c.account_slots@ == spec_account_slots(remaining_accounts@.len())
            &&& c.signer_seeds@.len() == 2
            &&& c.signer_seeds@[0]@ == protocol_authority_seed()
            &&& c.signer_seeds@[1]@ == seq![protocol_authority_bump]
        },
{
    match accounts.check_amount_and_minimum_out(swap_data, amount, minimum_amount_out) {
        Ok(()) => Ok(
            accounts.titan_swap(swap_data, remaining_accounts, protocol_authority_bump),
        ),
        Err(e) => Err(e),
    }
}

} // verus!
