//! The validator and the delegated-call builder.
//!
//! `check_amount_and_minimum_out` cross-checks the caller-declared
//! amounts against the amounts embedded in the payload header, and
//! `titan_swap` assembles the call descriptor, the positional order of
//! live account handles, and the signer seeds for the derived protocol
//! authority.

use vstd::prelude::*;
use vstd::bytes::spec_u64_from_le_bytes;
use vstd::bytes::u64_from_le_bytes;
use vstd::slice::slice_subrange;
use vstd::slice::slice_to_vec;

use crate::account::AccountMeta;
use crate::account::AccountSlot;
use crate::account::Address;
use crate::account::CallDescriptor;
use crate::account::DelegatedCall;
use crate::account::ExtraAccount;
use crate::constant::spec_discriminator;

verus! {

/// Why a swap request was rejected before dispatch.
#[derive(Clone, Copy, Debug, PartialEq, Eq)]
pub enum ValidationError {
    /// The payload is not a well-formed `swap_route_v2` instruction:
    /// it does not begin with the discriminator tag, or it is too short
    /// to hold the fixed header.
    MalformedPayload,
    /// A caller-declared value disagrees with the value embedded at the
    /// corresponding fixed offset of the payload; both are carried for
    /// diagnostics.
    AmountMismatch { supplied: u64, embedded: u64 },
}

/// The payload begins with the `swap_route_v2` discriminator tag.
pub open spec fn has_swap_route_v2_discriminator(p: Seq<u8>) -> bool {
    p.len() >= 8 && p.subrange(0, 8) == spec_discriminator()
}

/// The payload is long enough to hold the fixed header and carries the
/// discriminator tag; only then may the embedded integers be read.
pub open spec fn well_formed_payload(p: Seq<u8>) -> bool {
    p.len() >= 24 && has_swap_route_v2_discriminator(p)
}

/// The swap amount embedded in the payload header (bytes 8..16,
/// little-endian).
pub open spec fn payload_amount(p: Seq<u8>) -> u64 {
    spec_u64_from_le_bytes(p.subrange(8, 16))
}

/// The minimum output amount embedded in the payload header
/// (bytes 16..24, little-endian).
pub open spec fn payload_minimum_amount_out(p: Seq<u8>) -> u64 {
    spec_u64_from_le_bytes(p.subrange(16, 24))
}

/// The payload is well formed and both embedded amounts equal the
/// caller-declared ones; exactly these requests may be dispatched.
pub open spec fn valid_swap_request(p: Seq<u8>, amount: u64, minimum_amount_out: u64) -> bool {
    &&& well_formed_payload(p)
    &&& payload_amount(p) == amount
    &&& payload_minimum_amount_out(p) == minimum_amount_out
}

/// The exact result of validation, as a function of the inputs: the
/// discriminator and length are checked first, then the embedded
/// amount, then the embedded minimum output amount.
pub open spec fn spec_validate(p: Seq<u8>, amount: u64, minimum_amount_out: u64) -> Result<
    (),
    ValidationError,
> {
    if !well_formed_payload(p) {
        Err(ValidationError::MalformedPayload)
    } else if payload_amount(p) != amount {
        Err(ValidationError::AmountMismatch { supplied: amount, embedded: payload_amount(p) })
    } else if payload_minimum_amount_out(p) != minimum_amount_out {
        Err(
            ValidationError::AmountMismatch {
                supplied: minimum_amount_out,
                embedded: payload_minimum_amount_out(p),
            },
        )
    } else {
        Ok(())
    }
}

/// True exactly when the payload begins with the discriminator tag;
/// reads nothing past byte 7.
fn starts_with_discriminator(swap_data: &[u8]) -> (r: bool)
    ensures
        r == has_swap_route_v2_discriminator(swap_data@),
{
    if swap_data.len() < 8 {
        return false;
    }
    let r = swap_data[0] == 249 && swap_data[1] == 91 && swap_data[2] == 84 && swap_data[3] == 33
        && swap_data[4] == 69 && swap_data[5] == 22 && swap_data[6] == 0 && swap_data[7] == 135;
    proof {
        let s = swap_data@.subrange(0, 8);
        if r {
            assert(s =~= spec_discriminator());
        } else if s == spec_discriminator() {
            assert(s[0] == 249 && s[1] == 91 && s[2] == 84 && s[3] == 33 && s[4] == 69
                && s[5] == 22 && s[6] == 0 && s[7] == 135);
        }
    }
    r
}

/// Validate the payload against the caller-declared amounts.
///
/// Returns `Ok` exactly on valid requests; a payload without the
/// discriminator tag, or shorter than the fixed header, is rejected as
/// `MalformedPayload` before any offset past it is read, and a
/// disagreeing amount is rejected as `AmountMismatch` carrying both the
/// supplied and the embedded value.
pub fn validate(swap_data: &[u8], amount: u64, minimum_amount_out: u64) -> (r: Result<
    (),
    ValidationError,
>)
    ensures
        r == spec_validate(swap_data@, amount, minimum_amount_out),
        r is Ok <==> valid_swap_request(swap_data@, amount, minimum_amount_out),
{
    if !starts_with_discriminator(swap_data) {
        return Err(ValidationError::MalformedPayload);
    }
    if swap_data.len() < 24 {
        return Err(ValidationError::MalformedPayload);
    }
    let embedded_amount = u64_from_le_bytes(slice_subrange(swap_data, 8, 16));
    if embedded_amount != amount {
        return Err(ValidationError::AmountMismatch { supplied: amount, embedded: embedded_amount });
    }
    let embedded_minimum_out = u64_from_le_bytes(slice_subrange(swap_data, 16, 24));
    if embedded_minimum_out != minimum_amount_out {
        return Err(
            ValidationError::AmountMismatch {
                supplied: minimum_amount_out,
                embedded: embedded_minimum_out,
            },
        );
    }
    Ok(())
}

/// The fixed accounts of one swap invocation, each as the plain address
/// the call builder forwards. The derived protocol authority doubles as
/// the payer position of the target's account list and as the signing
/// identity of the delegated call.
#[derive(Clone, Copy, Debug)]
pub struct Swap {
    pub protocol_authority: Address,
    pub atlas: Address,
    pub input_mint: Address,
    pub input_vault: Address,
    pub output_mint: Address,
    pub output_vault: Address,
    pub token_program: Address,
    pub titan_program: Address,
}

/// The eight fixed account metas of the target's account list, in
/// order: the protocol authority (writable, signer), atlas, the input
/// mint, the input vault (writable), the output mint, the output vault
/// (writable), and the token program twice (input and output side).
pub open spec fn spec_fixed_account_metas(s: Swap) -> Seq<AccountMeta> {
    seq![
        AccountMeta { pubkey: s.protocol_authority, is_signer: true, is_writable: true },
        AccountMeta { pubkey: s.atlas, is_signer: false, is_writable: false },
        AccountMeta { pubkey: s.input_mint, is_signer: false, is_writable: false },
        AccountMeta { pubkey: s.input_vault, is_signer: false, is_writable: true },
        AccountMeta { pubkey: s.output_mint, is_signer: false, is_writable: false },
        AccountMeta { pubkey: s.output_vault, is_signer: false, is_writable: true },
        AccountMeta { pubkey: s.token_program, is_signer: false, is_writable: false },
        AccountMeta { pubkey: s.token_program, is_signer: false, is_writable: false },
    ]
}

/// The meta an extra account contributes: its address, its declared
/// writability, and the signer flag forced off.
pub open spec fn spec_extra_account_meta(e: ExtraAccount) -> AccountMeta {
    AccountMeta { pubkey: e.pubkey, is_signer: false, is_writable: e.is_writable }
}

/// The full account meta list: the eight fixed metas followed by one
/// meta per extra account, in the caller's order.
pub open spec fn spec_account_metas(s: Swap, extras: Seq<ExtraAccount>) -> Seq<AccountMeta> {
    spec_fixed_account_metas(s) + extras.map_values(|e: ExtraAccount| spec_extra_account_meta(e))
}

/// The slots of the eight fixed positions, in the same order as the
/// fixed metas; the token program serves both program positions.
pub open spec fn spec_fixed_slots() -> Seq<AccountSlot> {
    seq![
        AccountSlot::ProtocolAuthority,
        AccountSlot::Atlas,
        AccountSlot::InputMint,
        AccountSlot::InputVault,
        AccountSlot::OutputMint,
        AccountSlot::OutputVault,
        AccountSlot::TokenProgram,
        AccountSlot::TokenProgram,
    ]
}

/// The positional order of live account handles: the eight fixed slots
/// followed by the extra accounts in order.
pub open spec fn spec_account_slots(n_extra: nat) -> Seq<AccountSlot> {
    spec_fixed_slots() + Seq::new(n_extra, |i: int| AccountSlot::Extra(i as usize))
}

/// The address that stands at a slot.
pub open spec fn spec_slot_key(s: Swap, extras: Seq<ExtraAccount>, slot: AccountSlot) -> Address {
    match slot {
        AccountSlot::ProtocolAuthority => s.protocol_authority,
        AccountSlot::Atlas => s.atlas,
        AccountSlot::InputMint => s.input_mint,
        AccountSlot::InputVault => s.input_vault,
        AccountSlot::OutputMint => s.output_mint,
        AccountSlot::OutputVault => s.output_vault,
        AccountSlot::TokenProgram => s.token_program,
        AccountSlot::Extra(i) => extras[i as int].pubkey,
    }
}

/// The fixed label from which the protocol authority is derived.
pub open spec fn protocol_authority_seed() -> Seq<u8> {
    seq![
        112u8, 114u8, 111u8, 116u8, 111u8, 99u8, 111u8, 108u8, 95u8, 97u8, 117u8, 116u8, 104u8,
        111u8, 114u8, 105u8, 116u8, 121u8,
    ]
}

/// The derivation label `protocol_authority` as bytes.
fn protocol_authority_seed_bytes() -> (v: Vec<u8>)
    ensures
        v@ == protocol_authority_seed(),
{
    let mut v: Vec<u8> = Vec::new();
    v.push(112);
    v.push(114);
    v.push(111);
    v.push(116);
    v.push(111);
    v.push(99);
    v.push(111);
    v.push(108);
    v.push(95);
    v.push(97);
    v.push(117);
    v.push(116);
    v.push(104);
    v.push(111);
    v.push(114);
    v.push(105);
    v.push(116);
    v.push(121);
    v
}

impl Swap {
    /// Validate the payload against the caller-declared amounts; the
    /// request may be dispatched exactly when this returns `Ok`.
    pub fn check_amount_and_minimum_out(
        &self,
        swap_data: &[u8],
        amount: u64,
        minimum_amount_out: u64,
    ) -> (r: Result<(), ValidationError>)
        ensures
            r == spec_validate(swap_data@, amount, minimum_amount_out),
            r is Ok <==> valid_swap_request(swap_data@, amount, minimum_amount_out),
    {
        validate(swap_data, amount, minimum_amount_out)
    }

    /// Build the delegated call that forwards the payload to the target
    /// program: the instruction (target identity, account metas, raw
    /// payload), the positional order of live handles aligned with the
    /// metas, and the signer seeds (fixed label plus bump) that
    /// re-derive the protocol authority.
    pub fn titan_swap(
        &self,
        swap_data: &[u8],
        remaining_accounts: &Vec<ExtraAccount>,
        bump: u8,
    ) -> (c: DelegatedCall)
        ensures
            c.instruction.program_id == self.titan_program,
            c.instruction.data@ == swap_data@,
            c.instruction.accounts@ == spec_account_metas(*self, remaining_accounts@),
            c.account_slots@ == spec_account_slots(remaining_accounts@.len()),
            c.signer_seeds@.len() == 2,
            c.signer_seeds@[0]@ == protocol_authority_seed(),
            c.signer_seeds@[1]@ == seq![bump],
    {
        let mut accounts: Vec<AccountMeta> = Vec::new();
        accounts.push(
            AccountMeta { pubkey: self.protocol_authority, is_signer: true, is_writable: true },
        );
        accounts.push(AccountMeta { pubkey: self.atlas, is_signer: false, is_writable: false });
        accounts.push(AccountMeta { pubkey: self.input_mint, is_signer: false, is_writable: false });
        accounts.push(AccountMeta { pubkey: self.input_vault, is_signer: false, is_writable: true });
        accounts.push(
            AccountMeta { pubkey: self.output_mint, is_signer: false, is_writable: false },
        );
        accounts.push(
            AccountMeta { pubkey: self.output_vault, is_signer: false, is_writable: true },
        );
        accounts.push(
            AccountMeta { pubkey: self.token_program, is_signer: false, is_writable: false },
        );
        accounts.push(
            AccountMeta { pubkey: self.token_program, is_signer: false, is_writable: false },
        );
        let mut slots: Vec<AccountSlot> = Vec::new();
        slots.push(AccountSlot::ProtocolAuthority);
        slots.push(AccountSlot::Atlas);
        slots.push(AccountSlot::InputMint);
        slots.push(AccountSlot::InputVault);
        slots.push(AccountSlot::OutputMint);
        slots.push(AccountSlot::OutputVault);
        slots.push(AccountSlot::TokenProgram);
        slots.push(AccountSlot::TokenProgram);
        let mut i: usize = 0;
        while i < remaining_accounts.len()
            invariant
                i <= remaining_accounts@.len(),
                accounts@ == spec_fixed_account_metas(*self) + remaining_accounts@.subrange(
                    0,
                    i as int,
                ).map_values(|e: ExtraAccount| spec_extra_account_meta(e)),
                slots@ == spec_fixed_slots() + Seq::new(
                    i as nat,
                    |j: int| AccountSlot::Extra(j as usize),
                ),
            decreases remaining_accounts@.len() - i,
        {
            let acc = remaining_accounts[i];
            accounts.push(
                AccountMeta { pubkey: acc.pubkey, is_signer: false, is_writable: acc.is_writable },
            );
            slots.push(AccountSlot::Extra(i));
            i += 1;
        }
        let label = protocol_authority_seed_bytes();
        let mut bump_seed: Vec<u8> = Vec::new();
        bump_seed.push(bump);
        let mut signer_seeds: Vec<Vec<u8>> = Vec::new();
        signer_seeds.push(label);
        signer_seeds.push(bump_seed);
        DelegatedCall {
            instruction: CallDescriptor {
                program_id: self.titan_program,
                accounts,
                data: slice_to_vec(swap_data),
            },
            account_slots: slots,
            signer_seeds,
        }
    }
}

/// A payload that does not begin with the discriminator tag is rejected
/// as malformed, whatever amounts the caller declares.
pub proof fn lemma_validate_rejects_wrong_discriminator(
    p: Seq<u8>,
    amount: u64,
    minimum_amount_out: u64,
)
    requires
        !has_swap_route_v2_discriminator(p),
    ensures
        spec_validate(p, amount, minimum_amount_out) == Err::<(), ValidationError>(
            ValidationError::MalformedPayload,
        ),
{
}

/// On a well-formed payload whose embedded amount disagrees with the
/// declared one, validation fails with a mismatch carrying the supplied
/// and the embedded value.
pub proof fn lemma_validate_rejects_amount_mismatch(
    p: Seq<u8>,
    amount: u64,
    minimum_amount_out: u64,
)
    requires
        well_formed_payload(p),
        payload_amount(p) != amount,
    ensures
        spec_validate(p, amount, minimum_amount_out) == Err::<(), ValidationError>(
            ValidationError::AmountMismatch { supplied: amount, embedded: payload_amount(p) },
        ),
{
}

/// On a well-formed payload whose embedded minimum output amount
/// disagrees with the declared one, validation fails with the same
/// failure class: a mismatch carrying the supplied and embedded values
/// of whichever field is checked first and disagrees.
pub proof fn lemma_validate_rejects_minimum_out_mismatch(
    p: Seq<u8>,
    amount: u64,
    minimum_amount_out: u64,
)
    requires
        well_formed_payload(p),
        payload_minimum_amount_out(p) != minimum_amount_out,
    ensures
        spec_validate(p, amount, minimum_amount_out) matches Err(e) && e matches
            ValidationError::AmountMismatch { .. },
        payload_amount(p) == amount ==> spec_validate(p, amount, minimum_amount_out) == Err::<
            (),
            ValidationError,
        >(
            ValidationError::AmountMismatch {
                supplied: minimum_amount_out,
                embedded: payload_minimum_amount_out(p),
            },
        ),
{
}

/// Validation succeeds exactly on valid requests, and its result is a
/// function of the arguments alone: two results obtained from identical
/// arguments are identical, so repeating a validation neither changes
/// its verdict nor any state.
pub proof fn lemma_validate_deterministic(
    p: Seq<u8>,
    amount: u64,
    minimum_amount_out: u64,
    r1: Result<(), ValidationError>,
    r2: Result<(), ValidationError>,
)
    requires
        r1 == spec_validate(p, amount, minimum_amount_out),
        r2 == spec_validate(p, amount, minimum_amount_out),
    ensures
        r1 == r2,
        r1 is Ok <==> valid_swap_request(p, amount, minimum_amount_out),
{
}

/// The assembled meta list always has one entry per fixed account plus
/// one per extra account, the slot list has the same length, and at
/// every position the meta's address is the address of the handle the
/// slot names: the two lists correspond strictly positionally.
pub proof fn lemma_meta_info_positional_alignment(s: Swap, extras: Seq<ExtraAccount>)
    requires
        extras.len() <= usize::MAX,
    ensures
        spec_account_metas(s, extras).len() == 8 + extras.len(),
        spec_account_slots(extras.len()).len() == 8 + extras.len(),
        forall|i: int|
            0 <= i < spec_account_metas(s, extras).len() ==> #[trigger] spec_account_metas(
                s,
                extras,
            )[i].pubkey == spec_slot_key(s, extras, spec_account_slots(extras.len())[i]),
{
    let metas = spec_account_metas(s, extras);
    let slots = spec_account_slots(extras.len());
    assert forall|i: int| 0 <= i < metas.len() implies #[trigger] metas[i].pubkey == spec_slot_key(
        s,
        extras,
        slots[i],
    ) by {
        if i < 8 {
            assert(metas[i] == spec_fixed_account_metas(s)[i]);
            assert(slots[i] == spec_fixed_slots()[i]);
        } else {
            assert(metas[i] == spec_extra_account_meta(extras[i - 8]));
            assert(slots[i] == AccountSlot::Extra((i - 8) as usize));
        }
    }
}

/// Every extra account enters the meta list with its signer flag forced
/// off, its declared writability kept exactly, and its address
/// unchanged, at the position right after the fixed accounts.
pub proof fn lemma_extra_account_flags(s: Swap, extras: Seq<ExtraAccount>, i: int)
    requires
        0 <= i < extras.len(),
    ensures
        spec_account_metas(s, extras)[8 + i].is_signer == false,
        spec_account_metas(s, extras)[8 + i].is_writable == extras[i].is_writable,
        spec_account_metas(s, extras)[8 + i].pubkey == extras[i].pubkey,
{
    assert(spec_account_metas(s, extras)[8 + i] == spec_extra_account_meta(extras[i]));
}

} // verus!

