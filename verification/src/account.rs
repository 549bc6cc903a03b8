//! Plain-value model of the accounts a delegated call speaks of:
//! addresses as bare bytes, account metas as address plus access flags,
//! and the positional mapping from list positions to live handles.

use vstd::prelude::*;

verus! {

/// A 32-byte account address, held as plain bytes.
#[derive(Clone, Copy, Debug, PartialEq, Eq)]
pub struct Address(pub [u8; 32]);

/// One entry of a call's formal account list: an address together with
/// the signer and writability flags asserted for it.
#[derive(Clone, Copy, Debug, PartialEq, Eq)]
pub struct AccountMeta {
    pub pubkey: Address,
    pub is_signer: bool,
    pub is_writable: bool,
}

/// A caller-supplied account appended after the fixed accounts, with
/// the flags the caller declared for it. Its declared signer flag is
/// never honoured: the builder forces extra accounts to non-signer.
#[derive(Clone, Copy, Debug, PartialEq, Eq)]
pub struct ExtraAccount {
    pub pubkey: Address,
    pub is_signer: bool,
    pub is_writable: bool,
}

/// Which live account handle belongs at a given position of the call's
/// account list; `Extra(i)` names the i-th caller-supplied account.
#[derive(Clone, Copy, Debug, PartialEq, Eq)]
pub enum AccountSlot {
    ProtocolAuthority,
    Atlas,
    InputMint,
    InputVault,
    OutputMint,
    OutputVault,
    TokenProgram,
    Extra(usize),
}

/// A fully-specified call: target identity, ordered account metas, and
/// the raw payload bytes forwarded verbatim.
#[derive(Clone, Debug)]
pub struct CallDescriptor {
    pub program_id: Address,
    pub accounts: Vec<AccountMeta>,
    pub data: Vec<u8>,
}

/// Everything the dispatch step needs: the instruction, the positional
/// order of live account handles (aligned entry by entry with the
/// instruction's metas), and the seeds that re-derive the protocol
/// authority so the runtime accepts it as a signer.
#[derive(Clone, Debug)]
pub struct DelegatedCall {
    pub instruction: CallDescriptor,
    pub account_slots: Vec<AccountSlot>,
    pub signer_seeds: Vec<Vec<u8>>,
}

} // verus!
