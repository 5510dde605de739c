use vstd::prelude::*;
use solana_program::pubkey::Pubkey;
use spl_token::solana_program::program_pack::Pack;
use crate::arith::{le_bytes, le_u64};
use crate::identity::Identity;

verus! {

/// One account that an instruction names, and what it may do with it.
#[derive(Clone, Copy, Debug, PartialEq, Eq)]
pub struct AccountRole {
    pub key: Identity,
    pub is_signer: bool,
    pub is_writable: bool,
}

/// A token transfer, ready to be invoked: the program to call, the accounts
/// it is given, and the instruction data.
#[derive(Debug, PartialEq, Eq)]
pub struct TransferOrder {
    pub program: Identity,
    pub accounts: Vec<AccountRole>,
    pub data: Vec<u8>,
}

/// Whether the four bytes at `at` are the tag of an optional field: 0 or 1 as
/// a 32-bit number in little-endian order.
pub open spec fn option_tag_at(data: Seq<u8>, at: int) -> bool {
    (data[at] == 0 || data[at] == 1) && data[at + 1] == 0 && data[at + 2] == 0 && data[at + 3] == 0
}

/// The balance in the data of a token account. The data is 165 bytes: mint
/// (32), owner (32), amount (8, little-endian), optional delegate (4 + 32),
/// state (1), optional native reserve (4 + 8), delegated amount (8), optional
/// close authority (4 + 32). It is an account where the three tags are tags
/// and the state is 1 (initialized) or 2 (frozen).
pub open spec fn unpacked_token_amount(data: Seq<u8>) -> Option<u64> {
    if data.len() == 165 && option_tag_at(data, 72) && (data[108] == 1 || data[108] == 2)
        && option_tag_at(data, 109) && option_tag_at(data, 129) {
        Some(le_u64(data.subrange(64, 72)) as u64)
    } else {
        None
    }
}

/// The 32 bytes of the token program's id, `TokenkegQfeZyiNwAJbNbGKPFXCWuBvf9Ss623VQ5DA`.
pub open spec fn token_program_id() -> Seq<u8> {
    seq![
        6u8, 221u8, 246u8, 225u8, 215u8, 101u8, 161u8, 147u8,
        217u8, 203u8, 225u8, 70u8, 206u8, 235u8, 121u8, 172u8,
        28u8, 180u8, 133u8, 237u8, 95u8, 91u8, 55u8, 145u8,
        58u8, 140u8, 245u8, 133u8, 126u8, 255u8, 0u8, 169u8,
    ]
}

/// Calls `spl_token::state::Account::unpack` on the data of a token account and
/// hands back the `amount` field of the account it returns, `None` where it
/// returns an error. Claimed of it: it accepts exactly the data that
/// `unpacked_token_amount` describes, and the amount is the number at bytes
/// 64 to 72.
#[verifier::external_body]
pub(crate) fn token_account_amount(data: &[u8]) -> (r: Option<u64>)
    ensures
        r == unpacked_token_amount(data@),
{
    match spl_token::state::Account::unpack(data) {
        Ok(account) => Some(account.amount),
        Err(_) => None,
    }
}

/// Whether `order` is the token program's transfer of `amount` from `source`
/// to `destination` on the authority of `authority` alone: tag 3 and the
/// amount in little-endian order as data; the source and the destination
/// writable, the authority the only signer.
pub open spec fn is_transfer(
    order: TransferOrder,
    source: Seq<u8>,
    destination: Seq<u8>,
    authority: Seq<u8>,
    amount: u64,
) -> bool {
    &&& order.program@ == token_program_id()
    &&& order.data@ == seq![3u8] + le_bytes(amount)
    &&& order.accounts@.len() == 3
    &&& order.accounts@[0].key@ == source
    &&& !order.accounts@[0].is_signer && order.accounts@[0].is_writable
    &&& order.accounts@[1].key@ == destination
    &&& !order.accounts@[1].is_signer && order.accounts@[1].is_writable
    &&& order.accounts@[2].key@ == authority
    &&& order.accounts@[2].is_signer && !order.accounts@[2].is_writable
}

/// Calls `spl_token::instruction::transfer` without further signers and hands
/// back the instruction it builds, field by field. Claimed of it: it refuses
/// every program but the token program, which is all that it tests; and the
/// instruction it builds for the token program is the one that `is_transfer`
/// describes.
#[verifier::external_body]
pub(crate) fn transfer_instruction(
    token_program: &Identity,
    source: &Identity,
    destination: &Identity,
    authority: &Identity,
    amount: u64,
) -> (r: Option<TransferOrder>)
    ensures
        r is Some <==> token_program@ == token_program_id(),
        r is Some ==> is_transfer(r->Some_0, source@, destination@, authority@, amount),
{
    let made = spl_token::instruction::transfer(
        &Pubkey::new_from_array(token_program.bytes),
        &Pubkey::new_from_array(source.bytes),
        &Pubkey::new_from_array(destination.bytes),
        &Pubkey::new_from_array(authority.bytes),
        &[],
        amount,
    ).ok()?;
    let accounts = made.accounts.iter().map(|m| AccountRole {
        key: Identity { bytes: m.pubkey.to_bytes() },
        is_signer: m.is_signer,
        is_writable: m.is_writable,
    }).collect();
    Some(TransferOrder { program: Identity { bytes: made.program_id.to_bytes() }, accounts, data: made.data })
}

} // verus!
