//! The account model every handler operates on: a key, an owner, a signer
//! flag, and the stored bytes, together with the named accessors through
//! which reserve balances and share supplies are read.

use vstd::prelude::*;

use crate::codec::read_u64_le;
use crate::pubkey::Pubkey;

verus! {

/// One account handed to a handler: its address, owning program, flags,
/// and stored bytes.
pub struct AccountInfo {
    /// The account's address.
    pub key: Pubkey,
    /// The program that owns the account.
    pub owner: Pubkey,
    /// Whether the transaction was signed with this account's key.
    pub is_signer: bool,
    /// Whether the handler may mutate the account.
    pub is_writable: bool,
    /// The account's stored bytes.
    pub data: Vec<u8>,
}

/// The mathematical image of an account.
pub ghost struct AccountV {
    pub key: Seq<u8>,
    pub owner: Seq<u8>,
    pub is_signer: bool,
    pub is_writable: bool,
    pub data: Seq<u8>,
}

impl View for AccountInfo {
    type V = AccountV;

    open spec fn view(&self) -> AccountV {
        AccountV {
            key: self.key@,
            owner: self.owner@,
            is_signer: self.is_signer,
            is_writable: self.is_writable,
            data: self.data@,
        }
    }
}

/// The images of a whole account list.
pub open spec fn accounts_view(s: Seq<AccountInfo>) -> Seq<AccountV> {
    s.map_values(|a: AccountInfo| a@)
}

/// Replaces the stored bytes of account `i`, leaving everything else as it
/// was.
pub fn set_account_data(accounts: &mut Vec<AccountInfo>, i: usize, data: Vec<u8>)
    requires
        i < old(accounts)@.len(),
    ensures
        final(accounts)@.len() == old(accounts)@.len(),
        accounts_view(final(accounts)@) == accounts_view(old(accounts)@).update(
            i as int,
            (AccountV { data: data@, ..accounts_view(old(accounts)@)[i as int] }),
        ),
{
    let a = &accounts[i];
    let replacement = AccountInfo {
        key: a.key,
        owner: a.owner,
        is_signer: a.is_signer,
        is_writable: a.is_writable,
        data,
    };
    vstd::pervasive::VecAdditionalExecFns::set(accounts, i, replacement);
    proof {
        assert(accounts_view(accounts@) =~= accounts_view(old(accounts)@).update(
            i as int,
            (AccountV { data: data@, ..accounts_view(old(accounts)@)[i as int] }),
        ));
    }
}

/// The balance stored in a token account's bytes, or `None` when the buffer
/// is too short to hold one.
pub open spec fn spec_account_amount(data: Seq<u8>) -> Option<u64> {
    if data.len() < 72 {
        None
    } else {
        Some(vstd::bytes::spec_u64_from_le_bytes(data.subrange(64, 72)))
    }
}

/// Reads the current balance of a vault from its stored bytes.
pub fn token_account_amount(data: &Vec<u8>) -> (r: Option<u64>)
    ensures
        r == spec_account_amount(data@),
{
    if data.len() < 72 {
        None
    } else {
        Some(read_u64_le(data.as_slice(), 64))
    }
}

/// The outstanding supply stored in a mint's bytes, or `None` when the
/// buffer is too short to hold one.
pub open spec fn spec_mint_supply(data: Seq<u8>) -> Option<u64> {
    if data.len() < 44 {
        None
    } else {
        Some(vstd::bytes::spec_u64_from_le_bytes(data.subrange(36, 44)))
    }
}

/// Reads the current share supply of a mint from its stored bytes.
pub fn mint_supply(data: &Vec<u8>) -> (r: Option<u64>)
    ensures
        r == spec_mint_supply(data@),
{
    if data.len() < 44 {
        None
    } else {
        Some(read_u64_le(data.as_slice(), 36))
    }
}

} // verus!
