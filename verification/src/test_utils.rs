//! Builders for the accounts that exercises of the handlers start from.

use vstd::prelude::*;

use crate::account::{AccountInfo, AccountV};
use crate::pubkey::Pubkey;

verus! {

broadcast use vstd::array::group_array_axioms;

/// A described account that can be turned into handler input.
pub struct TestAccount {
    pub is_signer: bool,
    pub is_writable: bool,
    pub lamports: u64,
    pub data: Vec<u8>,
    pub owner: Pubkey,
    pub executable: bool,
    pub rent_epoch: u64,
}

/// The byte image of a fresh mint record whose stored authority bytes are
/// `authority` and whose initialization byte is set.
pub open spec fn spec_test_mint_data(authority: Seq<u8>) -> Seq<u8> {
    Seq::new(
        82,
        |i: int|
            if 0 <= i < 32 {
                authority[i]
            } else if i == 45 {
                1u8
            } else {
                0u8
            },
    )
}

/// The byte image of a fresh holding record for `mint` under `owner` whose
/// state byte marks it initialized.
pub open spec fn spec_test_token_account_data(mint: Seq<u8>, owner: Seq<u8>) -> Seq<u8> {
    Seq::new(
        165,
        |i: int|
            if 0 <= i < 32 {
                mint[i]
            } else if 32 <= i < 64 {
                owner[i - 32]
            } else if i == 108 {
                1u8
            } else {
                0u8
            },
    )
}

impl TestAccount {
    /// A writable account with zeroed pool-record-sized backing storage,
    /// as an external allocator would hand it over.
    pub fn new_system_account() -> (r: TestAccount)
        ensures
            r.is_signer == false,
            r.is_writable == true,
            r.lamports == 0,
            r.data@ == Seq::new(165, |i: int| 0u8),
            r.owner@ == Seq::new(32, |i: int| 0u8),
            r.executable == false,
            r.rent_epoch == 0,
    {
        let mut data: Vec<u8> = Vec::new();
        crate::token::state::push_zeros(&mut data, 165);
        proof {
            assert(data@ =~= Seq::<u8>::empty() + Seq::new(165, |i: int| 0u8));
            assert(Seq::<u8>::empty() + Seq::new(165, |i: int| 0u8) =~= Seq::new(
                165,
                |i: int| 0u8,
            ));
        }
        TestAccount {
            is_signer: false,
            is_writable: true,
            lamports: 0,
            data,
            owner: Pubkey::default(),
            executable: false,
            rent_epoch: 0,
        }
    }

    /// An account holding a fresh mint record under `authority`.
    pub fn new_token_mint(authority: &Pubkey) -> (r: TestAccount)
        ensures
            r.is_signer == false,
            r.is_writable == true,
            r.data@ == spec_test_mint_data(authority@),
            r.owner@ == Seq::new(32, |i: int| 0u8),
    {
        let mut account = Self::new_system_account();
        let mut data: Vec<u8> = Vec::new();
        crate::codec::push_pubkey(&mut data, authority);
        crate::token::state::push_zeros(&mut data, 13);
        data.push(1u8);
        crate::token::state::push_zeros(&mut data, 36);
        proof {
            assert(data@ =~= spec_test_mint_data(authority@));
        }
        account.data = data;
        account
    }

    /// An account holding a fresh holding record for `mint` under `owner`.
    pub fn new_token_account(mint: &Pubkey, owner: &Pubkey) -> (r: TestAccount)
        ensures
            r.is_signer == false,
            r.is_writable == true,
            r.data@ == spec_test_token_account_data(mint@, owner@),
            r.owner@ == Seq::new(32, |i: int| 0u8),
    {
        let mut account = Self::new_system_account();
        let mut data: Vec<u8> = Vec::new();
        crate::codec::push_pubkey(&mut data, mint);
        crate::codec::push_pubkey(&mut data, owner);
        crate::token::state::push_zeros(&mut data, 44);
        data.push(1u8);
        crate::token::state::push_zeros(&mut data, 56);
        proof {
            assert(data@ =~= spec_test_token_account_data(mint@, owner@));
        }
        account.data = data;
        account
    }

    /// The account as handler input: keyed and owned by its owner field.
    pub fn to_account_info(&self) -> (r: AccountInfo)
        ensures
            r@ == (AccountV {
                key: self.owner@,
                owner: self.owner@,
                is_signer: self.is_signer,
                is_writable: self.is_writable,
                data: self.data@,
            }),
    {
        let mut data: Vec<u8> = Vec::new();
        crate::codec::push_bytes(&mut data, self.data.as_slice());
        proof {
            assert(data@ =~= self.data@);
        }
        AccountInfo {
            key: self.owner,
            owner: self.owner,
            is_signer: self.is_signer,
            is_writable: self.is_writable,
            data,
        }
    }
}

/// A fresh program identifier and an empty account list to build a case
/// on.
pub fn create_program_test_context() -> (r: (Pubkey, Vec<AccountInfo>))
    ensures
        r.0@ == Seq::new(32, |i: int| 7u8),
        r.1@.len() == 0,
{
    let program_id = Pubkey { bytes: [7u8; 32] };
    proof {
        assert(program_id@ =~= Seq::new(32, |i: int| 7u8));
    }
    (program_id, Vec::new())
}

} // verus!
