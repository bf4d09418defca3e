//! The pool record: the persistent state of one trading pair.

use vstd::prelude::*;

use crate::codec::{push_pubkey, push_u16_le, read_pubkey, read_u16_le};
use crate::program_error::ProgramError;
use crate::pubkey::Pubkey;

verus! {

/// The packed length of a pool record: five 32-byte identifiers, two
/// 2-byte fee fields, and one initialization byte.
pub const POOL_LEN: usize = 165;

/// Pool data.
#[derive(Clone, Copy, Debug, PartialEq)]
pub struct Pool {
    /// First token mint.
    pub token_a: Pubkey,
    /// Second token mint.
    pub token_b: Pubkey,
    /// Liquidity-share mint.
    pub lp_mint: Pubkey,
    /// Vault for token A.
    pub token_a_vault: Pubkey,
    /// Vault for token B.
    pub token_b_vault: Pubkey,
    /// Fee numerator.
    pub fee_numerator: u16,
    /// Fee denominator.
    pub fee_denominator: u16,
    /// Whether this record has been initialized.
    pub is_initialized: bool,
}

/// The mathematical image of a pool record: each identifier as its byte
/// sequence.
pub ghost struct PoolV {
    pub token_a: Seq<u8>,
    pub token_b: Seq<u8>,
    pub lp_mint: Seq<u8>,
    pub token_a_vault: Seq<u8>,
    pub token_b_vault: Seq<u8>,
    pub fee_numerator: u16,
    pub fee_denominator: u16,
    pub is_initialized: bool,
}

impl PoolV {
    /// Every identifier holds exactly 32 bytes.
    pub open spec fn wf(self) -> bool {
        &&& self.token_a.len() == 32
        &&& self.token_b.len() == 32
        &&& self.lp_mint.len() == 32
        &&& self.token_a_vault.len() == 32
        &&& self.token_b_vault.len() == 32
    }
}

impl View for Pool {
    type V = PoolV;

    open spec fn view(&self) -> PoolV {
        PoolV {
            token_a: self.token_a@,
            token_b: self.token_b@,
            lp_mint: self.lp_mint@,
            token_a_vault: self.token_a_vault@,
            token_b_vault: self.token_b_vault@,
            fee_numerator: self.fee_numerator,
            fee_denominator: self.fee_denominator,
            is_initialized: self.is_initialized,
        }
    }
}

/// The 165-byte storage image of a pool record.
pub open spec fn spec_pack_pool(p: PoolV) -> Seq<u8> {
    p.token_a + p.token_b + p.lp_mint + p.token_a_vault + p.token_b_vault
        + vstd::bytes::spec_u16_to_le_bytes(p.fee_numerator) + vstd::bytes::spec_u16_to_le_bytes(
        p.fee_denominator,
    ) + seq![
        if p.is_initialized {
            1u8
        } else {
            0u8
        },
    ]
}

/// Strict decoding of a pool record: the buffer must be exactly 165 bytes
/// and the initialization byte must be 0 or 1.
pub open spec fn spec_unpack_pool(s: Seq<u8>) -> Result<PoolV, ProgramError> {
    if s.len() != 165 {
        Err(ProgramError::InvalidAccountData)
    } else if s[164] != 0 && s[164] != 1 {
        Err(ProgramError::InvalidAccountData)
    } else {
        Ok(
            PoolV {
                token_a: s.subrange(0, 32),
                token_b: s.subrange(32, 64),
                lp_mint: s.subrange(64, 96),
                token_a_vault: s.subrange(96, 128),
                token_b_vault: s.subrange(128, 160),
                fee_numerator: vstd::bytes::spec_u16_from_le_bytes(s.subrange(160, 162)),
                fee_denominator: vstd::bytes::spec_u16_from_le_bytes(s.subrange(162, 164)),
                is_initialized: s[164] == 1,
            },
        )
    }
}

impl Pool {
    /// Whether the record's initialization flag is set.
    pub fn is_initialized(&self) -> (r: bool)
        ensures
            r == self@.is_initialized,
    {
        self.is_initialized
    }

    /// Decodes a pool record from its fixed-width storage image.
    pub fn unpack_from_slice(src: &[u8]) -> (r: Result<Pool, ProgramError>)
        ensures
            match spec_unpack_pool(src@) {
                Ok(p) => r is Ok && r->Ok_0@ == p,
                Err(e) => r == Err::<Pool, ProgramError>(e),
            },
    {
        if src.len() != POOL_LEN {
            return Err(ProgramError::InvalidAccountData);
        }
        let init_byte = src[164];
        if init_byte != 0 && init_byte != 1 {
            return Err(ProgramError::InvalidAccountData);
        }
        Ok(
            Pool {
                token_a: read_pubkey(src, 0),
                token_b: read_pubkey(src, 32),
                lp_mint: read_pubkey(src, 64),
                token_a_vault: read_pubkey(src, 96),
                token_b_vault: read_pubkey(src, 128),
                fee_numerator: read_u16_le(src, 160),
                fee_denominator: read_u16_le(src, 162),
                is_initialized: init_byte == 1,
            },
        )
    }

    /// Replaces `dst` with the 165-byte storage image of this record.
    pub fn pack_into_slice(&self, dst: &mut Vec<u8>)
        ensures
            final(dst)@ == spec_pack_pool(self@),
            final(dst)@.len() == 165,
    {
        let mut out: Vec<u8> = Vec::new();
        push_pubkey(&mut out, &self.token_a);
        push_pubkey(&mut out, &self.token_b);
        push_pubkey(&mut out, &self.lp_mint);
        push_pubkey(&mut out, &self.token_a_vault);
        push_pubkey(&mut out, &self.token_b_vault);
        push_u16_le(&mut out, self.fee_numerator);
        push_u16_le(&mut out, self.fee_denominator);
        if self.is_initialized {
            out.push(1u8);
        } else {
            out.push(0u8);
        }
        proof {
            vstd::bytes::lemma_auto_spec_u16_to_from_le_bytes();
            assert(out@ =~= spec_pack_pool(self@));
        }
        *dst = out;
    }
}

/// Packing then unpacking returns every well-formed pool image unchanged;
/// a buffer whose initialization byte is neither 0 nor 1 is rejected.
pub proof fn lemma_pool_round_trip(p: PoolV)
    requires
        p.wf(),
    ensures
        spec_unpack_pool(spec_pack_pool(p)) == Ok::<PoolV, ProgramError>(p),
{
    vstd::bytes::lemma_auto_spec_u16_to_from_le_bytes();
    let s = spec_pack_pool(p);
    assert(s.len() == 165);
    assert(s[164] == if p.is_initialized { 1u8 } else { 0u8 });
    assert(s.subrange(0, 32) =~= p.token_a);
    assert(s.subrange(32, 64) =~= p.token_b);
    assert(s.subrange(64, 96) =~= p.lp_mint);
    assert(s.subrange(96, 128) =~= p.token_a_vault);
    assert(s.subrange(128, 160) =~= p.token_b_vault);
    assert(s.subrange(160, 162) =~= vstd::bytes::spec_u16_to_le_bytes(p.fee_numerator));
    assert(s.subrange(162, 164) =~= vstd::bytes::spec_u16_to_le_bytes(p.fee_denominator));
}

} // verus!
