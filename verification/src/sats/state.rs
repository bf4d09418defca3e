//! The vault program's records: the vault itself and the locked outputs it
//! tracks, with their storage codecs.

use vstd::prelude::*;

use crate::codec::{push_bytes, push_pubkey, push_u32_le, push_u64_le, read_pubkey, read_u32_le,
    read_u64_le};
use crate::program_error::ProgramError;
use crate::pubkey::Pubkey;

verus! {

broadcast use vstd::array::group_array_axioms;

/// The packed length of a vault record.
pub const UTXO_VAULT_LEN: usize = 77;

/// A reference to one transaction output on the base chain.
#[derive(Clone, Copy, Debug)]
pub struct SerializableOutPoint {
    /// The transaction id.
    pub txid: [u8; 32],
    /// The output index within the transaction.
    pub vout: u32,
}

/// The mathematical image of an outpoint.
pub ghost struct OutPointV {
    pub txid: Seq<u8>,
    pub vout: u32,
}

impl View for SerializableOutPoint {
    type V = OutPointV;

    open spec fn view(&self) -> OutPointV {
        OutPointV { txid: self.txid@, vout: self.vout }
    }
}

/// A vault record: the authority and mint of one wrapped-sats vault,
/// with the amount it holds and the number of live locked outputs.
#[derive(Clone, Copy, Debug, PartialEq)]
pub struct UtxoVault {
    /// The authority that can manage the vault.
    pub authority: Pubkey,
    /// The mint for the wrapped token.
    pub mint: Pubkey,
    /// Total amount of sats locked in the vault.
    pub total_amount: u64,
    /// Number of active locked outputs.
    pub utxo_count: u32,
    /// Whether this record has been initialized.
    pub is_initialized: bool,
}

/// The mathematical image of a vault record.
pub ghost struct UtxoVaultV {
    pub authority: Seq<u8>,
    pub mint: Seq<u8>,
    pub total_amount: u64,
    pub utxo_count: u32,
    pub is_initialized: bool,
}

impl View for UtxoVault {
    type V = UtxoVaultV;

    open spec fn view(&self) -> UtxoVaultV {
        UtxoVaultV {
            authority: self.authority@,
            mint: self.mint@,
            total_amount: self.total_amount,
            utxo_count: self.utxo_count,
            is_initialized: self.is_initialized,
        }
    }
}

/// The 77-byte storage image of a vault record, fields in declaration
/// order with little-endian integers.
pub open spec fn spec_pack_vault(v: UtxoVaultV) -> Seq<u8> {
    v.authority + v.mint + vstd::bytes::spec_u64_to_le_bytes(v.total_amount)
        + vstd::bytes::spec_u32_to_le_bytes(v.utxo_count) + seq![
        if v.is_initialized {
            1u8
        } else {
            0u8
        },
    ]
}

/// Strict decoding of a vault record: exactly 77 bytes, with a 0-or-1
/// initialization byte.
pub open spec fn spec_unpack_vault(s: Seq<u8>) -> Result<UtxoVaultV, ProgramError> {
    if s.len() != 77 {
        Err(ProgramError::InvalidAccountData)
    } else if s[76] != 0 && s[76] != 1 {
        Err(ProgramError::InvalidAccountData)
    } else {
        Ok(
            UtxoVaultV {
                authority: s.subrange(0, 32),
                mint: s.subrange(32, 64),
                total_amount: vstd::bytes::spec_u64_from_le_bytes(s.subrange(64, 72)),
                utxo_count: vstd::bytes::spec_u32_from_le_bytes(s.subrange(72, 76)),
                is_initialized: s[76] == 1,
            },
        )
    }
}

/// Checked decoding of a vault record: the record must also be
/// initialized.
pub open spec fn spec_unpack_vault_checked(s: Seq<u8>) -> Result<UtxoVaultV, ProgramError> {
    match spec_unpack_vault(s) {
        Err(e) => Err(e),
        Ok(v) => if v.is_initialized {
            Ok(v)
        } else {
            Err(ProgramError::UninitializedAccount)
        },
    }
}

impl UtxoVault {
    /// A fresh, initialized vault for `authority` and `mint` holding
    /// nothing.
    pub fn new(authority: Pubkey, mint: Pubkey) -> (r: UtxoVault)
        ensures
            r@ == (UtxoVaultV {
                authority: authority@,
                mint: mint@,
                total_amount: 0,
                utxo_count: 0,
                is_initialized: true,
            }),
    {
        UtxoVault { authority, is_initialized: true, mint, total_amount: 0, utxo_count: 0 }
    }

    /// Whether the record's initialization flag is set.
    pub fn is_initialized(&self) -> (r: bool)
        ensures
            r == self@.is_initialized,
    {
        self.is_initialized
    }

    /// Decodes a vault record without requiring initialization.
    pub fn unpack_from_slice(src: &[u8]) -> (r: Result<UtxoVault, ProgramError>)
        ensures
            match spec_unpack_vault(src@) {
                Ok(v) => r is Ok && r->Ok_0@ == v,
                Err(e) => r == Err::<UtxoVault, ProgramError>(e),
            },
    {
        if src.len() != UTXO_VAULT_LEN {
            return Err(ProgramError::InvalidAccountData);
        }
        let init_byte = src[76];
        if init_byte != 0 && init_byte != 1 {
            return Err(ProgramError::InvalidAccountData);
        }
        Ok(
            UtxoVault {
                authority: read_pubkey(src, 0),
                mint: read_pubkey(src, 32),
                total_amount: read_u64_le(src, 64),
                utxo_count: read_u32_le(src, 72),
                is_initialized: init_byte == 1,
            },
        )
    }

    /// Decodes a vault record, requiring it to be initialized.
    pub fn unpack(src: &[u8]) -> (r: Result<UtxoVault, ProgramError>)
        ensures
            match spec_unpack_vault_checked(src@) {
                Ok(v) => r is Ok && r->Ok_0@ == v,
                Err(e) => r == Err::<UtxoVault, ProgramError>(e),
            },
    {
        let vault = match Self::unpack_from_slice(src) {
            Ok(v) => v,
            Err(e) => {
                return Err(e);
            },
        };
        if !vault.is_initialized {
            return Err(ProgramError::UninitializedAccount);
        }
        Ok(vault)
    }

    /// Replaces `dst` with the 77-byte storage image of this record.
    pub fn pack_into_slice(&self, dst: &mut Vec<u8>)
        ensures
            final(dst)@ == spec_pack_vault(self@),
            final(dst)@.len() == 77,
    {
        let mut out: Vec<u8> = Vec::new();
        push_pubkey(&mut out, &self.authority);
        push_pubkey(&mut out, &self.mint);
        push_u64_le(&mut out, self.total_amount);
        push_u32_le(&mut out, self.utxo_count);
        if self.is_initialized {
            out.push(1u8);
        } else {
            out.push(0u8);
        }
        proof {
            vstd::bytes::lemma_auto_spec_u32_to_from_le_bytes();
            vstd::bytes::lemma_auto_spec_u64_to_from_le_bytes();
            assert(out@ =~= spec_pack_vault(self@));
        }
        *dst = out;
    }
}

/// One locked output tracked by a vault.
#[derive(Clone, Debug)]
pub struct BitcoinUtxo {
    /// The output's location on the base chain.
    pub outpoint: SerializableOutPoint,
    /// Amount of sats in this output.
    pub amount: u64,
    /// The output's locking script.
    pub script_pubkey: Vec<u8>,
    /// Whether this output has been spent.
    pub is_spent: bool,
}

/// The mathematical image of a locked output.
pub ghost struct BitcoinUtxoV {
    pub outpoint: OutPointV,
    pub amount: u64,
    pub script_pubkey: Seq<u8>,
    pub is_spent: bool,
}

impl View for BitcoinUtxo {
    type V = BitcoinUtxoV;

    open spec fn view(&self) -> BitcoinUtxoV {
        BitcoinUtxoV {
            outpoint: self.outpoint@,
            amount: self.amount,
            script_pubkey: self.script_pubkey@,
            is_spent: self.is_spent,
        }
    }
}

/// The storage image of a locked output: the outpoint, the amount, the
/// length-prefixed script, and the spent flag.
pub open spec fn spec_pack_utxo(u: BitcoinUtxoV) -> Seq<u8> {
    u.outpoint.txid + vstd::bytes::spec_u32_to_le_bytes(u.outpoint.vout)
        + vstd::bytes::spec_u64_to_le_bytes(u.amount) + vstd::bytes::spec_u32_to_le_bytes(
        u.script_pubkey.len() as u32,
    ) + u.script_pubkey + seq![
        if u.is_spent {
            1u8
        } else {
            0u8
        },
    ]
}

impl BitcoinUtxo {
    /// Replaces `dst` with the storage image of this record.
    pub fn pack_into_slice(&self, dst: &mut Vec<u8>)
        requires
            self.script_pubkey@.len() <= u32::MAX,
        ensures
            final(dst)@ == spec_pack_utxo(self@),
    {
        let mut out: Vec<u8> = Vec::new();
        let mut i: usize = 0;
        while i < 32
            invariant
                0 <= i <= 32,
                out@ == self.outpoint.txid@.subrange(0, i as int),
            decreases 32 - i,
        {
            out.push(self.outpoint.txid[i]);
            proof {
                assert(out@ =~= self.outpoint.txid@.subrange(0, i + 1));
            }
            i += 1;
        }
        proof {
            assert(self.outpoint.txid@.subrange(0, 32) =~= self.outpoint.txid@);
        }
        push_u32_le(&mut out, self.outpoint.vout);
        push_u64_le(&mut out, self.amount);
        push_u32_le(&mut out, self.script_pubkey.len() as u32);
        push_bytes(&mut out, self.script_pubkey.as_slice());
        if self.is_spent {
            out.push(1u8);
        } else {
            out.push(0u8);
        }
        proof {
            assert(out@ =~= spec_pack_utxo(self@));
        }
        *dst = out;
    }
}

} // verus!
