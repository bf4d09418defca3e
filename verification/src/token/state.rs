//! The token ledger's records: mints, holdings, and multisignature
//! authorities, with their fixed-width storage codecs.

use vstd::prelude::*;

use crate::codec::{push_pubkey, push_u32_le, push_u64_le, read_pubkey, read_u32_le, read_u64_le};
use crate::program_error::ProgramError;
use crate::pubkey::Pubkey;

verus! {

/// The packed length of a holding record.
pub const ACCOUNT_LEN: usize = 165;

/// The packed length of a mint record.
pub const MINT_LEN: usize = 82;

/// The packed length of a multisignature record.
pub const MULTISIG_LEN: usize = 355;

/// The most signers a multisignature record can hold.
pub const MAX_SIGNERS: usize = 11;

/// The image of an optional identifier.
pub open spec fn spec_key_opt(o: Option<Pubkey>) -> Option<Seq<u8>> {
    match o {
        Some(k) => Some(k@),
        None => None,
    }
}

/// The byte image of an optional identifier: a 4-byte tag and either the
/// key or 32 zero bytes.
pub open spec fn spec_pack_coption_key(o: Option<Seq<u8>>) -> Seq<u8> {
    match o {
        Some(k) => vstd::bytes::spec_u32_to_le_bytes(1) + k,
        None => vstd::bytes::spec_u32_to_le_bytes(0) + Seq::new(32, |i: int| 0u8),
    }
}

/// Decoding of an optional identifier at `off`: tag 0 is absent, tag 1 is
/// present, anything else is malformed.
pub open spec fn spec_read_coption_key(s: Seq<u8>, off: int) -> Result<
    Option<Seq<u8>>,
    ProgramError,
> {
    let tag = vstd::bytes::spec_u32_from_le_bytes(s.subrange(off, off + 4));
    if tag == 0 {
        Ok(None)
    } else if tag == 1 {
        Ok(Some(s.subrange(off + 4, off + 36)))
    } else {
        Err(ProgramError::InvalidAccountData)
    }
}

/// The byte image of an optional 64-bit value: a 4-byte tag and either the
/// value or 8 zero bytes.
pub open spec fn spec_pack_coption_u64(o: Option<u64>) -> Seq<u8> {
    match o {
        Some(v) => vstd::bytes::spec_u32_to_le_bytes(1) + vstd::bytes::spec_u64_to_le_bytes(v),
        None => vstd::bytes::spec_u32_to_le_bytes(0) + Seq::new(8, |i: int| 0u8),
    }
}

/// Decoding of an optional 64-bit value at `off`.
pub open spec fn spec_read_coption_u64(s: Seq<u8>, off: int) -> Result<Option<u64>, ProgramError> {
    let tag = vstd::bytes::spec_u32_from_le_bytes(s.subrange(off, off + 4));
    if tag == 0 {
        Ok(None)
    } else if tag == 1 {
        Ok(Some(vstd::bytes::spec_u64_from_le_bytes(s.subrange(off + 4, off + 12))))
    } else {
        Err(ProgramError::InvalidAccountData)
    }
}

/// Reads an optional identifier from `src` at `offset`.
pub fn read_coption_key(src: &[u8], offset: usize) -> (r: Result<Option<Pubkey>, ProgramError>)
    requires
        offset + 36 <= src@.len(),
    ensures
        match spec_read_coption_key(src@, offset as int) {
            Ok(o) => r is Ok && spec_key_opt(r->Ok_0) == o,
            Err(e) => r == Err::<Option<Pubkey>, ProgramError>(e),
        },
{
    let n = src.len();
    let tag = read_u32_le(src, offset);
    if tag == 0 {
        Ok(None)
    } else if tag == 1 {
        Ok(Some(read_pubkey(src, offset + 4)))
    } else {
        Err(ProgramError::InvalidAccountData)
    }
}

/// Reads an optional 64-bit value from `src` at `offset`.
pub fn read_coption_u64(src: &[u8], offset: usize) -> (r: Result<Option<u64>, ProgramError>)
    requires
        offset + 12 <= src@.len(),
    ensures
        r == spec_read_coption_u64(src@, offset as int),
{
    let n = src.len();
    let tag = read_u32_le(src, offset);
    if tag == 0 {
        Ok(None)
    } else if tag == 1 {
        Ok(Some(read_u64_le(src, offset + 4)))
    } else {
        Err(ProgramError::InvalidAccountData)
    }
}

/// Appends `count` zero bytes.
pub fn push_zeros(dst: &mut Vec<u8>, count: usize)
    ensures
        final(dst)@ == old(dst)@ + Seq::new(count as nat, |i: int| 0u8),
{
    let mut i: usize = 0;
    while i < count
        invariant
            0 <= i <= count,
            dst@ == old(dst)@ + Seq::new(i as nat, |k: int| 0u8),
        decreases count - i,
    {
        dst.push(0u8);
        proof {
            assert(dst@ =~= old(dst)@ + Seq::new((i + 1) as nat, |k: int| 0u8));
        }
        i += 1;
    }
}

/// Appends the byte image of an optional identifier.
pub fn push_coption_key(dst: &mut Vec<u8>, o: &Option<Pubkey>)
    ensures
        final(dst)@ == old(dst)@ + spec_pack_coption_key(spec_key_opt(*o)),
{
    match o {
        Some(k) => {
            push_u32_le(dst, 1);
            push_pubkey(dst, k);
            proof {
                assert(dst@ =~= old(dst)@ + spec_pack_coption_key(spec_key_opt(*o)));
            }
        },
        None => {
            push_u32_le(dst, 0);
            push_zeros(dst, 32);
            proof {
                assert(dst@ =~= old(dst)@ + spec_pack_coption_key(spec_key_opt(*o)));
            }
        },
    }
}

/// Appends the byte image of an optional 64-bit value.
pub fn push_coption_u64(dst: &mut Vec<u8>, o: &Option<u64>)
    ensures
        final(dst)@ == old(dst)@ + spec_pack_coption_u64(*o),
{
    match o {
        Some(v) => {
            push_u32_le(dst, 1);
            push_u64_le(dst, *v);
            proof {
                assert(dst@ =~= old(dst)@ + spec_pack_coption_u64(*o));
            }
        },
        None => {
            push_u32_le(dst, 0);
            push_zeros(dst, 8);
            proof {
                assert(dst@ =~= old(dst)@ + spec_pack_coption_u64(*o));
            }
        },
    }
}

/// The lifecycle state of a holding record.
#[derive(Clone, Copy, Debug, PartialEq, Eq, Structural)]
pub enum AccountState {
    /// The record has not been initialized.
    Uninitialized,
    /// The record is initialized and usable.
    Initialized,
    /// The record is frozen by the mint's freeze authority.
    Frozen,
}

impl AccountState {
    /// The storage byte of each state.
    pub open spec fn spec_byte(self) -> u8 {
        match self {
            AccountState::Uninitialized => 0,
            AccountState::Initialized => 1,
            AccountState::Frozen => 2,
        }
    }

    /// The state decoded from a storage byte, if the byte is one of the
    /// three states.
    pub open spec fn spec_from_byte(b: u8) -> Option<AccountState> {
        if b == 0 {
            Some(AccountState::Uninitialized)
        } else if b == 1 {
            Some(AccountState::Initialized)
        } else if b == 2 {
            Some(AccountState::Frozen)
        } else {
            None
        }
    }

    /// Encodes the state as its storage byte.
    pub fn to_byte(self) -> (r: u8)
        ensures
            r == self.spec_byte(),
    {
        match self {
            AccountState::Uninitialized => 0,
            AccountState::Initialized => 1,
            AccountState::Frozen => 2,
        }
    }
}

/// A holding record: some amount of one mint's tokens held under one
/// owner.
#[derive(Clone, Copy, Debug, PartialEq)]
pub struct Account {
    /// The mint this holding belongs to.
    pub mint: Pubkey,
    /// The owner of this holding.
    pub owner: Pubkey,
    /// The amount of tokens held.
    pub amount: u64,
    /// A delegate allowed to spend up to `delegated_amount`.
    pub delegate: Option<Pubkey>,
    /// The record's lifecycle state.
    pub state: AccountState,
    /// For wrapped-native holdings, the rent-exempt reserve.
    pub is_native: Option<u64>,
    /// The amount the delegate may still spend.
    pub delegated_amount: u64,
    /// An authority allowed to close the record.
    pub close_authority: Option<Pubkey>,
}

/// The mathematical image of a holding record.
pub ghost struct TokenAccountV {
    pub mint: Seq<u8>,
    pub owner: Seq<u8>,
    pub amount: u64,
    pub delegate: Option<Seq<u8>>,
    pub state: AccountState,
    pub is_native: Option<u64>,
    pub delegated_amount: u64,
    pub close_authority: Option<Seq<u8>>,
}

impl View for Account {
    type V = TokenAccountV;

    open spec fn view(&self) -> TokenAccountV {
        TokenAccountV {
            mint: self.mint@,
            owner: self.owner@,
            amount: self.amount,
            delegate: spec_key_opt(self.delegate),
            state: self.state,
            is_native: self.is_native,
            delegated_amount: self.delegated_amount,
            close_authority: spec_key_opt(self.close_authority),
        }
    }
}

impl TokenAccountV {
    /// Whether the record has been initialized.
    pub open spec fn spec_is_initialized(self) -> bool {
        self.state != AccountState::Uninitialized
    }

    /// Whether the record is frozen.
    pub open spec fn spec_is_frozen(self) -> bool {
        self.state == AccountState::Frozen
    }
}

/// The 165-byte storage image of a holding record.
pub open spec fn spec_pack_token_account(a: TokenAccountV) -> Seq<u8> {
    a.mint + a.owner + vstd::bytes::spec_u64_to_le_bytes(a.amount) + spec_pack_coption_key(
        a.delegate,
    ) + seq![a.state.spec_byte()] + spec_pack_coption_u64(a.is_native)
        + vstd::bytes::spec_u64_to_le_bytes(a.delegated_amount) + spec_pack_coption_key(
        a.close_authority,
    )
}

/// Strict decoding of a holding record, with no initialization
/// requirement.
pub open spec fn spec_unpack_token_account(s: Seq<u8>) -> Result<TokenAccountV, ProgramError> {
    if s.len() != 165 {
        Err(ProgramError::InvalidAccountData)
    } else {
        match (
            spec_read_coption_key(s, 72),
            AccountState::spec_from_byte(s[108]),
            spec_read_coption_u64(s, 109),
            spec_read_coption_key(s, 129),
        ) {
            (Ok(delegate), Some(state), Ok(is_native), Ok(close_authority)) => Ok(
                TokenAccountV {
                    mint: s.subrange(0, 32),
                    owner: s.subrange(32, 64),
                    amount: vstd::bytes::spec_u64_from_le_bytes(s.subrange(64, 72)),
                    delegate,
                    state,
                    is_native,
                    delegated_amount: vstd::bytes::spec_u64_from_le_bytes(s.subrange(121, 129)),
                    close_authority,
                },
            ),
            _ => Err(ProgramError::InvalidAccountData),
        }
    }
}

/// Checked decoding of a holding record: the record must also be
/// initialized.
pub open spec fn spec_unpack_token_account_checked(s: Seq<u8>) -> Result<
    TokenAccountV,
    ProgramError,
> {
    match spec_unpack_token_account(s) {
        Err(e) => Err(e),
        Ok(a) => if a.spec_is_initialized() {
            Ok(a)
        } else {
            Err(ProgramError::UninitializedAccount)
        },
    }
}

impl Account {
    /// Whether the record has been initialized.
    pub fn is_initialized(&self) -> (r: bool)
        ensures
            r == self@.spec_is_initialized(),
    {
        !matches!(self.state, AccountState::Uninitialized)
    }

    /// Whether the record is frozen.
    pub fn is_frozen(&self) -> (r: bool)
        ensures
            r == self@.spec_is_frozen(),
    {
        matches!(self.state, AccountState::Frozen)
    }

    /// Decodes a holding record without requiring initialization.
    pub fn unpack_unchecked(src: &[u8]) -> (r: Result<Account, ProgramError>)
        ensures
            match spec_unpack_token_account(src@) {
                Ok(a) => r is Ok && r->Ok_0@ == a,
                Err(e) => r == Err::<Account, ProgramError>(e),
            },
    {
        if src.len() != ACCOUNT_LEN {
            return Err(ProgramError::InvalidAccountData);
        }
        let delegate = match read_coption_key(src, 72) {
            Ok(o) => o,
            Err(e) => {
                return Err(e);
            },
        };
        let state_byte = src[108];
        let state = if state_byte == 0 {
            AccountState::Uninitialized
        } else if state_byte == 1 {
            AccountState::Initialized
        } else if state_byte == 2 {
            AccountState::Frozen
        } else {
            return Err(ProgramError::InvalidAccountData);
        };
        let is_native = match read_coption_u64(src, 109) {
            Ok(o) => o,
            Err(e) => {
                return Err(e);
            },
        };
        let close_authority = match read_coption_key(src, 129) {
            Ok(o) => o,
            Err(e) => {
                return Err(e);
            },
        };
        Ok(
            Account {
                mint: read_pubkey(src, 0),
                owner: read_pubkey(src, 32),
                amount: read_u64_le(src, 64),
                delegate,
                state,
                is_native,
                delegated_amount: read_u64_le(src, 121),
                close_authority,
            },
        )
    }

    /// Decodes a holding record, requiring it to be initialized.
    pub fn unpack(src: &[u8]) -> (r: Result<Account, ProgramError>)
        ensures
            match spec_unpack_token_account_checked(src@) {
                Ok(a) => r is Ok && r->Ok_0@ == a,
                Err(e) => r == Err::<Account, ProgramError>(e),
            },
    {
        let account = match Self::unpack_unchecked(src) {
            Ok(a) => a,
            Err(e) => {
                return Err(e);
            },
        };
        if !account.is_initialized() {
            return Err(ProgramError::UninitializedAccount);
        }
        Ok(account)
    }

    /// Replaces `dst` with the 165-byte storage image of this record.
    pub fn pack_into_slice(&self, dst: &mut Vec<u8>)
        ensures
            final(dst)@ == spec_pack_token_account(self@),
            final(dst)@.len() == 165,
    {
        let mut out: Vec<u8> = Vec::new();
        push_pubkey(&mut out, &self.mint);
        push_pubkey(&mut out, &self.owner);
        push_u64_le(&mut out, self.amount);
        push_coption_key(&mut out, &self.delegate);
        out.push(self.state.to_byte());
        push_coption_u64(&mut out, &self.is_native);
        push_u64_le(&mut out, self.delegated_amount);
        push_coption_key(&mut out, &self.close_authority);
        proof {
            vstd::bytes::lemma_auto_spec_u32_to_from_le_bytes();
            vstd::bytes::lemma_auto_spec_u64_to_from_le_bytes();
            assert(out@ =~= spec_pack_token_account(self@));
        }
        *dst = out;
    }
}

/// A mint record: one token kind, its issuing authorities, supply, and
/// precision.
#[derive(Clone, Copy, Debug, PartialEq)]
pub struct Mint {
    /// The authority allowed to mint new tokens, if any remains.
    pub mint_authority: Option<Pubkey>,
    /// Total supply of tokens.
    pub supply: u64,
    /// Number of base-10 digits to the right of the decimal place.
    pub decimals: u8,
    /// Whether this record has been initialized.
    pub is_initialized: bool,
    /// The authority allowed to freeze holdings of this mint, if any.
    pub freeze_authority: Option<Pubkey>,
}

/// The mathematical image of a mint record.
pub ghost struct MintV {
    pub mint_authority: Option<Seq<u8>>,
    pub supply: u64,
    pub decimals: u8,
    pub is_initialized: bool,
    pub freeze_authority: Option<Seq<u8>>,
}

impl View for Mint {
    type V = MintV;

    open spec fn view(&self) -> MintV {
        MintV {
            mint_authority: spec_key_opt(self.mint_authority),
            supply: self.supply,
            decimals: self.decimals,
            is_initialized: self.is_initialized,
            freeze_authority: spec_key_opt(self.freeze_authority),
        }
    }
}

/// The 82-byte storage image of a mint record.
pub open spec fn spec_pack_mint(m: MintV) -> Seq<u8> {
    spec_pack_coption_key(m.mint_authority) + vstd::bytes::spec_u64_to_le_bytes(m.supply) + seq![
        m.decimals,
        if m.is_initialized {
            1u8
        } else {
            0u8
        },
    ] + spec_pack_coption_key(m.freeze_authority)
}

/// Strict decoding of a mint record, with no initialization requirement.
pub open spec fn spec_unpack_mint(s: Seq<u8>) -> Result<MintV, ProgramError> {
    if s.len() != 82 {
        Err(ProgramError::InvalidAccountData)
    } else if s[45] != 0 && s[45] != 1 {
        Err(ProgramError::InvalidAccountData)
    } else {
        match (spec_read_coption_key(s, 0), spec_read_coption_key(s, 46)) {
            (Ok(mint_authority), Ok(freeze_authority)) => Ok(
                MintV {
                    mint_authority,
                    supply: vstd::bytes::spec_u64_from_le_bytes(s.subrange(36, 44)),
                    decimals: s[44],
                    is_initialized: s[45] == 1,
                    freeze_authority,
                },
            ),
            _ => Err(ProgramError::InvalidAccountData),
        }
    }
}

/// Checked decoding of a mint record: the record must also be initialized.
pub open spec fn spec_unpack_mint_checked(s: Seq<u8>) -> Result<MintV, ProgramError> {
    match spec_unpack_mint(s) {
        Err(e) => Err(e),
        Ok(m) => if m.is_initialized {
            Ok(m)
        } else {
            Err(ProgramError::UninitializedAccount)
        },
    }
}

impl Mint {
    /// Decodes a mint record without requiring initialization.
    pub fn unpack_unchecked(src: &[u8]) -> (r: Result<Mint, ProgramError>)
        ensures
            match spec_unpack_mint(src@) {
                Ok(m) => r is Ok && r->Ok_0@ == m,
                Err(e) => r == Err::<Mint, ProgramError>(e),
            },
    {
        if src.len() != MINT_LEN {
            return Err(ProgramError::InvalidAccountData);
        }
        let init_byte = src[45];
        if init_byte != 0 && init_byte != 1 {
            return Err(ProgramError::InvalidAccountData);
        }
        let mint_authority = match read_coption_key(src, 0) {
            Ok(o) => o,
            Err(e) => {
                return Err(e);
            },
        };
        let freeze_authority = match read_coption_key(src, 46) {
            Ok(o) => o,
            Err(e) => {
                return Err(e);
            },
        };
        Ok(
            Mint {
                mint_authority,
                supply: read_u64_le(src, 36),
                decimals: src[44],
                is_initialized: init_byte == 1,
                freeze_authority,
            },
        )
    }

    /// Decodes a mint record, requiring it to be initialized.
    pub fn unpack(src: &[u8]) -> (r: Result<Mint, ProgramError>)
        ensures
            match spec_unpack_mint_checked(src@) {
                Ok(m) => r is Ok && r->Ok_0@ == m,
                Err(e) => r == Err::<Mint, ProgramError>(e),
            },
    {
        let mint = match Self::unpack_unchecked(src) {
            Ok(m) => m,
            Err(e) => {
                return Err(e);
            },
        };
        if !mint.is_initialized {
            return Err(ProgramError::UninitializedAccount);
        }
        Ok(mint)
    }

    /// Replaces `dst` with the 82-byte storage image of this record.
    pub fn pack_into_slice(&self, dst: &mut Vec<u8>)
        ensures
            final(dst)@ == spec_pack_mint(self@),
            final(dst)@.len() == 82,
    {
        let mut out: Vec<u8> = Vec::new();
        push_coption_key(&mut out, &self.mint_authority);
        push_u64_le(&mut out, self.supply);
        out.push(self.decimals);
        if self.is_initialized {
            out.push(1u8);
        } else {
            out.push(0u8);
        }
        push_coption_key(&mut out, &self.freeze_authority);
        proof {
            vstd::bytes::lemma_auto_spec_u32_to_from_le_bytes();
            vstd::bytes::lemma_auto_spec_u64_to_from_le_bytes();
            assert(out@ =~= spec_pack_mint(self@));
        }
        *dst = out;
    }
}

/// A multisignature authority record: up to eleven signer keys of which
/// `m` must sign.
#[derive(Clone, Copy, Debug, PartialEq)]
pub struct Multisig {
    /// Number of signers required.
    pub m: u8,
    /// Number of valid signers.
    pub n: u8,
    /// Whether this record has been initialized.
    pub is_initialized: bool,
    /// The signer keys.
    pub signers: [Pubkey; 11],
}

/// The mathematical image of a multisignature record.
pub ghost struct MultisigV {
    pub m: u8,
    pub n: u8,
    pub is_initialized: bool,
    pub signers: Seq<Seq<u8>>,
}

impl View for Multisig {
    type V = MultisigV;

    open spec fn view(&self) -> MultisigV {
        MultisigV {
            m: self.m,
            n: self.n,
            is_initialized: self.is_initialized,
            signers: self.signers@.map_values(|k: Pubkey| k@),
        }
    }
}

/// The 355-byte storage image of a multisignature record.
pub open spec fn spec_pack_multisig(m: MultisigV) -> Seq<u8>
    recommends
        m.signers.len() == 11,
        forall|i: int| 0 <= i < 11 ==> m.signers[i].len() == 32,
{
    seq![
        m.m,
        m.n,
        if m.is_initialized {
            1u8
        } else {
            0u8
        },
    ] + m.signers.flatten()
}

/// Strict decoding of a multisignature record, with no initialization
/// requirement.
pub open spec fn spec_unpack_multisig(s: Seq<u8>) -> Result<MultisigV, ProgramError> {
    if s.len() != 355 {
        Err(ProgramError::InvalidAccountData)
    } else if s[2] != 0 && s[2] != 1 {
        Err(ProgramError::InvalidAccountData)
    } else {
        Ok(
            MultisigV {
                m: s[0],
                n: s[1],
                is_initialized: s[2] == 1,
                signers: Seq::new(11, |i: int| s.subrange(3 + 32 * i, 35 + 32 * i)),
            },
        )
    }
}

/// Checked decoding of a multisignature record: the record must also be
/// initialized.
pub open spec fn spec_unpack_multisig_checked(s: Seq<u8>) -> Result<MultisigV, ProgramError> {
    match spec_unpack_multisig(s) {
        Err(e) => Err(e),
        Ok(m) => if m.is_initialized {
            Ok(m)
        } else {
            Err(ProgramError::UninitializedAccount)
        },
    }
}

impl Multisig {
    /// Decodes a multisignature record without requiring initialization.
    pub fn unpack_unchecked(src: &[u8]) -> (r: Result<Multisig, ProgramError>)
        ensures
            match spec_unpack_multisig(src@) {
                Ok(m) => r is Ok && r->Ok_0@ == m,
                Err(e) => r == Err::<Multisig, ProgramError>(e),
            },
    {
        if src.len() != MULTISIG_LEN {
            return Err(ProgramError::InvalidAccountData);
        }
        let init_byte = src[2];
        if init_byte != 0 && init_byte != 1 {
            return Err(ProgramError::InvalidAccountData);
        }
        let mut signers: [Pubkey; 11] = [Pubkey { bytes: [0u8; 32] }; 11];
        let mut i: usize = 0;
        while i < 11
            invariant
                src@.len() == 355,
                0 <= i <= 11,
                forall|k: int|
                    0 <= k < i ==> signers@[k]@ == src@.subrange(3 + 32 * k, 35 + 32 * k),
            decreases 11 - i,
        {
            signers[i] = read_pubkey(src, 3 + 32 * i);
            i += 1;
        }
        let result = Multisig { m: src[0], n: src[1], is_initialized: init_byte == 1, signers };
        proof {
            assert(result@.signers =~= spec_unpack_multisig(src@)->Ok_0.signers);
        }
        Ok(result)
    }

    /// Decodes a multisignature record, requiring it to be initialized.
    pub fn unpack(src: &[u8]) -> (r: Result<Multisig, ProgramError>)
        ensures
            match spec_unpack_multisig_checked(src@) {
                Ok(m) => r is Ok && r->Ok_0@ == m,
                Err(e) => r == Err::<Multisig, ProgramError>(e),
            },
    {
        let multisig = match Self::unpack_unchecked(src) {
            Ok(m) => m,
            Err(e) => {
                return Err(e);
            },
        };
        if !multisig.is_initialized {
            return Err(ProgramError::UninitializedAccount);
        }
        Ok(multisig)
    }

    /// Replaces `dst` with the 355-byte storage image of this record.
    pub fn pack_into_slice(&self, dst: &mut Vec<u8>)
        ensures
            final(dst)@ == spec_pack_multisig(self@),
            final(dst)@.len() == 355,
    {
        let mut out: Vec<u8> = Vec::new();
        out.push(self.m);
        out.push(self.n);
        if self.is_initialized {
            out.push(1u8);
        } else {
            out.push(0u8);
        }
        let ghost header = out@;
        let mut i: usize = 0;
        while i < 11
            invariant
                0 <= i <= 11,
                header.len() == 3,
                out@.len() == 3 + 32 * i,
                out@ == header + self@.signers.take(i as int).flatten(),
            decreases 11 - i,
        {
            push_pubkey(&mut out, &self.signers[i]);
            proof {
                let taken = self@.signers.take(i as int);
                let next = self@.signers.take(i + 1);
                assert(next =~= taken.push(self@.signers[i as int]));
                taken.lemma_flatten_push(self@.signers[i as int]);
                assert(out@ =~= header + next.flatten());
            }
            i += 1;
        }
        proof {
            assert(self@.signers.take(11) =~= self@.signers);
            assert(out@ =~= spec_pack_multisig(self@));
        }
        *dst = out;
    }
}

} // verus!
