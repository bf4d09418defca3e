//! Instructions understood by the token ledger.
//!
//! The ledger's wire format belongs to the surrounding runtime; the
//! processor here receives instructions already decoded into this type.

use vstd::prelude::*;

use crate::pubkey::Pubkey;

verus! {

/// The smallest number of multisignature signers.
pub const MIN_SIGNERS: usize = 1;

/// Whether `index` can be the number of provided or required signers of a
/// multisignature record.
pub fn is_valid_signer_index(index: usize) -> (r: bool)
    ensures
        r == (1 <= index <= 11),
{
    1 <= index && index <= 11
}

/// The kinds of authority a `SetAuthority` instruction can change.
#[derive(Clone, Copy, Debug, PartialEq, Eq, Structural)]
pub enum AuthorityType {
    /// Authority to mint new tokens.
    MintTokens,
    /// Authority to freeze any holding of the mint.
    FreezeAccount,
    /// Owner of a holding record.
    AccountOwner,
    /// Authority to close a holding record.
    CloseAccount,
}

/// Instructions supported by the token ledger.
#[derive(Debug)]
pub enum TokenInstruction {
    /// Initializes a new mint.
    InitializeMint { decimals: u8, mint_authority: Pubkey, freeze_authority: Option<Pubkey> },
    /// Initializes a new mint, without requiring a rent sysvar.
    InitializeMint2 { decimals: u8, mint_authority: Pubkey, freeze_authority: Option<Pubkey> },
    /// Initializes a new holding, taking the owner from the accounts.
    InitializeAccount,
    /// Initializes a new holding for `owner`.
    InitializeAccount2 { owner: Pubkey },
    /// Initializes a new holding for `owner`, without a rent sysvar.
    InitializeAccount3 { owner: Pubkey },
    /// Initializes a multisignature authority requiring `m` signers.
    InitializeMultisig { m: u8 },
    /// Transfers tokens between holdings of one mint.
    Transfer { amount: u64 },
    /// Approves a delegate to spend up to `amount`.
    Approve { amount: u64 },
    /// Revokes the current delegate.
    Revoke,
    /// Replaces an authority of a mint or holding.
    SetAuthority { authority_type: AuthorityType, new_authority: Option<Pubkey> },
    /// Mints new tokens to a holding.
    MintTo { amount: u64 },
    /// Burns tokens from a holding.
    Burn { amount: u64 },
    /// Closes a holding record.
    CloseAccount,
    /// Freezes a holding of a mint with a freeze authority.
    FreezeAccount,
    /// Thaws a frozen holding.
    ThawAccount,
    /// Transfer, checked against the mint's decimals.
    TransferChecked { amount: u64, decimals: u8 },
    /// Approve, checked against the mint's decimals.
    ApproveChecked { amount: u64, decimals: u8 },
    /// Mint, checked against the mint's decimals.
    MintToChecked { amount: u64, decimals: u8 },
    /// Burn, checked against the mint's decimals.
    BurnChecked { amount: u64, decimals: u8 },
    /// Reports the byte size of a holding record.
    GetAccountDataSize,
    /// Accepts and ignores an immutable-owner marker for compatibility.
    InitializeImmutableOwner,
    /// Formats a raw amount as a decimal string under the mint's precision.
    AmountToUiAmount { amount: u64 },
    /// Parses a decimal string into a raw amount under the mint's precision.
    UiAmountToAmount { ui_amount: Vec<u8> },
}

} // verus!
