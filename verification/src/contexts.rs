//! What the caller of each operation supplies besides the operation's numbers:
//! the identity that signed the call and the accounts that it names.

use crate::address::Address;
use crate::errors::VoteError;
use vstd::prelude::*;

verus! {

/// A holding of tokens, as the token program reports it.
#[derive(Clone, Copy, Debug, PartialEq, Eq)]
pub struct TokenAccount {
    /// Where the holding is kept.
    pub address: Address,
    /// The mint of the tokens held.
    pub mint: Address,
    /// Who owns the holding.
    pub owner: Address,
}

/// The accounts of `initialize_treasury`.
#[derive(Clone, Copy, Debug, PartialEq, Eq)]
pub struct InitializeTreasury {
    /// The signer, who becomes the treasury's authority.
    pub authority: Address,
    /// The holding of the voting token that was made for the treasury.
    pub treasury_token_account: Address,
}

/// The accounts of `buy_tokens`.
#[derive(Clone, Copy, Debug, PartialEq, Eq)]
pub struct BuyTokens {
    /// The signer, who pays.
    pub buyer: Address,
    /// The mint that the buyer names as the voting token's.
    pub x_mint: Address,
    /// The holding that receives the tokens.
    pub buyer_token_account: TokenAccount,
}

/// The accounts of `register_voter`.
#[derive(Clone, Copy, Debug, PartialEq, Eq)]
pub struct RegisterVoter {
    /// The signer, who becomes a voter.
    pub authority: Address,
}

/// The accounts of `close_voter_account`.
#[derive(Clone, Copy, Debug, PartialEq, Eq)]
pub struct CloseVoterAccount {
    /// The signer, whose voter record is closed.
    pub authority: Address,
    /// Who receives what the record's storage had cost.
    pub rent_recipient: Address,
}

/// The accounts of `register_proposal`.
#[derive(Clone, Copy, Debug, PartialEq, Eq)]
pub struct RegisterProposal {
    /// The signer, who submits the proposal.
    pub authority: Address,
    /// The mint that the caller names as the voting token's.
    pub x_mint: Address,
    /// The holding that pays the bond.
    pub proposal_token_account: TokenAccount,
    /// The treasury's holding, which receives the bond.
    pub treasury_token_account: TokenAccount,
}

/// The accounts of `vote`.
#[derive(Clone, Copy, Debug, PartialEq, Eq)]
pub struct Vote {
    /// The signer, who votes.
    pub authority: Address,
    /// The mint that the caller names as the voting token's.
    pub x_mint: Address,
    /// The holding that pays the stake.
    pub voter_token_account: TokenAccount,
    /// The treasury's holding, which receives the stake.
    pub treasury_token_account: TokenAccount,
}

/// The accounts of `pick_winner`.
#[derive(Clone, Copy, Debug, PartialEq, Eq)]
pub struct PickWinner {
    /// The signer, who asks for the proposal to be finalized.
    pub authority: Address,
}

/// What is wrong with the token accounts of a call that moves tokens from
/// `holder` to `treasury`, if anything: the mint that the caller names must be
/// the configured one, both holdings must be of that mint, and `holder` must
/// belong to `owner`.
pub open spec fn holdings_error(
    configured: Address,
    x_mint: Address,
    holder: TokenAccount,
    owner: Address,
    treasury: TokenAccount,
) -> Option<VoteError> {
    if x_mint != configured {
        Some(VoteError::TokenMintMismatch)
    } else if holder.mint != x_mint {
        Some(VoteError::TokenMintMismatch)
    } else if holder.owner != owner {
        Some(VoteError::Unauthorized)
    } else if treasury.mint != x_mint {
        Some(VoteError::TokenMintMismatch)
    } else {
        None
    }
}

/// Checks the token accounts of a call that moves tokens from `holder` to
/// `treasury`.
pub fn check_holdings(
    configured: &Address,
    x_mint: &Address,
    holder: &TokenAccount,
    owner: &Address,
    treasury: &TokenAccount,
) -> (fault: Option<VoteError>)
    ensures
        fault == holdings_error(*configured, *x_mint, *holder, *owner, *treasury),
{
    if !x_mint.same(configured) {
        Some(VoteError::TokenMintMismatch)
    } else if !holder.mint.same(x_mint) {
        Some(VoteError::TokenMintMismatch)
    } else if !holder.owner.same(owner) {
        Some(VoteError::Unauthorized)
    } else if !treasury.mint.same(x_mint) {
        Some(VoteError::TokenMintMismatch)
    } else {
        None
    }
}

} // verus!
