//! The treasury: its initialization, and the sale of voting tokens.

use crate::contexts::{BuyTokens, InitializeTreasury};
use crate::errors::VoteError;
use crate::events::{Purchase, Transfer};
use crate::ledger::{Ledger, LedgerView};
use crate::state::{ProposalCounter, Record, RecordView, TreasuryConfig};
use vstd::prelude::*;

verus! {

/// Why the treasury cannot be initialized, if anything: its configuration
/// exists, or the place of the proposal counter is taken.
pub open spec fn initialize_treasury_error(ledger: LedgerView) -> Option<VoteError> {
    if ledger.records.contains_key(ledger.fixed.treasury_config) {
        Some(VoteError::AlreadyInitialized)
    } else if ledger.fixed.proposal_counter == ledger.fixed.treasury_config
        || ledger.records.contains_key(ledger.fixed.proposal_counter) {
        Some(VoteError::ProposalCounterAlreadyInitialized)
    } else {
        None
    }
}

/// The configuration that an initialization writes.
pub open spec fn initial_config(
    ledger: LedgerView,
    ctx: InitializeTreasury,
    sol_price: u64,
    token_per_purchase: u64,
) -> TreasuryConfig {
    TreasuryConfig {
        authority: ctx.authority,
        x_mint: ledger.fixed.x_mint,
        treasury_token_account: ctx.treasury_token_account,
        sol_price,
        token_per_purchase,
        bump: ledger.fixed.sol_vault_bump,
    }
}

/// The ledger after `initialize_treasury`: with the configuration and a counter
/// at 0 where the call succeeds, unchanged where it fails.
pub open spec fn initialize_treasury_state(
    ledger: LedgerView,
    ctx: InitializeTreasury,
    sol_price: u64,
    token_per_purchase: u64,
) -> LedgerView {
    if initialize_treasury_error(ledger) is Some {
        ledger
    } else {
        ledger.with_record(
            ledger.fixed.treasury_config,
            RecordView::Treasury(initial_config(ledger, ctx, sol_price, token_per_purchase)),
        ).with_record(
            ledger.fixed.proposal_counter,
            RecordView::Counter(ProposalCounter { authority: ctx.authority, proposal_count: 0 }),
        )
    }
}

/// Initializes the treasury: writes the sale's configuration, with the caller
/// as authority, and the proposal counter at 0. The mint, the treasury's
/// holding, the vault and the mint authority are accounts without a record;
/// their addresses are the ledger's fixed ones and the holding named in `ctx`.
pub fn initialize_treasury(
    ledger: &mut Ledger,
    ctx: &InitializeTreasury,
    sol_price: u64,
    token_per_purchase: u64,
) -> (done: Result<(), VoteError>)
    requires
        old(ledger).wf(),
    ensures
        final(ledger).wf(),
        done == match initialize_treasury_error(old(ledger)@) {
            Some(error) => Err::<(), VoteError>(error),
            None => Ok(()),
        },
        final(ledger)@ == initialize_treasury_state(
            old(ledger)@,
            *ctx,
            sol_price,
            token_per_purchase,
        ),
{
    let fixed = ledger.fixed();
    if ledger.contains(&fixed.treasury_config) {
        return Err(VoteError::AlreadyInitialized);
    }
    if fixed.proposal_counter.same(&fixed.treasury_config) || ledger.contains(
        &fixed.proposal_counter,
    ) {
        return Err(VoteError::ProposalCounterAlreadyInitialized);
    }
    let config = TreasuryConfig {
        authority: ctx.authority,
        x_mint: fixed.x_mint,
        treasury_token_account: ctx.treasury_token_account,
        sol_price,
        token_per_purchase,
        bump: fixed.sol_vault_bump,
    };
    let counter = ProposalCounter { authority: ctx.authority, proposal_count: 0 };
    ledger.put(fixed.treasury_config, Record::Treasury(config));
    ledger.put(fixed.proposal_counter, Record::Counter(counter));
    Ok(())
}

/// The tokens that a payment buys: as many whole multiples of the price as the
/// payment holds, each worth `token_per_purchase` tokens; what is left of the
/// payment buys nothing. There is no answer where the price is zero or the
/// tokens do not fit in 64 bits.
pub open spec fn tokens_for(payment: u64, sol_price: u64, token_per_purchase: u64) -> Option<u64> {
    if sol_price == 0 {
        None
    } else if (payment / sol_price) * token_per_purchase > u64::MAX {
        None
    } else {
        Some(((payment / sol_price) * token_per_purchase) as u64)
    }
}

/// Computes the tokens that a payment buys.
pub fn quote(payment: u64, sol_price: u64, token_per_purchase: u64) -> (tokens: Option<u64>)
    ensures
        tokens == tokens_for(payment, sol_price, token_per_purchase),
{
    if sol_price == 0 {
        return None;
    }
    let lots: u64 = payment / sol_price;
    lots.checked_mul(token_per_purchase)
}

/// What `buy_tokens` answers: the payment to the vault and the tokens to the
/// buyer, or the first failure among these: the configuration cannot be read;
/// the mint named is not the configured one; the buyer's holding is not the
/// buyer's; it is of another mint; the payment cannot be exchanged.
pub open spec fn buy_tokens_outcome(ledger: LedgerView, ctx: BuyTokens, payment_amount: u64) -> Result<
    Purchase,
    VoteError,
> {
    match ledger.load_treasury() {
        Err(error) => Err(error),
        Ok(config) => if config.x_mint != ctx.x_mint {
            Err(VoteError::TokenMintMismatch)
        } else if ctx.buyer_token_account.owner != ctx.buyer {
            Err(VoteError::Unauthorized)
        } else if ctx.buyer_token_account.mint != ctx.x_mint {
            Err(VoteError::TokenMintMismatch)
        } else {
            match tokens_for(payment_amount, config.sol_price, config.token_per_purchase) {
                None => Err(VoteError::InvalidAmount),
                Some(tokens) => Ok(
                    Purchase {
                        payment: Transfer {
                            from: ctx.buyer,
                            to: ledger.fixed.sol_vault,
                            amount: payment_amount,
                        },
                        tokens: Transfer {
                            from: config.treasury_token_account,
                            to: ctx.buyer_token_account.address,
                            amount: tokens,
                        },
                    },
                ),
            }
        },
    }
}

/// Sells voting tokens for a payment in native currency. The ledger keeps no
/// balances and does not change: the answer names the two transfers to make.
pub fn buy_tokens(ledger: &Ledger, ctx: &BuyTokens, payment_amount: u64) -> (bought: Result<
    Purchase,
    VoteError,
>)
    requires
        ledger.wf(),
    ensures
        bought == buy_tokens_outcome(ledger@, *ctx, payment_amount),
{
    let config = match ledger.treasury() {
        Ok(config) => config,
        Err(error) => {
            return Err(error);
        },
    };
    if !config.x_mint.same(&ctx.x_mint) {
        return Err(VoteError::TokenMintMismatch);
    }
    if !ctx.buyer_token_account.owner.same(&ctx.buyer) {
        return Err(VoteError::Unauthorized);
    }
    if !ctx.buyer_token_account.mint.same(&ctx.x_mint) {
        return Err(VoteError::TokenMintMismatch);
    }
    match quote(payment_amount, config.sol_price, config.token_per_purchase) {
        None => Err(VoteError::InvalidAmount),
        Some(tokens) => Ok(
            Purchase {
                payment: Transfer {
                    from: ctx.buyer,
                    to: ledger.fixed().sol_vault,
                    amount: payment_amount,
                },
                tokens: Transfer {
                    from: config.treasury_token_account,
                    to: ctx.buyer_token_account.address,
                    amount: tokens,
                },
            },
        ),
    }
}

} // verus!
