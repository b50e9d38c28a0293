use crate::effects::{one_effect, Account, Effect, Receipt, VaultEvent};
use crate::errors::VaultError;
use crate::fixed_point::fits_i128;
use crate::math::lemma_min_liquidity_bounds;
use crate::storage::{
    get_strategy_data, get_total_tokens, set_strategy_data, set_total_tokens, Storage,
    StorageView, StrategyData,
};
use crate::validation::{
    liquidity_suffices, require_authorized_strategy, require_positive_amount,
    require_sufficient_liquidity, require_valid_repayment,
};
use soroban_sdk::Env;
use vstd::prelude::*;

verus! {

/// Why a strategy operation on `amount` is refused before anything else is
/// looked at, if it is: the amount must be positive and the strategy
/// registered.
pub open spec fn strategy_call_error(pre: StorageView, strategy: u64, amount: int) -> Option<
    VaultError,
> {
    if amount <= 0 {
        Some(VaultError::ZeroAmount)
    } else if !pre.is_strategy(strategy) {
        Some(VaultError::UnauthorizedStrategy)
    } else {
        None
    }
}

/// Why a borrow of `amount` by `strategy` is refused in `pre`, with
/// `vault_balance` tokens on hand, if it is.
pub open spec fn borrow_error(pre: StorageView, strategy: u64, amount: int, vault_balance: int)
    -> Option<VaultError> {
    if strategy_call_error(pre, strategy, amount) is Some {
        strategy_call_error(pre, strategy, amount)
    } else if !liquidity_suffices(
        amount,
        vault_balance,
        pre.total_tokens as int,
        pre.min_liquidity_rate as int,
    ) {
        Some(VaultError::InsufficientVaultBalance)
    } else {
        None
    }
}

/// Why a repayment of `amount` by `strategy` is refused in `pre`, if it is.
pub open spec fn repay_error(pre: StorageView, strategy: u64, amount: int) -> Option<VaultError> {
    if strategy_call_error(pre, strategy, amount) is Some {
        strategy_call_error(pre, strategy, amount)
    } else if amount > pre.strategy_data[strategy].borrowed {
        Some(VaultError::InvalidAmount)
    } else {
        None
    }
}

/// The store with the books of `strategy` changed by `borrowed` and
/// `net_impact`.
pub open spec fn with_strategy_delta(
    pre: StorageView,
    strategy: u64,
    borrowed: int,
    net_impact: int,
) -> StorageView {
    StorageView {
        strategy_data: pre.strategy_data.insert(
            strategy,
            StrategyData {
                borrowed: (pre.strategy_data[strategy].borrowed + borrowed) as i128,
                net_impact: (pre.strategy_data[strategy].net_impact + net_impact) as i128,
            },
        ),
        ..pre
    }
}

/// The store after `strategy` settled `amount` with the vault: positive for
/// tokens that came in, negative for tokens that went out. Its net impact
/// and the token total move by the same amount.
pub open spec fn after_settlement(pre: StorageView, strategy: u64, amount: int) -> StorageView {
    StorageView {
        total_tokens: (pre.total_tokens + amount) as i128,
        ..with_strategy_delta(pre, strategy, 0, amount)
    }
}

/// Whether settling `amount` for `strategy` stays within `i128`.
pub open spec fn settlement_fits(pre: StorageView, strategy: u64, amount: int) -> bool {
    &&& fits_i128(pre.strategy_data[strategy].net_impact + amount)
    &&& fits_i128(pre.total_tokens + amount)
}

/// A registered strategy has books.
proof fn lemma_strategy_has_books(pre: StorageView, strategy: u64)
    requires
        pre.wf(),
        pre.is_strategy(strategy),
    ensures
        pre.strategy_data.contains_key(strategy),
        pre.strategy_data[strategy].borrowed >= 0,
{
    let i = choose|i: int| 0 <= i < pre.strategies.len() && pre.strategies[i] == strategy;
    assert(pre.strategy_data.contains_key(pre.strategies[i]));
}

/// The books of a registered strategy.
fn books(e: &Storage, strategy: u64) -> (data: StrategyData)
    requires
        e@.wf(),
        e@.is_strategy(strategy),
    ensures
        e@.strategy_data.contains_key(strategy),
        data == e@.strategy_data[strategy],
        data.borrowed >= 0,
{
    proof {
        lemma_strategy_has_books(e@, strategy);
    }
    match get_strategy_data(e, strategy) {
        Some(d) => d,
        None => StrategyData { borrowed: 0, net_impact: 0 },
    }
}

/// Whether the debt of `strategy` stays within `i128` when it borrows
/// `amount`, where the borrow is not refused.
pub open spec fn borrow_fits(pre: StorageView, strategy: u64, amount: i128, vault_balance: i128)
    -> bool {
    borrow_error(pre, strategy, amount as int, vault_balance as int) is None ==> fits_i128(
        pre.strategy_data[strategy].borrowed + amount,
    )
}

/// What a borrow does. It fails, and changes nothing, exactly when
/// `borrow_error` names an error, and then with that error. Otherwise the
/// debt of `strategy` grows by `amount`, nothing else changes, and the
/// amount is to be paid out to the strategy.
pub open spec fn borrow_result(
    pre: StorageView,
    post: StorageView,
    strategy: u64,
    amount: i128,
    vault_balance: i128,
    r: Result<Receipt, VaultError>,
) -> bool {
    &&& r is Err <==> borrow_error(pre, strategy, amount as int, vault_balance as int) is Some
    &&& r is Err ==> Some(r->Err_0) == borrow_error(
        pre,
        strategy,
        amount as int,
        vault_balance as int,
    ) && post == pre
    &&& r is Ok ==> {
        &&& post == with_strategy_delta(pre, strategy, amount as int, 0)
        &&& r->Ok_0.reports(
            amount as int,
            seq![
                Effect::TransferTokens {
                    from: Account::Vault,
                    to: Account::Principal(strategy),
                    amount: amount,
                },
            ],
            VaultEvent::Borrow {
                strategy: strategy,
                amount: amount,
                borrowed: post.strategy_data[strategy].borrowed,
            },
        )
    }
}

/// What a repayment does. It fails, and changes nothing, exactly when
/// `repay_error` names an error, and then with that error. Otherwise the
/// debt of `strategy` shrinks by `amount`, nothing else changes, and the
/// amount is to be taken from the strategy.
pub open spec fn repay_result(
    pre: StorageView,
    post: StorageView,
    strategy: u64,
    amount: i128,
    r: Result<Receipt, VaultError>,
) -> bool {
    &&& r is Err <==> repay_error(pre, strategy, amount as int) is Some
    &&& r is Err ==> Some(r->Err_0) == repay_error(pre, strategy, amount as int) && post == pre
    &&& r is Ok ==> {
        &&& post == with_strategy_delta(pre, strategy, -amount, 0)
        &&& r->Ok_0.reports(
            amount as int,
            seq![
                Effect::TransferTokens {
                    from: Account::Principal(strategy),
                    to: Account::Vault,
                    amount: amount,
                },
            ],
            VaultEvent::Repay {
                strategy: strategy,
                amount: amount,
                borrowed: post.strategy_data[strategy].borrowed,
            },
        )
    }
}

/// Whether handing `amount` over to `strategy` stays within `i128`, where
/// it is not refused.
pub open spec fn transfer_to_fits(pre: StorageView, strategy: u64, amount: i128) -> bool {
    strategy_call_error(pre, strategy, amount as int) is None ==> settlement_fits(
        pre,
        strategy,
        -amount,
    )
}

/// Whether taking `amount` in from `strategy` stays within `i128`, where it
/// is not refused.
pub open spec fn transfer_from_fits(pre: StorageView, strategy: u64, amount: i128) -> bool {
    strategy_call_error(pre, strategy, amount as int) is None ==> settlement_fits(
        pre,
        strategy,
        amount as int,
    )
}

/// What a transfer to a strategy does. It fails, and changes nothing,
/// exactly when `strategy_call_error` names an error, and then with that
/// error. Otherwise the net impact of `strategy` and the token total both
/// fall by `amount`, and the amount is to be paid out to the strategy.
pub open spec fn transfer_to_result(
    pre: StorageView,
    post: StorageView,
    strategy: u64,
    amount: i128,
    r: Result<Receipt, VaultError>,
) -> bool {
    &&& r is Err <==> strategy_call_error(pre, strategy, amount as int) is Some
    &&& r is Err ==> Some(r->Err_0) == strategy_call_error(pre, strategy, amount as int) && post
        == pre
    &&& r is Ok ==> {
        &&& post == after_settlement(pre, strategy, -amount)
        &&& post.total_tokens == pre.total_tokens - amount
        &&& r->Ok_0.reports(
            amount as int,
            seq![
                Effect::TransferTokens {
                    from: Account::Vault,
                    to: Account::Principal(strategy),
                    amount: amount,
                },
            ],
            VaultEvent::TransferTo {
                strategy: strategy,
                amount: amount,
                net_impact: post.strategy_data[strategy].net_impact,
            },
        )
    }
}

/// What a transfer from a strategy does. It fails, and changes nothing,
/// exactly when `strategy_call_error` names an error, and then with that
/// error. Otherwise the net impact of `strategy` and the token total both
/// rise by `amount`, and the amount is to be taken from the strategy.
pub open spec fn transfer_from_result(
    pre: StorageView,
    post: StorageView,
    strategy: u64,
    amount: i128,
    r: Result<Receipt, VaultError>,
) -> bool {
    &&& r is Err <==> strategy_call_error(pre, strategy, amount as int) is Some
    &&& r is Err ==> Some(r->Err_0) == strategy_call_error(pre, strategy, amount as int) && post
        == pre
    &&& r is Ok ==> {
        &&& post == after_settlement(pre, strategy, amount as int)
        &&& post.total_tokens == pre.total_tokens + amount
        &&& r->Ok_0.reports(
            amount as int,
            seq![
                Effect::TransferTokens {
                    from: Account::Principal(strategy),
                    to: Account::Vault,
                    amount: amount,
                },
            ],
            VaultEvent::TransferFrom {
                strategy: strategy,
                amount: amount,
                net_impact: post.strategy_data[strategy].net_impact,
            },
        )
    }
}

/// Lends `amount` tokens to `strategy`, as long as the reserve stays on
/// hand. `vault_balance` is what the vault holds of the asset itself.
pub fn borrow(env: &Env, e: &mut Storage, strategy: u64, amount: i128, vault_balance: i128) -> (r:
    Result<Receipt, VaultError>)
    requires
        old(e)@.wf(),
        borrow_fits(old(e)@, strategy, amount, vault_balance),
    ensures
        borrow_result(old(e)@, final(e)@, strategy, amount, vault_balance, r),
        final(e)@.total_tokens == old(e)@.total_tokens,
        final(e)@.total_shares == old(e)@.total_shares,
        final(e)@.wf(),
{
    match require_positive_amount(amount) {
        Err(err) => {
            return Err(err);
        },
        Ok(_) => {},
    }
    match require_authorized_strategy(e, strategy) {
        Err(err) => {
            return Err(err);
        },
        Ok(_) => {},
    }
    proof {
        lemma_min_liquidity_bounds(e@.total_tokens as int, e@.min_liquidity_rate as int);
    }
    match require_sufficient_liquidity(env, e, amount, vault_balance) {
        Err(err) => {
            return Err(err);
        },
        Ok(_) => {},
    }
    let mut strategy_data = books(e, strategy);
    strategy_data.borrowed = strategy_data.borrowed + amount;
    set_strategy_data(e, strategy, &strategy_data);
    Ok(
        Receipt {
            amount,
            effects: one_effect(
                Effect::TransferTokens {
                    from: Account::Vault,
                    to: Account::Principal(strategy),
                    amount,
                },
            ),
            event: VaultEvent::Borrow { strategy, amount, borrowed: strategy_data.borrowed },
        },
    )
}

/// Takes back `amount` of what `strategy` has borrowed.
pub fn repay(e: &mut Storage, strategy: u64, amount: i128) -> (r: Result<Receipt, VaultError>)
    requires
        old(e)@.wf(),
    ensures
        repay_result(old(e)@, final(e)@, strategy, amount, r),
        final(e)@.total_tokens == old(e)@.total_tokens,
        final(e)@.total_shares == old(e)@.total_shares,
        final(e)@.wf(),
{
    match require_positive_amount(amount) {
        Err(err) => {
            return Err(err);
        },
        Ok(_) => {},
    }
    match require_authorized_strategy(e, strategy) {
        Err(err) => {
            return Err(err);
        },
        Ok(_) => {},
    }
    let mut strategy_data = books(e, strategy);
    match require_valid_repayment(amount, strategy_data.borrowed) {
        Err(err) => {
            return Err(err);
        },
        Ok(_) => {},
    }
    strategy_data.borrowed = strategy_data.borrowed - amount;
    set_strategy_data(e, strategy, &strategy_data);
    Ok(
        Receipt {
            amount,
            effects: one_effect(
                Effect::TransferTokens {
                    from: Account::Principal(strategy),
                    to: Account::Vault,
                    amount,
                },
            ),
            event: VaultEvent::Repay { strategy, amount, borrowed: strategy_data.borrowed },
        },
    )
}

/// Hands `amount` tokens over to `strategy` for good: a loss to the vault,
/// taken off the token total.
pub fn transfer_to(e: &mut Storage, strategy: u64, amount: i128) -> (r: Result<
    Receipt,
    VaultError,
>)
    requires
        old(e)@.wf(),
        transfer_to_fits(old(e)@, strategy, amount),
    ensures
        transfer_to_result(old(e)@, final(e)@, strategy, amount, r),
        final(e)@.total_shares == old(e)@.total_shares,
        final(e)@.wf(),
{
    match require_positive_amount(amount) {
        Err(err) => {
            return Err(err);
        },
        Ok(_) => {},
    }
    match require_authorized_strategy(e, strategy) {
        Err(err) => {
            return Err(err);
        },
        Ok(_) => {},
    }
    let mut strategy_data = books(e, strategy);
    strategy_data.net_impact = strategy_data.net_impact - amount;
    set_strategy_data(e, strategy, &strategy_data);
    let total_tokens: i128 = get_total_tokens(e);
    set_total_tokens(e, &(total_tokens - amount));
    Ok(
        Receipt {
            amount,
            effects: one_effect(
                Effect::TransferTokens {
                    from: Account::Vault,
                    to: Account::Principal(strategy),
                    amount,
                },
            ),
            event: VaultEvent::TransferTo {
                strategy,
                amount,
                net_impact: strategy_data.net_impact,
            },
        },
    )
}

/// Takes `amount` tokens in from `strategy` for good: a profit to the vault,
/// added to the token total.
pub fn transfer_from(e: &mut Storage, strategy: u64, amount: i128) -> (r: Result<
    Receipt,
    VaultError,
>)
    requires
        old(e)@.wf(),
        transfer_from_fits(old(e)@, strategy, amount),
    ensures
        transfer_from_result(old(e)@, final(e)@, strategy, amount, r),
        final(e)@.total_shares == old(e)@.total_shares,
        final(e)@.wf(),
{
    match require_positive_amount(amount) {
        Err(err) => {
            return Err(err);
        },
        Ok(_) => {},
    }
    match require_authorized_strategy(e, strategy) {
        Err(err) => {
            return Err(err);
        },
        Ok(_) => {},
    }
    let mut strategy_data = books(e, strategy);
    strategy_data.net_impact = strategy_data.net_impact + amount;
    set_strategy_data(e, strategy, &strategy_data);
    let total_tokens: i128 = get_total_tokens(e);
    set_total_tokens(e, &(total_tokens + amount));
    Ok(
        Receipt {
            amount,
            effects: one_effect(
                Effect::TransferTokens {
                    from: Account::Principal(strategy),
                    to: Account::Vault,
                    amount,
                },
            ),
            event: VaultEvent::TransferFrom {
                strategy,
                amount,
                net_impact: strategy_data.net_impact,
            },
        },
    )
}

} // verus!
