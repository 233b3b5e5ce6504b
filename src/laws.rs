use vstd::prelude::*;
use crate::program::{accept_result, init_result};
use crate::state::{Accept, ErrorCode, Init, Ledger};

verus! {

/// Settlement is all or nothing: `accept` either leaves the ledger exactly as
/// it was, or moves the price from taker to initializer, moves the whole
/// custody balance to the taker, and removes both custody account and record.
pub proof fn lemma_accept_atomic(l: Ledger, ctx: Accept, token_amount: u64, price: u64)
    requires
        l.wf(),
    ensures
        ({
            let (l2, r) = accept_result(l, ctx, token_amount, price);
            ||| r is Err && l2 == l
            ||| {
                &&& r is Ok
                &&& l.vault == Some(token_amount)
                &&& l2.initializer.lamports == l.initializer.lamports + price
                &&& l2.taker.lamports == l.taker.lamports - price
                &&& l2.taker.tokens == l.taker.tokens + token_amount
                &&& l2.initializer.tokens == l.initializer.tokens
                &&& l2.vault is None
                &&& l2.record is None
            }
        }),
{
}

/// Once an escrow has settled, every later `accept`, whatever accounts and
/// amounts it names, fails for want of a custody account and changes nothing.
pub proof fn lemma_no_double_settlement(
    l: Ledger,
    ctx: Accept,
    token_amount: u64,
    price: u64,
    ctx2: Accept,
    token_amount2: u64,
    price2: u64,
)
    requires
        l.wf(),
        accept_result(l, ctx, token_amount, price).1 is Ok,
    ensures
        ({
            let l2 = accept_result(l, ctx, token_amount, price).0;
            accept_result(l2, ctx2, token_amount2, price2) == (l2, Err::<(), ErrorCode>(
                ErrorCode::AccountNotFound,
            ))
        }),
{
}

/// `accept` succeeds only on an offer equal to the record in both amount and
/// price. Where the accounts given are the ones bound to the record, a price
/// that differs fails with `InvalidPriceSent`, and a right price with an
/// amount that differs fails with `InvalidTokenAmount`, both changing nothing.
pub proof fn lemma_strict_equality(l: Ledger, ctx: Accept, token_amount: u64, price: u64)
    requires
        l.wf(),
        l.record is Some,
    ensures
        ({
            let rec = l.record->0;
            let res = accept_result(l, ctx, token_amount, price);
            &&& res.1 is Ok ==> token_amount == rec.token_amount && price == rec.expected_price
            &&& (ctx.initializer == rec.initializer && ctx.taker == l.taker.key && ctx.vault
                == rec.vault) ==> {
                &&& price != rec.expected_price ==> res == (l, Err::<(), ErrorCode>(
                    ErrorCode::InvalidPriceSent,
                ))
                &&& (price == rec.expected_price && token_amount != rec.token_amount) ==> res == (
                    l,
                    Err::<(), ErrorCode>(ErrorCode::InvalidTokenAmount),
                )
            }
        }),
{
}

/// `init` with a zero amount fails with `InvalidTokenAmount` and creates
/// neither record nor custody account.
pub proof fn lemma_zero_amount_rejected(l: Ledger, ctx: Init, price_expected: u64)
    ensures
        init_result(l, ctx, 0, price_expected) == (l, Err::<(), ErrorCode>(
            ErrorCode::InvalidTokenAmount,
        )),
{
}

/// A successful settlement creates and destroys nothing: the token supply and
/// the currency supply are both kept, and the initializer's currency plus the
/// taker's tokens plus custody grows by exactly the price, the tokens having
/// only moved from custody to the taker.
pub proof fn lemma_accept_conserves(l: Ledger, ctx: Accept, token_amount: u64, price: u64)
    requires
        l.wf(),
        accept_result(l, ctx, token_amount, price).1 is Ok,
    ensures
        ({
            let l2 = accept_result(l, ctx, token_amount, price).0;
            &&& l2.token_supply() == l.token_supply()
            &&& l2.lamport_supply() == l.lamport_supply()
            &&& l2.initializer.lamports + l2.taker.tokens + l2.custody() == l.initializer.lamports
                + l.taker.tokens + l.custody() + price
        }),
{
}

/// Opening an escrow only moves tokens into custody: both supplies are kept.
pub proof fn lemma_init_conserves(l: Ledger, ctx: Init, token_amount: u64, price_expected: u64)
    requires
        l.wf(),
    ensures
        ({
            let l2 = init_result(l, ctx, token_amount, price_expected).0;
            &&& l2.token_supply() == l.token_supply()
            &&& l2.lamport_supply() == l.lamport_supply()
        }),
{
}

/// An escrow that `init` opened is settled by the matching offer: an `accept`
/// that names the record's initializer and custody account, with the locked
/// amount and the expected price, from a taker who can pay and whose balances
/// have room, succeeds.
pub proof fn lemma_open_then_settle(
    l: Ledger,
    ctx: Init,
    taker_ctx: Accept,
    token_amount: u64,
    price: u64,
)
    requires
        l.wf(),
        init_result(l, ctx, token_amount, price).1 is Ok,
        taker_ctx.initializer == ctx.initializer,
        taker_ctx.taker == l.taker.key,
        taker_ctx.vault == ctx.vault,
        price <= l.taker.lamports,
        l.initializer.lamports + price <= u64::MAX,
        l.taker.tokens + token_amount <= u64::MAX,
    ensures
        ({
            let l1 = init_result(l, ctx, token_amount, price).0;
            accept_result(l1, taker_ctx, token_amount, price).1 is Ok
        }),
{
}

} // verus!
