use vstd::prelude::*;
use crate::state::{Accept, ErrorCode, Escrow, Init, Ledger, Party};

verus! {

/// The first check that `init(amount, _)` fails, if any. A zero amount is
/// refused before anything else is looked at.
pub open spec fn init_error(l: Ledger, ctx: Init, token_amount: u64) -> Option<ErrorCode> {
    if token_amount == 0 {
        Some(ErrorCode::InvalidTokenAmount)
    } else if ctx.initializer != l.initializer.key {
        Some(ErrorCode::InvalidAuthority)
    } else if l.record is Some || l.vault is Some {
        Some(ErrorCode::AccountInUse)
    } else if l.initializer.tokens < token_amount {
        Some(ErrorCode::InsufficientFunds)
    } else {
        None
    }
}

/// The ledger after a successful `init`: the amount has moved from the
/// initializer into a new custody account, and the record is stored.
pub open spec fn opened(l: Ledger, ctx: Init, token_amount: u64, price_expected: u64) -> Ledger {
    Ledger {
        initializer: Party {
            tokens: (l.initializer.tokens - token_amount) as u64,
            ..l.initializer
        },
        vault: Some(token_amount),
        record: Some(
            Escrow {
                is_initialized: true,
                initializer: ctx.initializer,
                vault: ctx.vault,
                token_amount,
                expected_price: price_expected,
                escrow_bump: ctx.escrow_bump,
            },
        ),
        ..l
    }
}

/// What `init` leaves behind and returns.
pub open spec fn init_result(l: Ledger, ctx: Init, token_amount: u64, price_expected: u64) -> (
    Ledger,
    Result<(), ErrorCode>,
) {
    match init_error(l, ctx, token_amount) {
        Some(e) => (l, Err(e)),
        None => (opened(l, ctx, token_amount, price_expected), Ok(())),
    }
}

/// The first check that `accept(amount, price)` fails, if any: the record and
/// custody account must exist, the accounts given must be the ones bound to
/// the record, the offer must equal the record exactly, and the taker must be
/// able to pay without a balance overflowing.
pub open spec fn accept_error(l: Ledger, ctx: Accept, token_amount: u64, price: u64) -> Option<
    ErrorCode,
> {
    match l.record {
        None => Some(ErrorCode::AccountNotFound),
        Some(rec) => {
            if l.vault is None {
                Some(ErrorCode::AccountNotFound)
            } else if ctx.initializer != rec.initializer || ctx.taker != l.taker.key {
                Some(ErrorCode::InvalidAuthority)
            } else if ctx.vault != rec.vault {
                Some(ErrorCode::InvalidProgramAddress)
            } else if price != rec.expected_price {
                Some(ErrorCode::InvalidPriceSent)
            } else if token_amount != rec.token_amount {
                Some(ErrorCode::InvalidTokenAmount)
            } else if l.taker.lamports < price {
                Some(ErrorCode::InsufficientFunds)
            } else if l.initializer.lamports + price > u64::MAX || l.taker.tokens + token_amount
                > u64::MAX {
                Some(ErrorCode::Overflow)
            } else {
                None
            }
        },
    }
}

/// The ledger after a successful settlement: the price has moved from the
/// taker to the initializer, the tokens from custody to the taker, and both
/// the custody account and the record are gone.
pub open spec fn settled(l: Ledger, token_amount: u64, price: u64) -> Ledger {
    Ledger {
        initializer: Party {
            lamports: (l.initializer.lamports + price) as u64,
            ..l.initializer
        },
        taker: Party {
            lamports: (l.taker.lamports - price) as u64,
            tokens: (l.taker.tokens + token_amount) as u64,
            ..l.taker
        },
        vault: None,
        record: None,
    }
}

/// What `accept` leaves behind and returns.
pub open spec fn accept_result(l: Ledger, ctx: Accept, token_amount: u64, price: u64) -> (
    Ledger,
    Result<(), ErrorCode>,
) {
    match accept_error(l, ctx, token_amount, price) {
        Some(e) => (l, Err(e)),
        None => (settled(l, token_amount, price), Ok(())),
    }
}

/// Opens an escrow: stores the record and locks `token_amount` tokens of the
/// initializer in custody, or changes nothing and says why.
pub fn init(ledger: &mut Ledger, ctx: &Init, token_amount: u64, price_expected: u64) -> (r: Result<
    (),
    ErrorCode,
>)
    requires
        old(ledger).wf(),
    ensures
        final(ledger).wf(),
        (*final(ledger), r) == init_result(*old(ledger), *ctx, token_amount, price_expected),
        token_amount == 0 ==> r == Err::<(), ErrorCode>(ErrorCode::InvalidTokenAmount)
            && *final(ledger) == *old(ledger),
{
    if token_amount == 0 {
        return Err(ErrorCode::InvalidTokenAmount);
    }
    if ctx.initializer != ledger.initializer.key {
        return Err(ErrorCode::InvalidAuthority);
    }
    if ledger.record.is_some() || ledger.vault.is_some() {
        return Err(ErrorCode::AccountInUse);
    }
    if ledger.initializer.tokens < token_amount {
        return Err(ErrorCode::InsufficientFunds);
    }
    ledger.initializer.tokens = ledger.initializer.tokens - token_amount;
    ledger.vault = Some(token_amount);
    ledger.record = Some(
        Escrow {
            is_initialized: true,
            initializer: ctx.initializer,
            vault: ctx.vault,
            token_amount,
            expected_price: price_expected,
            escrow_bump: ctx.escrow_bump,
        },
    );
    Ok(())
}

/// Settles the escrow: the taker pays the recorded price to the initializer
/// and receives the locked tokens, and the custody account and the record are
/// closed. On any refusal nothing changes.
pub fn accept(ledger: &mut Ledger, ctx: &Accept, token_amount: u64, price: u64) -> (r: Result<
    (),
    ErrorCode,
>)
    requires
        old(ledger).wf(),
    ensures
        final(ledger).wf(),
        (*final(ledger), r) == accept_result(*old(ledger), *ctx, token_amount, price),
{
    let rec = match ledger.record {
        Some(rec) => rec,
        None => return Err(ErrorCode::AccountNotFound),
    };
    if ledger.vault.is_none() {
        return Err(ErrorCode::AccountNotFound);
    }
    if ctx.initializer != rec.initializer || ctx.taker != ledger.taker.key {
        return Err(ErrorCode::InvalidAuthority);
    }
    if ctx.vault != rec.vault {
        return Err(ErrorCode::InvalidProgramAddress);
    }
    if price != rec.expected_price {
        return Err(ErrorCode::InvalidPriceSent);
    }
    if token_amount != rec.token_amount {
        return Err(ErrorCode::InvalidTokenAmount);
    }
    if ledger.taker.lamports < price {
        return Err(ErrorCode::InsufficientFunds);
    }
    if ledger.initializer.lamports > u64::MAX - price || ledger.taker.tokens > u64::MAX
        - token_amount {
        return Err(ErrorCode::Overflow);
    }
    ledger.taker.lamports = ledger.taker.lamports - price;
    ledger.initializer.lamports = ledger.initializer.lamports + price;
    ledger.taker.tokens = ledger.taker.tokens + token_amount;
    ledger.vault = None;
    ledger.record = None;
    Ok(())
}

} // verus!
