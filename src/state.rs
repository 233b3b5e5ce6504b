use vstd::prelude::*;

verus! {

/// Bytes reserved for a stored escrow record: an eight-byte account tag, the
/// initialized flag, two 32-byte keys, two amounts and the derivation nonce.
pub const ESCROW_SPACE: usize = 8 + 1 + 32 + 32 + 8 + 8 + 1;

/// Why an instruction was refused. Every refusal leaves the ledger unchanged.
#[derive(Clone, Copy, Debug, PartialEq, Eq, Structural)]
pub enum ErrorCode {
    /// The token amount is zero at `init`, or differs from the record at `accept`.
    InvalidTokenAmount,
    /// The offered price differs from the price the record expects.
    InvalidPriceSent,
    /// The custody address given does not match the one bound to the record.
    InvalidProgramAddress,
    /// A signer or the named initializer is not the one the operation needs.
    InvalidAuthority,
    /// The runtime found an account already present at the derived address.
    AccountInUse,
    /// The runtime found no record or custody account to settle.
    AccountNotFound,
    /// The runtime found a balance too small for a transfer.
    InsufficientFunds,
    /// A credited balance would exceed the largest amount a balance holds.
    Overflow,
}

/// The persistent record of one pending escrow.
#[derive(Clone, Copy, Debug, PartialEq, Eq, Structural)]
pub struct Escrow {
    pub is_initialized: bool,
    /// The party that locked the tokens, and the only one paid at settlement.
    pub initializer: u64,
    /// Address of the custody account that holds the locked tokens.
    pub vault: u64,
    /// Exact quantity locked, and required at settlement.
    pub token_amount: u64,
    /// Exact payment required to release the tokens.
    pub expected_price: u64,
    /// Nonce from which the record's signing authority is derived again.
    pub escrow_bump: u8,
}

/// One party's balances: native currency for payments, and the escrowed token.
#[derive(Clone, Copy, Debug, PartialEq, Eq, Structural)]
pub struct Party {
    pub key: u64,
    pub lamports: u64,
    pub tokens: u64,
}

/// The state that the escrow acts on: both parties, the custody account's
/// balance (`None` once closed or before it exists) and the record.
#[derive(Clone, Copy, Debug, PartialEq, Eq, Structural)]
pub struct Ledger {
    pub initializer: Party,
    pub taker: Party,
    pub vault: Option<u64>,
    pub record: Option<Escrow>,
}

/// Accounts presented to `init`: the signing initializer, and the custody
/// address and nonce derived for the new record.
#[derive(Clone, Copy, Debug, PartialEq, Eq, Structural)]
pub struct Init {
    pub initializer: u64,
    pub vault: u64,
    pub escrow_bump: u8,
}

/// Accounts presented to `accept`: the signing taker, the initializer to be
/// paid, and the custody account to be drained.
#[derive(Clone, Copy, Debug, PartialEq, Eq, Structural)]
pub struct Accept {
    pub taker: u64,
    pub initializer: u64,
    pub vault: u64,
}

impl Ledger {
    /// A record exists exactly while its custody account does; the custody
    /// account holds exactly the recorded amount, which is positive.
    pub open spec fn wf(&self) -> bool {
        match self.record {
            Some(rec) => {
                &&& rec.is_initialized
                &&& rec.token_amount > 0
                &&& rec.initializer == self.initializer.key
                &&& self.vault == Some(rec.token_amount)
            },
            None => self.vault is None,
        }
    }

    /// Tokens held in custody; none once the custody account is closed.
    pub open spec fn custody(&self) -> nat {
        match self.vault {
            Some(b) => b as nat,
            None => 0,
        }
    }

    /// All tokens on the ledger: both parties' and those in custody.
    pub open spec fn token_supply(&self) -> int {
        self.initializer.tokens + self.taker.tokens + self.custody()
    }

    /// All native currency on the ledger.
    pub open spec fn lamport_supply(&self) -> int {
        self.initializer.lamports + self.taker.lamports
    }

    /// A ledger with the two parties and no escrow.
    pub fn new(initializer: Party, taker: Party) -> (r: Ledger)
        ensures
            r.wf(),
            r.initializer == initializer,
            r.taker == taker,
            r.vault is None,
            r.record is None,
    {
        Ledger { initializer, taker, vault: None, record: None }
    }

    /// Whether an escrow is open.
    pub fn is_open(&self) -> (r: bool)
        ensures
            r == self.record is Some,
    {
        self.record.is_some()
    }
}

} // verus!
