//! The credit ledger: mints credits against verified energy production,
//! burns them against verified consumption, and keeps `total_supply` as the
//! single source of truth reconciling all meter-derived issuance.
//!
//! The actual balance movement is the host's token-transfer primitive; the
//! ledger decides whether an operation is admissible, adjusts the supply
//! with checked arithmetic, and hands back the event to emit.

use vstd::prelude::*;

verus! {

/// Why a ledger operation was refused.
#[derive(Clone, Copy, Debug, PartialEq, Eq, Structural)]
pub enum ErrorCode {
    /// The requested amount is zero.
    InvalidAmount,
    /// The meter identifier is empty.
    InvalidMeterId,
    /// Adding the amount would wrap the supply counter.
    Overflow,
    /// Burning the amount would drive the supply negative.
    InsufficientSupply,
}

/// The ledger's singleton record: configuration fixed at genesis plus the
/// running total of all credits in existence.
#[derive(Clone, Debug)]
pub struct TokenInfo {
    pub authority: u64,
    pub mint: u64,
    pub decimals: u8,
    pub name: String,
    pub symbol: String,
    pub total_supply: u64,
}

/// Emitted once per successful mint.
#[derive(Clone, Debug)]
pub struct EnergyProductionEvent {
    pub user: u64,
    pub meter_id: String,
    pub energy_produced: u64,
    pub credits_minted: u64,
    pub timestamp: i64,
}

/// Emitted once per successful burn.
#[derive(Clone, Debug)]
pub struct EnergyConsumptionEvent {
    pub user: u64,
    pub meter_id: String,
    pub energy_consumed: u64,
    pub credits_burned: u64,
    pub timestamp: i64,
}

/// Emitted once per successful transfer.
#[derive(Clone, Copy, Debug, PartialEq, Eq, Structural)]
pub struct CreditTransferEvent {
    pub from: u64,
    pub to: u64,
    pub amount: u64,
    pub timestamp: i64,
}

/// One successful supply-changing operation, as it appears in a history of
/// the ledger.
#[derive(Clone, Copy, Debug, PartialEq, Eq, Structural)]
pub enum LedgerOp {
    Mint(u64),
    Burn(u64),
}

/// Which error, if any, a mint of `amount` against `meter_id` is refused
/// with when the supply stands at `supply`. `None` means the mint is owed
/// success.
pub open spec fn mint_check(supply: u64, amount: u64, meter_id: Seq<char>) -> Option<ErrorCode> {
    if amount == 0 {
        Some(ErrorCode::InvalidAmount)
    } else if meter_id.len() == 0 {
        Some(ErrorCode::InvalidMeterId)
    } else if supply + amount > u64::MAX {
        Some(ErrorCode::Overflow)
    } else {
        None
    }
}

/// Which error, if any, a burn of `amount` against `meter_id` is refused
/// with when the supply stands at `supply`.
pub open spec fn burn_check(supply: u64, amount: u64, meter_id: Seq<char>) -> Option<ErrorCode> {
    if amount == 0 {
        Some(ErrorCode::InvalidAmount)
    } else if meter_id.len() == 0 {
        Some(ErrorCode::InvalidMeterId)
    } else if amount > supply {
        Some(ErrorCode::InsufficientSupply)
    } else {
        None
    }
}

/// How one successful operation moves the supply: a mint adds its amount, a
/// burn subtracts it, and both stay within the counter's range.
pub open spec fn supply_step(before: u64, op: LedgerOp, after: u64) -> bool {
    match op {
        LedgerOp::Mint(amount) => amount > 0 && after == before + amount,
        LedgerOp::Burn(amount) => amount > 0 && amount <= before && after == before - amount,
    }
}

/// The sum of all minted amounts in a history.
pub open spec fn minted_sum(ops: Seq<LedgerOp>) -> int
    decreases ops.len(),
{
    if ops.len() == 0 {
        0
    } else {
        minted_sum(ops.drop_last()) + match ops.last() {
            LedgerOp::Mint(amount) => amount as int,
            LedgerOp::Burn(_) => 0,
        }
    }
}

/// The sum of all burned amounts in a history.
pub open spec fn burned_sum(ops: Seq<LedgerOp>) -> int
    decreases ops.len(),
{
    if ops.len() == 0 {
        0
    } else {
        burned_sum(ops.drop_last()) + match ops.last() {
            LedgerOp::Mint(_) => 0,
            LedgerOp::Burn(amount) => amount as int,
        }
    }
}

/// Supply accounting: over any sequence of successful mint and burn
/// operations starting from genesis, the total supply equals the sum of
/// minted amounts minus the sum of burned amounts. Since the supply is an
/// unsigned counter, the burned sum can never exceed the minted sum: a burn
/// beyond the outstanding supply is refused, never applied.
pub proof fn lemma_supply_accounting(ops: Seq<LedgerOp>, supplies: Seq<u64>)
    requires
        supplies.len() == ops.len() + 1,
        supplies[0] == 0,
        forall|i: int| 0 <= i < ops.len() ==> supply_step(supplies[i], ops[i], supplies[i + 1]),
    ensures
        supplies.last() == minted_sum(ops) - burned_sum(ops),
        burned_sum(ops) <= minted_sum(ops),
    decreases ops.len(),
{
    if ops.len() == 0 {
        assert(supplies.last() == supplies[0]);
    } else {
        let front_ops = ops.drop_last();
        let front_supplies = supplies.drop_last();
        assert(forall|i: int|
            0 <= i < front_ops.len() ==> supply_step(
                front_supplies[i],
                front_ops[i],
                front_supplies[i + 1],
            ));
        lemma_supply_accounting(front_ops, front_supplies);
        assert(supply_step(
            supplies[ops.len() - 1],
            ops[ops.len() - 1],
            supplies[ops.len() as int],
        ));
    }
}

/// Creates the ledger record at genesis, with nothing issued yet.
pub fn initialize(authority: u64, mint: u64, decimals: u8, name: String, symbol: String) -> (t:
    TokenInfo)
    ensures
        t.authority == authority,
        t.mint == mint,
        t.decimals == decimals,
        t.name == name,
        t.symbol == symbol,
        t.total_supply == 0,
{
    TokenInfo { authority, mint, decimals, name, symbol, total_supply: 0 }
}

/// Mints `amount` credits for `user` against energy reported by `meter_id`:
/// grows the supply with overflow-checked addition and returns the
/// production event. The host credits the user's balance by the same amount
/// through the token-transfer primitive. On any refusal the ledger is left
/// untouched.
pub fn mint_credits(
    token_info: &mut TokenInfo,
    user: u64,
    amount: u64,
    energy_produced: u64,
    meter_id: String,
    now: i64,
) -> (r: Result<EnergyProductionEvent, ErrorCode>)
    ensures
        match r {
            Ok(ev) => {
                &&& mint_check(old(token_info).total_supply, amount, meter_id@) is None
                &&& supply_step(
                    old(token_info).total_supply,
                    LedgerOp::Mint(amount),
                    final(token_info).total_supply,
                )
                &&& final(token_info).total_supply == old(token_info).total_supply + amount
                &&& final(token_info).authority == old(token_info).authority
                &&& final(token_info).mint == old(token_info).mint
                &&& final(token_info).decimals == old(token_info).decimals
                &&& final(token_info).name == old(token_info).name
                &&& final(token_info).symbol == old(token_info).symbol
                &&& ev.user == user
                &&& ev.meter_id == meter_id
                &&& ev.energy_produced == energy_produced
                &&& ev.credits_minted == amount
                &&& ev.timestamp == now
            },
            Err(e) => {
                &&& mint_check(old(token_info).total_supply, amount, meter_id@) == Some(e)
                &&& *final(token_info) == *old(token_info)
            },
        },
{
    if amount == 0 {
        return Err(ErrorCode::InvalidAmount);
    }
    if meter_id.as_str().is_empty() {
        return Err(ErrorCode::InvalidMeterId);
    }
    match token_info.total_supply.checked_add(amount) {
        Some(new_supply) => {
            token_info.total_supply = new_supply;
            Ok(
                EnergyProductionEvent {
                    user,
                    meter_id,
                    energy_produced,
                    credits_minted: amount,
                    timestamp: now,
                },
            )
        },
        None => Err(ErrorCode::Overflow),
    }
}

/// Burns `amount` credits from `user` against consumption reported by
/// `meter_id`: shrinks the supply with underflow-checked subtraction and
/// returns the consumption event. The host debits the user's balance by the
/// same amount. On any refusal the ledger is left untouched.
pub fn burn_credits(
    token_info: &mut TokenInfo,
    user: u64,
    amount: u64,
    energy_consumed: u64,
    meter_id: String,
    now: i64,
) -> (r: Result<EnergyConsumptionEvent, ErrorCode>)
    ensures
        match r {
            Ok(ev) => {
                &&& burn_check(old(token_info).total_supply, amount, meter_id@) is None
                &&& supply_step(
                    old(token_info).total_supply,
                    LedgerOp::Burn(amount),
                    final(token_info).total_supply,
                )
                &&& final(token_info).total_supply == old(token_info).total_supply - amount
                &&& final(token_info).authority == old(token_info).authority
                &&& final(token_info).mint == old(token_info).mint
                &&& final(token_info).decimals == old(token_info).decimals
                &&& final(token_info).name == old(token_info).name
                &&& final(token_info).symbol == old(token_info).symbol
                &&& ev.user == user
                &&& ev.meter_id == meter_id
                &&& ev.energy_consumed == energy_consumed
                &&& ev.credits_burned == amount
                &&& ev.timestamp == now
            },
            Err(e) => {
                &&& burn_check(old(token_info).total_supply, amount, meter_id@) == Some(e)
                &&& *final(token_info) == *old(token_info)
            },
        },
{
    if amount == 0 {
        return Err(ErrorCode::InvalidAmount);
    }
    if meter_id.as_str().is_empty() {
        return Err(ErrorCode::InvalidMeterId);
    }
    match token_info.total_supply.checked_sub(amount) {
        Some(new_supply) => {
            token_info.total_supply = new_supply;
            Ok(
                EnergyConsumptionEvent {
                    user,
                    meter_id,
                    energy_consumed,
                    credits_burned: amount,
                    timestamp: now,
                },
            )
        },
        None => Err(ErrorCode::InsufficientSupply),
    }
}

/// Moves `amount` credits from one holder to another. The ledger state does
/// not change: the movement itself is the host's token-transfer primitive,
/// and this operation only validates the request and returns the transfer
/// event. Fails exactly when the amount is zero.
pub fn transfer_credits(from: u64, to: u64, amount: u64, now: i64) -> (r: Result<
    CreditTransferEvent,
    ErrorCode,
>)
    ensures
        match r {
            Ok(ev) => amount > 0 && (ev == CreditTransferEvent { from, to, amount, timestamp: now }),
            Err(e) => amount == 0 && e == ErrorCode::InvalidAmount,
        },
{
    if amount == 0 {
        return Err(ErrorCode::InvalidAmount);
    }
    Ok(CreditTransferEvent { from, to, amount, timestamp: now })
}

} // verus!
