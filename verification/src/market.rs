//! The marketplace: standing sell offers for a fixed energy quantity at a
//! fixed unit price, with partial fills, seller cancellation and lazy
//! expiry. Each trade targets exactly one offer; payment moves through the
//! host's token-transfer primitive, and each mutating operation returns the
//! event to emit.

use vstd::prelude::*;

verus! {

/// Why a marketplace operation was refused.
#[derive(Clone, Copy, Debug, PartialEq, Eq, Structural)]
pub enum ErrorCode {
    /// The requested energy amount is zero.
    InvalidAmount,
    /// The unit price is zero.
    InvalidPrice,
    /// The offer duration is zero or past the one-week maximum.
    InvalidDuration,
    /// The offer is no longer in the `Active` state.
    OfferNotActive,
    /// The current time is at or past the offer's expiry.
    OfferExpired,
    /// The trade asks for more than the offer's unfilled remainder.
    InsufficientEnergy,
    /// The trade's total cost would wrap a 64-bit counter.
    Overflow,
    /// The caller is not the principal the operation is restricted to.
    Unauthorized,
}

/// When an offer's quantity becomes available.
#[derive(Clone, Copy, Debug, PartialEq, Eq, Structural)]
pub enum OfferType {
    Immediate,
    Scheduled,
    Recurring,
}

/// An offer's lifecycle state. `Completed`, `Cancelled` and `Expired` are
/// absorbing; expiry is evaluated lazily at trade time rather than stored.
#[derive(Clone, Copy, Debug, PartialEq, Eq, Structural)]
pub enum OfferStatus {
    Active,
    Completed,
    Cancelled,
    Expired,
}

/// The marketplace's singleton record: its authority and running counters.
/// `is_active` is an advisory trading-halt flag consulted by callers at the
/// call boundary; offer creation and trading are not gated on it here.
#[derive(Clone, Copy, Debug, PartialEq, Eq, Structural)]
pub struct Market {
    pub authority: u64,
    pub total_offers: u64,
    pub total_volume_traded: u64,
    pub is_active: bool,
}

/// A standing sell order. Retained as a historical record after it leaves
/// the `Active` state; never destroyed.
#[derive(Clone, Copy, Debug, PartialEq, Eq, Structural)]
pub struct EnergyOffer {
    pub seller: u64,
    pub energy_amount: u64,
    pub price_per_kwh: u64,
    pub offer_type: OfferType,
    pub status: OfferStatus,
    pub created_at: i64,
    pub expires_at: i64,
    pub filled_amount: u64,
}

/// Emitted once per successful offer creation.
#[derive(Clone, Copy, Debug, PartialEq, Eq, Structural)]
pub struct OfferCreatedEvent {
    pub offer_id: u64,
    pub seller: u64,
    pub energy_amount: u64,
    pub price_per_kwh: u64,
    pub offer_type: OfferType,
    pub expires_at: i64,
}

/// Emitted once per successful trade.
#[derive(Clone, Copy, Debug, PartialEq, Eq, Structural)]
pub struct TradeExecutedEvent {
    pub offer_id: u64,
    pub buyer: u64,
    pub seller: u64,
    pub energy_amount: u64,
    pub total_cost: u64,
    pub timestamp: i64,
}

/// Emitted once per successful cancellation.
#[derive(Clone, Copy, Debug, PartialEq, Eq, Structural)]
pub struct OfferCancelledEvent {
    pub offer_id: u64,
    pub seller: u64,
    pub timestamp: i64,
}

/// The longest offer duration accepted: one week.
pub const MAX_DURATION_HOURS: u32 = 168;

/// One hour, in the seconds of the host clock.
pub const SECONDS_PER_HOUR: i64 = 3600;

/// The longest offer duration in seconds.
pub const MAX_DURATION_SECONDS: i64 = 604800;

impl EnergyOffer {
    /// Well-formedness: the fill never exceeds the offered quantity, and
    /// the offer does not expire before it was created.
    pub open spec fn wf(self) -> bool {
        &&& self.filled_amount <= self.energy_amount
        &&& self.created_at <= self.expires_at
    }
}

/// Which error, if any, an offer creation with the given parameters is
/// refused with. `None` means creation is owed success.
pub open spec fn create_offer_check(
    energy_amount: u64,
    price_per_kwh: u64,
    duration_hours: u32,
) -> Option<ErrorCode> {
    if energy_amount == 0 {
        Some(ErrorCode::InvalidAmount)
    } else if price_per_kwh == 0 {
        Some(ErrorCode::InvalidPrice)
    } else if duration_hours == 0 || duration_hours > MAX_DURATION_HOURS {
        Some(ErrorCode::InvalidDuration)
    } else {
        None
    }
}

/// Which error, if any, a trade for `energy_amount` against `offer` at time
/// `now` is refused with. The checks run in the documented order: amount,
/// status, expiry, remaining quantity, cost arithmetic; so a completed
/// offer is reported `OfferNotActive` before any quantity check, and an
/// expired one `OfferExpired` even with quantity remaining.
pub open spec fn trade_check(offer: EnergyOffer, energy_amount: u64, now: i64) -> Option<
    ErrorCode,
> {
    if energy_amount == 0 {
        Some(ErrorCode::InvalidAmount)
    } else if offer.status != OfferStatus::Active {
        Some(ErrorCode::OfferNotActive)
    } else if now >= offer.expires_at {
        Some(ErrorCode::OfferExpired)
    } else if energy_amount > offer.energy_amount - offer.filled_amount {
        Some(ErrorCode::InsufficientEnergy)
    } else if energy_amount * offer.price_per_kwh > u64::MAX {
        Some(ErrorCode::Overflow)
    } else {
        None
    }
}

/// Which error, if any, a cancellation by `caller` is refused with: only an
/// `Active` offer can be cancelled, and only by its seller.
pub open spec fn cancel_check(offer: EnergyOffer, caller: u64) -> Option<ErrorCode> {
    if offer.status != OfferStatus::Active {
        Some(ErrorCode::OfferNotActive)
    } else if offer.seller != caller {
        Some(ErrorCode::Unauthorized)
    } else {
        None
    }
}

/// An offer whose expiry has passed refuses every trade with
/// `OfferExpired`, however much of its quantity is still unfilled.
pub proof fn lemma_expiry_blocks_trade(offer: EnergyOffer, energy_amount: u64, now: i64)
    requires
        offer.status == OfferStatus::Active,
        now >= offer.expires_at,
        energy_amount > 0,
    ensures
        trade_check(offer, energy_amount, now) == Some(ErrorCode::OfferExpired),
{
}

/// An offer that has left the `Active` state refuses cancellation with
/// `OfferNotActive`, and an active offer refuses cancellation by anyone
/// but its seller with `Unauthorized`.
pub proof fn lemma_cancel_guards(offer: EnergyOffer, caller: u64)
    ensures
        offer.status != OfferStatus::Active ==> cancel_check(offer, caller) == Some(
            ErrorCode::OfferNotActive,
        ),
        offer.status == OfferStatus::Active && offer.seller != caller ==> cancel_check(
            offer,
            caller,
        ) == Some(ErrorCode::Unauthorized),
{
}

/// Creates the marketplace record with zero counters and trading enabled.
pub fn initialize_market(authority: u64) -> (m: Market)
    ensures
        m == (Market { authority, total_offers: 0, total_volume_traded: 0, is_active: true }),
{
    Market { authority, total_offers: 0, total_volume_traded: 0, is_active: true }
}

/// Posts a new sell offer for `seller` and counts it in the market. The
/// offer starts `Active` and unfilled, and expires `duration_hours` after
/// `now`. `offer_id` is the host-assigned address of the new record, used
/// only in the returned event. On any refusal the market is left untouched.
pub fn create_offer(
    market: &mut Market,
    seller: u64,
    offer_id: u64,
    energy_amount: u64,
    price_per_kwh: u64,
    offer_type: OfferType,
    duration_hours: u32,
    now: i64,
) -> (r: Result<(EnergyOffer, OfferCreatedEvent), ErrorCode>)
    requires
        old(market).total_offers < u64::MAX,
        0 <= now <= i64::MAX - MAX_DURATION_SECONDS,
    ensures
        match r {
            Ok(out) => {
                &&& create_offer_check(energy_amount, price_per_kwh, duration_hours) is None
                &&& (out.0 == EnergyOffer {
                    seller,
                    energy_amount,
                    price_per_kwh,
                    offer_type,
                    status: OfferStatus::Active,
                    created_at: now,
                    expires_at: (now + duration_hours * SECONDS_PER_HOUR) as i64,
                    filled_amount: 0,
                })
                &&& out.0.wf()
                &&& (out.1 == OfferCreatedEvent {
                    offer_id,
                    seller,
                    energy_amount,
                    price_per_kwh,
                    offer_type,
                    expires_at: out.0.expires_at,
                })
                &&& *final(market) == (Market {
                    total_offers: (old(market).total_offers + 1) as u64,
                    ..*old(market)
                })
            },
            Err(e) => {
                &&& create_offer_check(energy_amount, price_per_kwh, duration_hours) == Some(e)
                &&& *final(market) == *old(market)
            },
        },
{
    if energy_amount == 0 {
        return Err(ErrorCode::InvalidAmount);
    }
    if price_per_kwh == 0 {
        return Err(ErrorCode::InvalidPrice);
    }
    if duration_hours == 0 || duration_hours > MAX_DURATION_HOURS {
        return Err(ErrorCode::InvalidDuration);
    }
    let expires_at: i64 = now + (duration_hours as i64) * SECONDS_PER_HOUR;
    let offer = EnergyOffer {
        seller,
        energy_amount,
        price_per_kwh,
        offer_type,
        status: OfferStatus::Active,
        created_at: now,
        expires_at,
        filled_amount: 0,
    };
    market.total_offers = market.total_offers + 1;
    let event = OfferCreatedEvent {
        offer_id,
        seller,
        energy_amount,
        price_per_kwh,
        offer_type,
        expires_at,
    };
    Ok((offer, event))
}

/// Buys `energy_amount` from `offer` at its posted price: checks the
/// offer's lifecycle state, its expiry against `now`, and the unfilled
/// remainder; computes the total cost with overflow-checked
/// multiplication; advances the fill, completing the offer when it reaches
/// the offered quantity; and counts the volume in the market. The host
/// moves the total cost from buyer to seller. On any refusal both records
/// are left untouched.
pub fn execute_trade(
    market: &mut Market,
    offer: &mut EnergyOffer,
    offer_id: u64,
    buyer: u64,
    energy_amount: u64,
    now: i64,
) -> (r: Result<TradeExecutedEvent, ErrorCode>)
    requires
        old(offer).wf(),
        old(market).total_volume_traded + energy_amount <= u64::MAX,
    ensures
        match r {
            Ok(ev) => {
                &&& trade_check(*old(offer), energy_amount, now) is None
                &&& final(offer).filled_amount == old(offer).filled_amount + energy_amount
                &&& final(offer).status == (if final(offer).filled_amount
                    == final(offer).energy_amount {
                    OfferStatus::Completed
                } else {
                    OfferStatus::Active
                })
                &&& final(offer).seller == old(offer).seller
                &&& final(offer).energy_amount == old(offer).energy_amount
                &&& final(offer).price_per_kwh == old(offer).price_per_kwh
                &&& final(offer).offer_type == old(offer).offer_type
                &&& final(offer).created_at == old(offer).created_at
                &&& final(offer).expires_at == old(offer).expires_at
                &&& final(offer).wf()
                &&& *final(market) == (Market {
                    total_volume_traded: (old(market).total_volume_traded + energy_amount) as u64,
                    ..*old(market)
                })
                &&& (ev == TradeExecutedEvent {
                    offer_id,
                    buyer,
                    seller: old(offer).seller,
                    energy_amount,
                    total_cost: (energy_amount * old(offer).price_per_kwh) as u64,
                    timestamp: now,
                })
            },
            Err(e) => {
                &&& trade_check(*old(offer), energy_amount, now) == Some(e)
                &&& *final(offer) == *old(offer)
                &&& *final(market) == *old(market)
            },
        },
{
    if energy_amount == 0 {
        return Err(ErrorCode::InvalidAmount);
    }
    if offer.status != OfferStatus::Active {
        return Err(ErrorCode::OfferNotActive);
    }
    if now >= offer.expires_at {
        return Err(ErrorCode::OfferExpired);
    }
    let available_amount: u64 = offer.energy_amount - offer.filled_amount;
    if energy_amount > available_amount {
        return Err(ErrorCode::InsufficientEnergy);
    }
    let total_cost: u64 = match energy_amount.checked_mul(offer.price_per_kwh) {
        Some(cost) => cost,
        None => {
            return Err(ErrorCode::Overflow);
        },
    };
    offer.filled_amount = offer.filled_amount + energy_amount;
    if offer.filled_amount >= offer.energy_amount {
        offer.status = OfferStatus::Completed;
    }
    market.total_volume_traded = market.total_volume_traded + energy_amount;
    Ok(
        TradeExecutedEvent {
            offer_id,
            buyer,
            seller: offer.seller,
            energy_amount,
            total_cost,
            timestamp: now,
        },
    )
}

/// Cancels an active offer at its seller's request: the one transition to
/// `Cancelled`, irreversible and only valid before completion. On any
/// refusal the offer is left untouched.
pub fn cancel_offer(offer: &mut EnergyOffer, offer_id: u64, caller: u64, now: i64) -> (r: Result<
    OfferCancelledEvent,
    ErrorCode,
>)
    ensures
        match r {
            Ok(ev) => {
                &&& cancel_check(*old(offer), caller) is None
                &&& *final(offer) == (EnergyOffer { status: OfferStatus::Cancelled, ..*old(offer) })
                &&& (ev == OfferCancelledEvent {
                    offer_id,
                    seller: old(offer).seller,
                    timestamp: now,
                })
            },
            Err(e) => {
                &&& cancel_check(*old(offer), caller) == Some(e)
                &&& *final(offer) == *old(offer)
            },
        },
{
    if offer.status != OfferStatus::Active {
        return Err(ErrorCode::OfferNotActive);
    }
    if offer.seller != caller {
        return Err(ErrorCode::Unauthorized);
    }
    offer.status = OfferStatus::Cancelled;
    Ok(OfferCancelledEvent { offer_id, seller: offer.seller, timestamp: now })
}

/// Sets the advisory trading-halt flag. Restricted to the market
/// authority; anyone else is refused and the market is left untouched.
pub fn update_market_settings(market: &mut Market, caller: u64, is_active: bool) -> (r: Result<
    (),
    ErrorCode,
>)
    ensures
        match r {
            Ok(()) => {
                &&& caller == old(market).authority
                &&& *final(market) == (Market { is_active, ..*old(market) })
            },
            Err(e) => {
                &&& caller != old(market).authority
                &&& e == ErrorCode::Unauthorized
                &&& *final(market) == *old(market)
            },
        },
{
    if market.authority != caller {
        return Err(ErrorCode::Unauthorized);
    }
    market.is_active = is_active;
    Ok(())
}

} // verus!
