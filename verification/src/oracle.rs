//! The meter oracle: registers metering hardware, admits its readings, and
//! throttles submissions so a single meter cannot flood the ledger. An
//! admitted reading is an immutable record; deauthorizing a meter blocks
//! new submissions without touching what was already stored.

use vstd::prelude::*;

verus! {

/// Why an oracle operation was refused.
#[derive(Clone, Copy, Debug, PartialEq, Eq, Structural)]
pub enum ErrorCode {
    /// The meter identifier is empty.
    InvalidMeterId,
    /// The location string is empty.
    InvalidLocation,
    /// The reading value is zero.
    InvalidReading,
    /// The signature blob is empty.
    InvalidSignature,
    /// The meter's authorization flag is off.
    MeterNotAuthorized,
    /// The submitted identifier does not match the meter record.
    MeterIdMismatch,
    /// The meter last reported within the throttle window.
    ReadingTooFrequent,
    /// The caller is not the oracle authority.
    Unauthorized,
}

/// What kind of hardware a meter is.
#[derive(Clone, Copy, Debug, PartialEq, Eq, Structural)]
pub enum MeterType {
    Solar,
    Wind,
    Battery,
    Grid,
    Consumption,
}

/// Whether a reading reports energy produced or consumed.
#[derive(Clone, Copy, Debug, PartialEq, Eq, Structural)]
pub enum ReadingType {
    Production,
    Consumption,
}

/// The oracle's singleton record: its authority and running counters.
#[derive(Clone, Copy, Debug, PartialEq, Eq, Structural)]
pub struct Oracle {
    pub authority: u64,
    pub total_meters: u64,
    pub total_readings: u64,
    pub is_active: bool,
}

/// A registered metering device. `last_reading_at` is zero until the first
/// admitted reading and never decreases afterwards.
#[derive(Clone, Debug)]
pub struct EnergyMeter {
    pub meter_id: String,
    pub meter_type: MeterType,
    pub location: String,
    pub owner: u64,
    pub is_authorized: bool,
    pub registered_at: i64,
    pub last_reading_at: i64,
    pub total_readings: u64,
}

/// An admitted reading: created exactly once per accepted submission and
/// never mutated afterwards. The signature blob is stored opaquely;
/// `is_verified` records admission, not a cryptographic check.
#[derive(Clone, Debug)]
pub struct MeterReading {
    pub meter_id: String,
    pub reading_value: u64,
    pub reading_type: ReadingType,
    pub timestamp: i64,
    pub signature: Vec<u8>,
    pub is_verified: bool,
}

/// A reading's fields as handed back to a caller, without the signature.
#[derive(Clone, Debug)]
pub struct ReadingData {
    pub meter_id: String,
    pub reading_value: u64,
    pub reading_type: ReadingType,
    pub timestamp: i64,
    pub is_verified: bool,
}

/// Emitted once per successful meter registration.
#[derive(Clone, Debug)]
pub struct MeterRegisteredEvent {
    pub meter_id: String,
    pub meter_type: MeterType,
    pub owner: u64,
    pub location: String,
    pub timestamp: i64,
}

/// Emitted once per admitted reading.
#[derive(Clone, Debug)]
pub struct ReadingSubmittedEvent {
    pub meter_id: String,
    pub reading_value: u64,
    pub reading_type: ReadingType,
    pub timestamp: i64,
    pub verified: bool,
}

/// Emitted once per authorization change.
#[derive(Clone, Debug)]
pub struct MeterAuthUpdatedEvent {
    pub meter_id: String,
    pub is_authorized: bool,
    pub timestamp: i64,
}

/// The throttle window: a meter may report at most once per this many
/// seconds. The system's only defense against reading replay while
/// signature verification is deferred.
pub const READING_INTERVAL_SECONDS: i64 = 300;

impl EnergyMeter {
    /// Well-formedness: a non-empty identifier and non-negative host
    /// timestamps, as registration establishes and admission preserves.
    pub open spec fn wf(self) -> bool {
        &&& self.meter_id@.len() > 0
        &&& 0 <= self.registered_at
        &&& 0 <= self.last_reading_at
    }
}

/// Which error, if any, a meter registration is refused with. `None` means
/// registration is owed success.
pub open spec fn register_check(meter_id: Seq<char>, location: Seq<char>) -> Option<ErrorCode> {
    if meter_id.len() == 0 {
        Some(ErrorCode::InvalidMeterId)
    } else if location.len() == 0 {
        Some(ErrorCode::InvalidLocation)
    } else {
        None
    }
}

/// Which error, if any, a reading submission is refused with, in the order
/// the checks run: identifier, value, signature, authorization, identifier
/// match, throttle. `None` means admission is owed success.
pub open spec fn submit_check(
    meter: EnergyMeter,
    meter_id: Seq<char>,
    reading_value: u64,
    signature: Seq<u8>,
    now: i64,
) -> Option<ErrorCode> {
    if meter_id.len() == 0 {
        Some(ErrorCode::InvalidMeterId)
    } else if reading_value == 0 {
        Some(ErrorCode::InvalidReading)
    } else if signature.len() == 0 {
        Some(ErrorCode::InvalidSignature)
    } else if !meter.is_authorized {
        Some(ErrorCode::MeterNotAuthorized)
    } else if meter.meter_id@ != meter_id {
        Some(ErrorCode::MeterIdMismatch)
    } else if now - meter.last_reading_at <= READING_INTERVAL_SECONDS {
        Some(ErrorCode::ReadingTooFrequent)
    } else {
        None
    }
}

/// The meter record after an admitted reading at time `now`: the admission
/// timestamp is recorded and the reading counter advanced; everything else
/// is untouched.
pub open spec fn meter_after_submit(meter: EnergyMeter, now: i64) -> EnergyMeter {
    EnergyMeter {
        meter_id: meter.meter_id,
        meter_type: meter.meter_type,
        location: meter.location,
        owner: meter.owner,
        is_authorized: meter.is_authorized,
        registered_at: meter.registered_at,
        last_reading_at: now,
        total_readings: (meter.total_readings + 1) as u64,
    }
}

/// The throttle: once a meter's reading is admitted at time `t1`, no
/// submission from that meter is admitted at any time up to `t1` plus the
/// throttle window, whatever its other inputs.
pub proof fn lemma_reading_throttle(
    meter: EnergyMeter,
    t1: i64,
    meter_id: Seq<char>,
    reading_value: u64,
    signature: Seq<u8>,
    t2: i64,
)
    requires
        t2 - t1 <= READING_INTERVAL_SECONDS,
    ensures
        submit_check(meter_after_submit(meter, t1), meter_id, reading_value, signature, t2)
            is Some,
{
}

/// Deauthorization blocks admission: a meter whose flag is off refuses
/// every submission that passes the input checks with `MeterNotAuthorized`,
/// whatever the time.
pub proof fn lemma_deauthorized_meter_rejected(
    meter: EnergyMeter,
    meter_id: Seq<char>,
    reading_value: u64,
    signature: Seq<u8>,
    now: i64,
)
    requires
        !meter.is_authorized,
        meter_id.len() > 0,
        reading_value > 0,
        signature.len() > 0,
    ensures
        submit_check(meter, meter_id, reading_value, signature, now) == Some(
            ErrorCode::MeterNotAuthorized,
        ),
{
}

/// Creates the oracle record with zero counters and admission enabled.
pub fn initialize_oracle(authority: u64) -> (o: Oracle)
    ensures
        o == (Oracle { authority, total_meters: 0, total_readings: 0, is_active: true }),
{
    Oracle { authority, total_meters: 0, total_readings: 0, is_active: true }
}

/// Registers a new meter, authorized from the start and with no reading on
/// record, and counts it in the oracle. On any refusal the oracle is left
/// untouched.
pub fn register_meter(
    oracle: &mut Oracle,
    meter_id: String,
    meter_type: MeterType,
    location: String,
    owner: u64,
    now: i64,
) -> (r: Result<(EnergyMeter, MeterRegisteredEvent), ErrorCode>)
    requires
        old(oracle).total_meters < u64::MAX,
        0 <= now,
    ensures
        match r {
            Ok(out) => {
                &&& register_check(meter_id@, location@) is None
                &&& out.0.meter_id == meter_id
                &&& out.0.meter_type == meter_type
                &&& out.0.location == location
                &&& out.0.owner == owner
                &&& out.0.is_authorized
                &&& out.0.registered_at == now
                &&& out.0.last_reading_at == 0
                &&& out.0.total_readings == 0
                &&& out.0.wf()
                &&& out.1.meter_id == meter_id
                &&& out.1.meter_type == meter_type
                &&& out.1.owner == owner
                &&& out.1.location == location
                &&& out.1.timestamp == now
                &&& *final(oracle) == (Oracle {
                    total_meters: (old(oracle).total_meters + 1) as u64,
                    ..*old(oracle)
                })
            },
            Err(e) => {
                &&& register_check(meter_id@, location@) == Some(e)
                &&& *final(oracle) == *old(oracle)
            },
        },
{
    if meter_id.as_str().is_empty() {
        return Err(ErrorCode::InvalidMeterId);
    }
    if location.as_str().is_empty() {
        return Err(ErrorCode::InvalidLocation);
    }
    let meter = EnergyMeter {
        meter_id: meter_id.clone(),
        meter_type,
        location: location.clone(),
        owner,
        is_authorized: true,
        registered_at: now,
        last_reading_at: 0,
        total_readings: 0,
    };
    oracle.total_meters = oracle.total_meters + 1;
    let event = MeterRegisteredEvent { meter_id, meter_type, owner, location, timestamp: now };
    Ok((meter, event))
}

/// Admits a reading from `meter` at time `now`: validates the inputs,
/// requires the meter to be authorized and named correctly, and enforces
/// the throttle window against the meter's last admission. On success it
/// creates the immutable reading record (marked verified; cryptographic
/// signature checking is deferred to the host), stamps the meter, advances
/// both reading counters, and returns the record with its event. On any
/// refusal both records are left untouched.
pub fn submit_reading(
    oracle: &mut Oracle,
    meter: &mut EnergyMeter,
    meter_id: String,
    reading_value: u64,
    reading_type: ReadingType,
    signature: Vec<u8>,
    now: i64,
) -> (r: Result<(MeterReading, ReadingSubmittedEvent), ErrorCode>)
    requires
        old(meter).wf(),
        old(meter).total_readings < u64::MAX,
        old(oracle).total_readings < u64::MAX,
        0 <= now,
    ensures
        match r {
            Ok(out) => {
                &&& submit_check(*old(meter), meter_id@, reading_value, signature@, now) is None
                &&& out.0.meter_id == meter_id
                &&& out.0.reading_value == reading_value
                &&& out.0.reading_type == reading_type
                &&& out.0.timestamp == now
                &&& out.0.signature == signature
                &&& out.0.is_verified
                &&& out.1.meter_id == meter_id
                &&& out.1.reading_value == reading_value
                &&& out.1.reading_type == reading_type
                &&& out.1.timestamp == now
                &&& out.1.verified
                &&& *final(meter) == meter_after_submit(*old(meter), now)
                &&& final(meter).wf()
                &&& old(meter).last_reading_at < now
                &&& *final(oracle) == (Oracle {
                    total_readings: (old(oracle).total_readings + 1) as u64,
                    ..*old(oracle)
                })
            },
            Err(e) => {
                &&& submit_check(*old(meter), meter_id@, reading_value, signature@, now) == Some(e)
                &&& *final(meter) == *old(meter)
                &&& *final(oracle) == *old(oracle)
            },
        },
{
    if meter_id.as_str().is_empty() {
        return Err(ErrorCode::InvalidMeterId);
    }
    if reading_value == 0 {
        return Err(ErrorCode::InvalidReading);
    }
    if signature.len() == 0 {
        return Err(ErrorCode::InvalidSignature);
    }
    if !meter.is_authorized {
        return Err(ErrorCode::MeterNotAuthorized);
    }
    if !(meter.meter_id == meter_id) {
        return Err(ErrorCode::MeterIdMismatch);
    }
    if now - meter.last_reading_at <= READING_INTERVAL_SECONDS {
        return Err(ErrorCode::ReadingTooFrequent);
    }
    let reading = MeterReading {
        meter_id: meter_id.clone(),
        reading_value,
        reading_type,
        timestamp: now,
        signature,
        is_verified: true,
    };
    meter.last_reading_at = now;
    meter.total_readings = meter.total_readings + 1;
    oracle.total_readings = oracle.total_readings + 1;
    let event = ReadingSubmittedEvent {
        meter_id,
        reading_value,
        reading_type,
        timestamp: now,
        verified: true,
    };
    Ok((reading, event))
}

/// Flips a meter's authorization flag. Restricted to the oracle authority.
/// Nothing else about the meter changes, and readings already on record
/// are not touched: a deauthorized meter keeps its history but cannot
/// submit new readings.
pub fn update_meter_authorization(
    oracle: &Oracle,
    meter: &mut EnergyMeter,
    caller: u64,
    is_authorized: bool,
    now: i64,
) -> (r: Result<MeterAuthUpdatedEvent, ErrorCode>)
    ensures
        match r {
            Ok(ev) => {
                &&& caller == oracle.authority
                &&& final(meter).is_authorized == is_authorized
                &&& final(meter).meter_id == old(meter).meter_id
                &&& final(meter).meter_type == old(meter).meter_type
                &&& final(meter).location == old(meter).location
                &&& final(meter).owner == old(meter).owner
                &&& final(meter).registered_at == old(meter).registered_at
                &&& final(meter).last_reading_at == old(meter).last_reading_at
                &&& final(meter).total_readings == old(meter).total_readings
                &&& ev.meter_id == old(meter).meter_id
                &&& ev.is_authorized == is_authorized
                &&& ev.timestamp == now
            },
            Err(e) => {
                &&& caller != oracle.authority
                &&& e == ErrorCode::Unauthorized
                &&& *final(meter) == *old(meter)
            },
        },
{
    if oracle.authority != caller {
        return Err(ErrorCode::Unauthorized);
    }
    meter.is_authorized = is_authorized;
    let event = MeterAuthUpdatedEvent {
        meter_id: meter.meter_id.clone(),
        is_authorized,
        timestamp: now,
    };
    Ok(event)
}

/// Hands back a stored reading's fields, without the signature blob. The
/// record itself is immutable.
pub fn get_latest_reading(reading: &MeterReading) -> (d: ReadingData)
    ensures
        d.meter_id == reading.meter_id,
        d.reading_value == reading.reading_value,
        d.reading_type == reading.reading_type,
        d.timestamp == reading.timestamp,
        d.is_verified == reading.is_verified,
{
    ReadingData {
        meter_id: reading.meter_id.clone(),
        reading_value: reading.reading_value,
        reading_type: reading.reading_type,
        timestamp: reading.timestamp,
        is_verified: reading.is_verified,
    }
}

/// Sets the oracle's advisory activity flag. Restricted to the oracle
/// authority; anyone else is refused and the oracle is left untouched.
pub fn update_oracle_settings(oracle: &mut Oracle, caller: u64, is_active: bool) -> (r: Result<
    (),
    ErrorCode,
>)
    ensures
        match r {
            Ok(()) => {
                &&& caller == old(oracle).authority
                &&& *final(oracle) == (Oracle { is_active, ..*old(oracle) })
            },
            Err(e) => {
                &&& caller != old(oracle).authority
                &&& e == ErrorCode::Unauthorized
                &&& *final(oracle) == *old(oracle)
            },
        },
{
    if oracle.authority != caller {
        return Err(ErrorCode::Unauthorized);
    }
    oracle.is_active = is_active;
    Ok(())
}

} // verus!
