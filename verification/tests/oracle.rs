use energy_core::oracle::get_latest_reading;
use energy_core::oracle::initialize_oracle;
use energy_core::oracle::register_meter;
use energy_core::oracle::submit_reading;
use energy_core::oracle::update_meter_authorization;
use energy_core::oracle::update_oracle_settings;
use energy_core::oracle::EnergyMeter;
use energy_core::oracle::ErrorCode;
use energy_core::oracle::MeterType;
use energy_core::oracle::Oracle;
use energy_core::oracle::ReadingType;

const AUTHORITY: u64 = 2;
const OWNER: u64 = 4;

fn registered_meter(oracle: &mut Oracle, now: i64) -> EnergyMeter {
    let (meter, _) = register_meter(
        oracle,
        "meter-1".to_string(),
        MeterType::Solar,
        "rooftop".to_string(),
        OWNER,
        now,
    )
    .unwrap();
    meter
}

#[test]
fn initialize_oracle_starts_empty_and_active() {
    let o = initialize_oracle(AUTHORITY);
    assert_eq!(o.authority, AUTHORITY);
    assert_eq!(o.total_meters, 0);
    assert_eq!(o.total_readings, 0);
    assert!(o.is_active);
}

#[test]
fn register_meter_fills_in_the_record_and_counts_it() {
    let mut o = initialize_oracle(AUTHORITY);
    let (meter, ev) = register_meter(
        &mut o,
        "meter-1".to_string(),
        MeterType::Wind,
        "hilltop".to_string(),
        OWNER,
        123,
    )
    .unwrap();
    assert_eq!(meter.meter_id, "meter-1");
    assert_eq!(meter.meter_type, MeterType::Wind);
    assert_eq!(meter.location, "hilltop");
    assert_eq!(meter.owner, OWNER);
    assert!(meter.is_authorized);
    assert_eq!(meter.registered_at, 123);
    assert_eq!(meter.last_reading_at, 0);
    assert_eq!(meter.total_readings, 0);
    assert_eq!(o.total_meters, 1);
    assert_eq!(ev.meter_id, "meter-1");
    assert_eq!(ev.location, "hilltop");
    assert_eq!(ev.timestamp, 123);
}

#[test]
fn register_meter_rejects_empty_strings() {
    let mut o = initialize_oracle(AUTHORITY);
    let r = register_meter(
        &mut o,
        String::new(),
        MeterType::Solar,
        "rooftop".to_string(),
        OWNER,
        0,
    );
    assert_eq!(r.unwrap_err(), ErrorCode::InvalidMeterId);
    let r = register_meter(
        &mut o,
        "meter-1".to_string(),
        MeterType::Solar,
        String::new(),
        OWNER,
        0,
    );
    assert_eq!(r.unwrap_err(), ErrorCode::InvalidLocation);
    assert_eq!(o.total_meters, 0);
}

#[test]
fn submit_reading_stores_a_verified_record() {
    let mut o = initialize_oracle(AUTHORITY);
    let mut meter = registered_meter(&mut o, 0);
    let (reading, ev) = submit_reading(
        &mut o,
        &mut meter,
        "meter-1".to_string(),
        42,
        ReadingType::Production,
        vec![9, 9, 9],
        1_000,
    )
    .unwrap();
    assert_eq!(reading.meter_id, "meter-1");
    assert_eq!(reading.reading_value, 42);
    assert_eq!(reading.reading_type, ReadingType::Production);
    assert_eq!(reading.timestamp, 1_000);
    assert_eq!(reading.signature, vec![9, 9, 9]);
    assert!(reading.is_verified);
    assert_eq!(meter.last_reading_at, 1_000);
    assert_eq!(meter.total_readings, 1);
    assert_eq!(o.total_readings, 1);
    assert_eq!(ev.meter_id, "meter-1");
    assert_eq!(ev.reading_value, 42);
    assert!(ev.verified);
}

#[test]
fn submit_reading_rejects_bad_inputs() {
    let mut o = initialize_oracle(AUTHORITY);
    let mut meter = registered_meter(&mut o, 0);
    let r = submit_reading(
        &mut o,
        &mut meter,
        String::new(),
        42,
        ReadingType::Production,
        vec![9],
        1_000,
    );
    assert_eq!(r.unwrap_err(), ErrorCode::InvalidMeterId);
    let r = submit_reading(
        &mut o,
        &mut meter,
        "meter-1".to_string(),
        0,
        ReadingType::Production,
        vec![9],
        1_000,
    );
    assert_eq!(r.unwrap_err(), ErrorCode::InvalidReading);
    let r = submit_reading(
        &mut o,
        &mut meter,
        "meter-1".to_string(),
        42,
        ReadingType::Production,
        Vec::new(),
        1_000,
    );
    assert_eq!(r.unwrap_err(), ErrorCode::InvalidSignature);
    let r = submit_reading(
        &mut o,
        &mut meter,
        "meter-2".to_string(),
        42,
        ReadingType::Production,
        vec![9],
        1_000,
    );
    assert_eq!(r.unwrap_err(), ErrorCode::MeterIdMismatch);
    assert_eq!(meter.total_readings, 0);
    assert_eq!(o.total_readings, 0);
}

#[test]
fn readings_inside_the_throttle_window_are_refused() {
    let mut o = initialize_oracle(AUTHORITY);
    let mut meter = registered_meter(&mut o, 0);
    let base: i64 = 1_000;
    submit_reading(
        &mut o,
        &mut meter,
        "meter-1".to_string(),
        42,
        ReadingType::Production,
        vec![9],
        base,
    )
    .unwrap();

    let r = submit_reading(
        &mut o,
        &mut meter,
        "meter-1".to_string(),
        43,
        ReadingType::Production,
        vec![9],
        base + 299,
    );
    assert_eq!(r.unwrap_err(), ErrorCode::ReadingTooFrequent);

    let r = submit_reading(
        &mut o,
        &mut meter,
        "meter-1".to_string(),
        43,
        ReadingType::Production,
        vec![9],
        base + 300,
    );
    assert_eq!(r.unwrap_err(), ErrorCode::ReadingTooFrequent);
    assert_eq!(meter.last_reading_at, base);

    let (reading, _) = submit_reading(
        &mut o,
        &mut meter,
        "meter-1".to_string(),
        43,
        ReadingType::Production,
        vec![9],
        base + 301,
    )
    .unwrap();
    assert_eq!(reading.timestamp, base + 301);
    assert_eq!(meter.last_reading_at, base + 301);
    assert_eq!(meter.total_readings, 2);
}

#[test]
fn fresh_meter_waits_out_the_window_from_zero() {
    let mut o = initialize_oracle(AUTHORITY);
    let mut meter = registered_meter(&mut o, 0);
    let r = submit_reading(
        &mut o,
        &mut meter,
        "meter-1".to_string(),
        42,
        ReadingType::Production,
        vec![9],
        300,
    );
    assert_eq!(r.unwrap_err(), ErrorCode::ReadingTooFrequent);
    let r = submit_reading(
        &mut o,
        &mut meter,
        "meter-1".to_string(),
        42,
        ReadingType::Production,
        vec![9],
        301,
    );
    assert!(r.is_ok());
}

#[test]
fn deauthorized_meter_keeps_old_readings_but_submits_no_new_ones() {
    let mut o = initialize_oracle(AUTHORITY);
    let mut meter = registered_meter(&mut o, 0);
    let (reading, _) = submit_reading(
        &mut o,
        &mut meter,
        "meter-1".to_string(),
        42,
        ReadingType::Consumption,
        vec![9],
        1_000,
    )
    .unwrap();

    let ev = update_meter_authorization(&o, &mut meter, AUTHORITY, false, 2_000).unwrap();
    assert!(!meter.is_authorized);
    assert_eq!(ev.meter_id, "meter-1");
    assert!(!ev.is_authorized);
    assert_eq!(ev.timestamp, 2_000);

    assert!(reading.is_verified);
    assert_eq!(reading.reading_value, 42);

    let r = submit_reading(
        &mut o,
        &mut meter,
        "meter-1".to_string(),
        43,
        ReadingType::Consumption,
        vec![9],
        2_000,
    );
    assert_eq!(r.unwrap_err(), ErrorCode::MeterNotAuthorized);
    assert_eq!(meter.total_readings, 1);

    update_meter_authorization(&o, &mut meter, AUTHORITY, true, 3_000).unwrap();
    let r = submit_reading(
        &mut o,
        &mut meter,
        "meter-1".to_string(),
        43,
        ReadingType::Consumption,
        vec![9],
        3_000,
    );
    assert!(r.is_ok());
}

#[test]
fn meter_authorization_restricted_to_oracle_authority() {
    let o = initialize_oracle(AUTHORITY);
    let mut o2 = o;
    let mut meter = registered_meter(&mut o2, 0);
    let r = update_meter_authorization(&o, &mut meter, OWNER, false, 2_000);
    assert_eq!(r.unwrap_err(), ErrorCode::Unauthorized);
    assert!(meter.is_authorized);
}

#[test]
fn latest_reading_hands_back_the_stored_fields() {
    let mut o = initialize_oracle(AUTHORITY);
    let mut meter = registered_meter(&mut o, 0);
    let (reading, _) = submit_reading(
        &mut o,
        &mut meter,
        "meter-1".to_string(),
        42,
        ReadingType::Production,
        vec![9],
        1_000,
    )
    .unwrap();
    let data = get_latest_reading(&reading);
    assert_eq!(data.meter_id, "meter-1");
    assert_eq!(data.reading_value, 42);
    assert_eq!(data.reading_type, ReadingType::Production);
    assert_eq!(data.timestamp, 1_000);
    assert!(data.is_verified);
}

#[test]
fn oracle_settings_restricted_to_authority() {
    let mut o = initialize_oracle(AUTHORITY);
    let r = update_oracle_settings(&mut o, OWNER, false);
    assert_eq!(r.unwrap_err(), ErrorCode::Unauthorized);
    assert!(o.is_active);
    update_oracle_settings(&mut o, AUTHORITY, false).unwrap();
    assert!(!o.is_active);
}
