use bsec::{control_from_settings, engine_time, external_time, EngineSettings, Error};
use drogue_bme680::Oversampling;

#[test]
fn millis_become_nanos() {
    assert_eq!(engine_time(0), 0);
    assert_eq!(engine_time(1000), 1_000_000_000);
    assert_eq!(engine_time(u32::MAX), 4_294_967_295_000_000);
}

#[test]
fn time_round_trip_is_exact() {
    for ms in [0u32, 1, 999, 1000, 123_456_789, u32::MAX - 1, u32::MAX] {
        assert_eq!(external_time(engine_time(ms)), ms);
    }
}

#[test]
fn sub_millisecond_parts_are_truncated() {
    assert_eq!(external_time(1_999_999), 1);
    assert_eq!(external_time(999_999), 0);
}

#[test]
fn out_of_range_engine_times_are_held_to_the_clock() {
    assert_eq!(external_time(-5), 0);
    assert_eq!(external_time(i64::MAX), u32::MAX);
}

fn settings() -> EngineSettings {
    EngineSettings {
        next_call: 3_000_500_000,
        process_data: 15,
        heater_temperature: 320,
        heating_duration: 197,
        run_gas: 1,
        pressure_oversampling: 5,
        temperature_oversampling: 3,
        humidity_oversampling: 0,
        trigger_measurement: 1,
    }
}

#[test]
fn settings_become_control() {
    let c = control_from_settings(0, &settings()).unwrap();
    assert_eq!(c.next_call, 3000);
    assert_eq!(c.heater_temperature, 320);
    assert_eq!(c.heating_duration, 197);
    assert!(c.run_gas);
    assert!(c.trigger_measurement);
    assert!(matches!(c.pressure_oversampling, Oversampling::By16));
    assert!(matches!(c.temperature_oversampling, Oversampling::By4));
    assert!(matches!(c.humidity_oversampling, Oversampling::Skip));
}

#[test]
fn zero_flags_are_false() {
    let mut s = settings();
    s.run_gas = 0;
    s.trigger_measurement = 0;
    s.pressure_oversampling = 1;
    let c = control_from_settings(0, &s).unwrap();
    assert!(!c.run_gas);
    assert!(!c.trigger_measurement);
    assert!(matches!(c.pressure_oversampling, Oversampling::By1));
}

#[test]
fn control_query_failure_is_an_error() {
    assert!(matches!(control_from_settings(-12, &settings()), Err(Error(-12))));
}
