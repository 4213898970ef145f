use bsec::{Bsec, Error, SampleRate, VirtualSensor, NUM_PHYSICAL_SENSORS, NUM_VIRTUAL_SENSORS};

const ALL: [VirtualSensor; 14] = [
    VirtualSensor::Iaq,
    VirtualSensor::StaticIaq,
    VirtualSensor::Co2Equivalent,
    VirtualSensor::BreathVocEquivalent,
    VirtualSensor::RawTemperature,
    VirtualSensor::RawPressure,
    VirtualSensor::RawHumidity,
    VirtualSensor::RawGas,
    VirtualSensor::StabilizationStatus,
    VirtualSensor::RunInStatus,
    VirtualSensor::SensorHeatCompensatedTemperature,
    VirtualSensor::SensorHeatCompensatedHumidity,
    VirtualSensor::CompensatedGas,
    VirtualSensor::GasPercentage,
];

fn fresh() -> Bsec {
    Bsec::new(0).unwrap().unwrap()
}

#[test]
fn new_starts_disabled_with_no_physical_sensors() {
    let b = fresh();
    for s in ALL {
        assert_eq!(b.rate_of(s), SampleRate::Disabled);
    }
    assert!(b.physical_sensors().is_empty());
}

#[test]
fn new_reports_failed_init() {
    assert!(matches!(Bsec::new(-2), Err(Error(-2))));
    assert!(matches!(Bsec::new(3), Err(Error(3))));
}

#[test]
fn update_keeps_unlisted_sensors() {
    let mut b = fresh();
    b.update_subscription(SampleRate::LowPower, &[VirtualSensor::Iaq, VirtualSensor::RawGas]);
    b.update_subscription(SampleRate::UltraLowPower, &[VirtualSensor::Co2Equivalent]);
    assert_eq!(b.rate_of(VirtualSensor::Iaq), SampleRate::LowPower);
    assert_eq!(b.rate_of(VirtualSensor::RawGas), SampleRate::LowPower);
    assert_eq!(b.rate_of(VirtualSensor::Co2Equivalent), SampleRate::UltraLowPower);
    assert_eq!(b.rate_of(VirtualSensor::StaticIaq), SampleRate::Disabled);
    assert_eq!(b.rate_of(VirtualSensor::GasPercentage), SampleRate::Disabled);
}

#[test]
fn update_is_idempotent() {
    let mut b = fresh();
    b.update_subscription(SampleRate::OnDemand, &[VirtualSensor::RunInStatus]);
    let once = b.subscription_table();
    b.update_subscription(SampleRate::OnDemand, &[VirtualSensor::RunInStatus]);
    assert_eq!(b.subscription_table(), once);
}

#[test]
fn set_replaces_whole_table() {
    let mut b = fresh();
    b.update_subscription(SampleRate::LowPower, &[VirtualSensor::Iaq, VirtualSensor::RawGas]);
    b.set_subscription(SampleRate::UltraLowPower, &[VirtualSensor::StaticIaq]);
    for s in ALL {
        let expected = if s == VirtualSensor::StaticIaq {
            SampleRate::UltraLowPower
        } else {
            SampleRate::Disabled
        };
        assert_eq!(b.rate_of(s), expected);
    }
}

#[test]
fn set_with_empty_list_disables_everything() {
    let mut b = fresh();
    b.update_subscription(SampleRate::LowPower, &ALL);
    b.set_subscription(SampleRate::LowPower, &[]);
    for s in ALL {
        assert_eq!(b.rate_of(s), SampleRate::Disabled);
    }
}

#[test]
fn table_lists_every_sensor_once_in_order() {
    let mut b = fresh();
    b.update_subscription(SampleRate::LowPower, &[VirtualSensor::GasPercentage]);
    let table = b.subscription_table();
    assert_eq!(table.len(), NUM_VIRTUAL_SENSORS);
    let ids: Vec<u8> = table.iter().map(|e| e.sensor.id()).collect();
    assert_eq!(ids, vec![1, 2, 3, 4, 6, 7, 8, 9, 12, 13, 14, 15, 18, 21]);
    assert_eq!(table[13].sample_rate, SampleRate::LowPower);
    assert_eq!(table[0].sample_rate, SampleRate::Disabled);
}

#[test]
fn accepted_sensors_are_the_first_count_entries() {
    let mut b = fresh();
    let buffer = [3u8, 2, 1, 4, 9, 9, 9, 9];
    assert_eq!(b.accept_required_sensors(0, &buffer, 4), Ok(()));
    assert_eq!(b.physical_sensors(), &[3, 2, 1, 4]);
}

#[test]
fn full_capacity_is_accepted() {
    let mut b = fresh();
    let buffer = [1u8, 2, 3, 4, 5, 6, 7, 8];
    assert_eq!(b.accept_required_sensors(0, &buffer, 8), Ok(()));
    assert_eq!(b.physical_sensors().len(), NUM_PHYSICAL_SENSORS);
}

#[test]
fn failed_update_keeps_physical_sensors() {
    let mut b = fresh();
    assert_eq!(b.accept_required_sensors(0, &[3u8, 2], 2), Ok(()));
    assert_eq!(b.accept_required_sensors(-10, &[1u8, 1, 1], 3), Err(Error(-10)));
    assert_eq!(b.physical_sensors(), &[3, 2]);
}

#[test]
fn subscribe_air_quality_at_low_power() {
    let mut b = fresh();
    b.set_subscription(SampleRate::LowPower, &[VirtualSensor::Iaq]);
    assert_eq!(b.rate_of(VirtualSensor::Iaq), SampleRate::LowPower);
    // the engine's answer: temperature, humidity, pressure and gas resistance
    let buffer = [3u8, 2, 1, 4, 0, 0, 0, 0];
    assert_eq!(b.accept_required_sensors(0, &buffer, 4), Ok(()));
    let required = b.physical_sensors();
    assert!(required.len() <= 4);
    assert!(required.iter().all(|id| [1u8, 2, 3, 4].contains(id)));
}
