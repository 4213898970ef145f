use bsec::{
    build_inputs, decode_outputs, outputs_from_engine, Accuracy, Error, Inputs, OutputEntry,
    PhysicalSensor, VirtualSensor, CENTI,
};

fn entry(sensor_id: u8, signal: f32, accuracy: u8) -> OutputEntry<f32> {
    OutputEntry { sensor_id, signal, time_stamp: 0, accuracy }
}

#[test]
fn all_inputs_carry_the_converted_timestamp() {
    let inputs = Inputs {
        temperature: Some(2150.0f32),
        humidity: Some(4500.0),
        pressure: Some(101_325.0),
        gas_resistance: Some(50_000.0),
    };
    let list = build_inputs(1000, &inputs);
    assert_eq!(list.len(), 4);
    for i in 0..list.len() {
        assert_eq!(list.get(i).time_stamp, 1_000_000_000);
    }
    let sensors: Vec<PhysicalSensor> = (0..list.len()).map(|i| list.get(i).sensor).collect();
    assert_eq!(
        sensors,
        vec![
            PhysicalSensor::Temperature,
            PhysicalSensor::Humidity,
            PhysicalSensor::Pressure,
            PhysicalSensor::GasResistor
        ]
    );
    assert_eq!(list.get(0).divisor, CENTI);
    assert_eq!(list.get(1).divisor, CENTI);
    assert_eq!(list.get(2).divisor, 1);
    assert_eq!(list.get(3).signal, 50_000.0);
}

#[test]
fn only_temperature_gives_one_entry() {
    let inputs = Inputs { temperature: Some(2150.0f32), humidity: None, pressure: None, gas_resistance: None };
    let list = build_inputs(1000, &inputs);
    assert_eq!(list.len(), 1);
    assert_eq!(list.get(0).sensor, PhysicalSensor::Temperature);
    assert_eq!(list.get(0).signal, 2150.0);
    assert_eq!(list.get(0).sensor.id(), 3);
}

#[test]
fn no_inputs_gives_empty_list() {
    let inputs: Inputs<f32> = Inputs { temperature: None, humidity: None, pressure: None, gas_resistance: None };
    assert_eq!(build_inputs(5, &inputs).len(), 0);
}

#[test]
fn one_entry_per_sensor_decodes_by_accuracy() {
    let ids = [1u8, 2, 3, 4, 6, 7, 8, 9, 12, 13, 14, 15, 18, 21];
    for code in 0u8..4 {
        let list: Vec<OutputEntry<f32>> =
            ids.iter().map(|&id| entry(id, id as f32 * 10.0, code)).collect();
        let o = decode_outputs(&list, list.len());
        let tag = |v: f32| match code {
            1 => Accuracy::Low(v),
            2 => Accuracy::Medium(v),
            3 => Accuracy::High(v),
            _ => Accuracy::Unreliable,
        };
        let tagged = [
            (o.iaq, 10.0),
            (o.static_iaq, 20.0),
            (o.co2_equivalent, 30.0),
            (o.breath_voc_equivalent, 40.0),
            (o.compensated_gas, 180.0),
            (o.gas_percentage, 210.0),
        ];
        for (field, v) in tagged {
            let got = field.unwrap();
            assert_eq!(got.value().copied(), tag(v).value().copied());
            assert_eq!(std::mem::discriminant(&got), std::mem::discriminant(&tag(v)));
        }
        assert_eq!(o.raw_temperature, Some(60.0));
        assert_eq!(o.raw_pressure, Some(70.0));
        assert_eq!(o.raw_humidity, Some(80.0));
        assert_eq!(o.raw_gas_resistance, Some(90.0));
        assert_eq!(o.stabilization_status, Some(120.0));
        assert_eq!(o.run_in_status, Some(130.0));
        assert_eq!(o.sensor_heat_compensated_temperature, Some(140.0));
        assert_eq!(o.sensor_heat_compensated_humidity, Some(150.0));
    }
}

fn populated(o: &bsec::Outputs<f32>) -> usize {
    let tagged = [o.iaq, o.static_iaq, o.co2_equivalent, o.breath_voc_equivalent, o.compensated_gas, o.gas_percentage];
    let plain = [
        o.raw_temperature,
        o.raw_pressure,
        o.raw_humidity,
        o.raw_gas_resistance,
        o.stabilization_status,
        o.run_in_status,
        o.sensor_heat_compensated_temperature,
        o.sensor_heat_compensated_humidity,
    ];
    tagged.iter().filter(|f| f.is_some()).count() + plain.iter().filter(|f| f.is_some()).count()
}

#[test]
fn unknown_identity_is_dropped() {
    let list = vec![entry(1, 25.0, 3), entry(5, 1.0, 3), entry(6, 21.5, 0), entry(18, 3.0, 2)];
    let o = decode_outputs(&list, list.len());
    assert_eq!(populated(&o), 3);
    assert!(matches!(o.iaq, Some(Accuracy::High(v)) if v == 25.0));
    assert_eq!(o.raw_temperature, Some(21.5));
    assert!(matches!(o.compensated_gas, Some(Accuracy::Medium(v)) if v == 3.0));
}

#[test]
fn nothing_past_count_is_read() {
    let list = vec![entry(1, 25.0, 1), entry(2, 30.0, 1)];
    let o = decode_outputs(&list, 1);
    assert!(o.iaq.is_some());
    assert!(o.static_iaq.is_none());
    assert_eq!(populated(&decode_outputs(&list, 0)), 0);
}

#[test]
fn later_entry_wins() {
    let list = vec![entry(8, 40.0, 0), entry(8, 41.0, 0)];
    assert_eq!(decode_outputs(&list, 2).raw_humidity, Some(41.0));
}

#[test]
fn unknown_accuracy_code_is_unreliable() {
    let list = vec![entry(2, 50.0, 7)];
    let o = decode_outputs(&list, 1);
    assert!(matches!(o.static_iaq, Some(Accuracy::Unreliable)));
}

#[test]
fn step_failure_is_an_error_and_warnings_pass() {
    let list = vec![entry(1, 25.0, 1)];
    assert!(matches!(outputs_from_engine(-3, &list, 1), Err(Error(-3))));
    let o = outputs_from_engine(10, &list, 1).unwrap();
    assert!(matches!(o.iaq, Some(Accuracy::Low(v)) if v == 25.0));
    assert!(outputs_from_engine(0, &list, 1).unwrap().iaq.is_some());
}

#[test]
fn accuracy_value_and_defaults() {
    assert_eq!(Accuracy::Medium(3.5f32).value(), Some(&3.5));
    assert_eq!(Accuracy::<f32>::Unreliable.value(), None);
    assert!(matches!(Accuracy::<f32>::default(), Accuracy::Unreliable));
    assert!(matches!(Accuracy::from_option(Some(Accuracy::High(2u8))), Accuracy::High(2)));
    assert!(matches!(Accuracy::<u8>::from_option(None), Accuracy::Unreliable));
    assert!(matches!(Accuracy::from_code(1, 4u8), Accuracy::Low(4)));
}

#[test]
fn sensor_identities_map_back() {
    for id in 0u8..=255 {
        if let Some(s) = VirtualSensor::from_id(id) {
            assert_eq!(s.id(), id);
            assert_eq!(VirtualSensor::at(s.index()), s);
        }
    }
    assert_eq!(VirtualSensor::from_id(5), None);
    assert_eq!(VirtualSensor::from_id(22), None);
}
