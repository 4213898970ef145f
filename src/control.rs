use vstd::prelude::*;

use drogue_bme680::Oversampling;

use crate::error::{status_of, Error, BSEC_OK};
use crate::time::{external_time, spec_external_time};

verus! {

#[verifier::external_type_specification]
pub struct ExOversampling(Oversampling);

/// The oversampling level that the sensor's register code selects.
pub open spec fn oversampling_of(code: u8) -> Oversampling {
    if code == 0 {
        Oversampling::Skip
    } else if code == 1 {
        Oversampling::By1
    } else if code == 2 {
        Oversampling::By2
    } else if code == 3 {
        Oversampling::By4
    } else if code == 4 {
        Oversampling::By8
    } else {
        Oversampling::By16
    }
}

/// Relies on drogue_bme680's `From<u8> for Oversampling`: codes 0 to 4
/// select Skip, By1, By2, By4 and By8, every other code By16.
#[verifier::external_body]
fn oversampling_from_code(code: u8) -> (r: Oversampling)
    ensures
        r == oversampling_of(code),
{
    Oversampling::from(code)
}

/// The engine's settings for the next acquisition cycle, as the engine's
/// control query fills them in; times are in engine units.
#[derive(Clone, Copy, Debug, PartialEq, Eq, Structural)]
pub struct EngineSettings {
    pub next_call: i64,
    pub process_data: u32,
    pub heater_temperature: u16,
    pub heating_duration: u16,
    pub run_gas: u8,
    pub pressure_oversampling: u8,
    pub temperature_oversampling: u8,
    pub humidity_oversampling: u8,
    pub trigger_measurement: u8,
}

/// The engine's prescription for the next acquisition cycle, with times on
/// the caller's millisecond clock.
#[derive(Clone, Copy, Debug)]
pub struct Control {
    pub next_call: u32,
    pub heater_temperature: u16,
    pub heating_duration: u32,
    pub run_gas: bool,
    pub pressure_oversampling: Oversampling,
    pub temperature_oversampling: Oversampling,
    pub humidity_oversampling: Oversampling,
    pub trigger_measurement: bool,
}

/// The control that a settings record becomes.
pub open spec fn spec_control(s: EngineSettings) -> Control {
    Control {
        next_call: spec_external_time(s.next_call),
        heater_temperature: s.heater_temperature,
        heating_duration: s.heating_duration as u32,
        run_gas: s.run_gas != 0,
        pressure_oversampling: oversampling_of(s.pressure_oversampling),
        temperature_oversampling: oversampling_of(s.temperature_oversampling),
        humidity_oversampling: oversampling_of(s.humidity_oversampling),
        trigger_measurement: s.trigger_measurement != 0,
    }
}

/// Takes the engine's answer to a control query: its status code and the
/// settings it filled in. On success the settings become a `Control`, the
/// next-call time converted back to milliseconds; any other code is an
/// error carrying it.
pub fn control_from_settings(code: i32, settings: &EngineSettings) -> (r: Result<Control, Error>)
    ensures
        r is Ok <==> code == BSEC_OK,
        r matches Ok(c) ==> c == spec_control(*settings),
        r matches Err(e) ==> e == Error(code),
{
    match status_of(code) {
        Ok(()) => Ok(
            Control {
                next_call: external_time(settings.next_call),
                heater_temperature: settings.heater_temperature,
                heating_duration: settings.heating_duration as u32,
                run_gas: settings.run_gas != 0,
                pressure_oversampling: oversampling_from_code(settings.pressure_oversampling),
                temperature_oversampling: oversampling_from_code(settings.temperature_oversampling),
                humidity_oversampling: oversampling_from_code(settings.humidity_oversampling),
                trigger_measurement: settings.trigger_measurement != 0,
            },
        ),
        Err(e) => Err(e),
    }
}

} // verus!
