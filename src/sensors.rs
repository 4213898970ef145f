use vstd::prelude::*;

verus! {

/// Number of virtual sensors the engine knows.
pub const NUM_VIRTUAL_SENSORS: usize = 14;

/// Number of physical sensors the engine can ask for at once.
pub const NUM_PHYSICAL_SENSORS: usize = 8;

/// A derived signal that the fusion engine can produce.
#[derive(Clone, Copy, Debug, PartialEq, Eq, Structural)]
pub enum VirtualSensor {
    Iaq,
    StaticIaq,
    Co2Equivalent,
    BreathVocEquivalent,
    RawTemperature,
    RawPressure,
    RawHumidity,
    RawGas,
    StabilizationStatus,
    RunInStatus,
    SensorHeatCompensatedTemperature,
    SensorHeatCompensatedHumidity,
    CompensatedGas,
    GasPercentage,
}

/// A raw channel that the physical sensor driver supplies.
#[derive(Clone, Copy, Debug, PartialEq, Eq, Structural)]
pub enum PhysicalSensor {
    Pressure,
    Humidity,
    Temperature,
    GasResistor,
}

/// Requested update frequency class of a virtual sensor.
#[derive(Clone, Copy, Debug, PartialEq, Eq, Structural)]
pub enum SampleRate {
    Disabled,
    LowPower,
    UltraLowPower,
    OnDemand,
}

impl VirtualSensor {
    /// Position of the sensor in the subscription table.
    pub open spec fn spec_index(self) -> int {
        match self {
            VirtualSensor::Iaq => 0,
            VirtualSensor::StaticIaq => 1,
            VirtualSensor::Co2Equivalent => 2,
            VirtualSensor::BreathVocEquivalent => 3,
            VirtualSensor::RawTemperature => 4,
            VirtualSensor::RawPressure => 5,
            VirtualSensor::RawHumidity => 6,
            VirtualSensor::RawGas => 7,
            VirtualSensor::StabilizationStatus => 8,
            VirtualSensor::RunInStatus => 9,
            VirtualSensor::SensorHeatCompensatedTemperature => 10,
            VirtualSensor::SensorHeatCompensatedHumidity => 11,
            VirtualSensor::CompensatedGas => 12,
            VirtualSensor::GasPercentage => 13,
        }
    }

    /// The engine's numeric identity of the sensor.
    pub open spec fn spec_id(self) -> u8 {
        match self {
            VirtualSensor::Iaq => 1,
            VirtualSensor::StaticIaq => 2,
            VirtualSensor::Co2Equivalent => 3,
            VirtualSensor::BreathVocEquivalent => 4,
            VirtualSensor::RawTemperature => 6,
            VirtualSensor::RawPressure => 7,
            VirtualSensor::RawHumidity => 8,
            VirtualSensor::RawGas => 9,
            VirtualSensor::StabilizationStatus => 12,
            VirtualSensor::RunInStatus => 13,
            VirtualSensor::SensorHeatCompensatedTemperature => 14,
            VirtualSensor::SensorHeatCompensatedHumidity => 15,
            VirtualSensor::CompensatedGas => 18,
            VirtualSensor::GasPercentage => 21,
        }
    }

    /// The sensor at a position of the subscription table.
    pub open spec fn spec_at(i: int) -> VirtualSensor
        recommends
            0 <= i < NUM_VIRTUAL_SENSORS,
    {
        if i == 0 {
            VirtualSensor::Iaq
        } else if i == 1 {
            VirtualSensor::StaticIaq
        } else if i == 2 {
            VirtualSensor::Co2Equivalent
        } else if i == 3 {
            VirtualSensor::BreathVocEquivalent
        } else if i == 4 {
            VirtualSensor::RawTemperature
        } else if i == 5 {
            VirtualSensor::RawPressure
        } else if i == 6 {
            VirtualSensor::RawHumidity
        } else if i == 7 {
            VirtualSensor::RawGas
        } else if i == 8 {
            VirtualSensor::StabilizationStatus
        } else if i == 9 {
            VirtualSensor::RunInStatus
        } else if i == 10 {
            VirtualSensor::SensorHeatCompensatedTemperature
        } else if i == 11 {
            VirtualSensor::SensorHeatCompensatedHumidity
        } else if i == 12 {
            VirtualSensor::CompensatedGas
        } else {
            VirtualSensor::GasPercentage
        }
    }

    /// The sensor that the engine identifies by `id`, if any.
    pub open spec fn spec_from_id(id: u8) -> Option<VirtualSensor> {
        if id == 1 {
            Some(VirtualSensor::Iaq)
        } else if id == 2 {
            Some(VirtualSensor::StaticIaq)
        } else if id == 3 {
            Some(VirtualSensor::Co2Equivalent)
        } else if id == 4 {
            Some(VirtualSensor::BreathVocEquivalent)
        } else if id == 6 {
            Some(VirtualSensor::RawTemperature)
        } else if id == 7 {
            Some(VirtualSensor::RawPressure)
        } else if id == 8 {
            Some(VirtualSensor::RawHumidity)
        } else if id == 9 {
            Some(VirtualSensor::RawGas)
        } else if id == 12 {
            Some(VirtualSensor::StabilizationStatus)
        } else if id == 13 {
            Some(VirtualSensor::RunInStatus)
        } else if id == 14 {
            Some(VirtualSensor::SensorHeatCompensatedTemperature)
        } else if id == 15 {
            Some(VirtualSensor::SensorHeatCompensatedHumidity)
        } else if id == 18 {
            Some(VirtualSensor::CompensatedGas)
        } else if id == 21 {
            Some(VirtualSensor::GasPercentage)
        } else {
            None
        }
    }

    /// Whether the engine's accuracy code is kept for this sensor's output.
    pub open spec fn spec_is_tagged(self) -> bool {
        match self {
            VirtualSensor::Iaq
            | VirtualSensor::StaticIaq
            | VirtualSensor::Co2Equivalent
            | VirtualSensor::BreathVocEquivalent
            | VirtualSensor::CompensatedGas
            | VirtualSensor::GasPercentage => true,
            _ => false,
        }
    }

    pub fn index(&self) -> (r: usize)
        ensures
            r == self.spec_index(),
            r < NUM_VIRTUAL_SENSORS,
    {
        match self {
            VirtualSensor::Iaq => 0,
            VirtualSensor::StaticIaq => 1,
            VirtualSensor::Co2Equivalent => 2,
            VirtualSensor::BreathVocEquivalent => 3,
            VirtualSensor::RawTemperature => 4,
            VirtualSensor::RawPressure => 5,
            VirtualSensor::RawHumidity => 6,
            VirtualSensor::RawGas => 7,
            VirtualSensor::StabilizationStatus => 8,
            VirtualSensor::RunInStatus => 9,
            VirtualSensor::SensorHeatCompensatedTemperature => 10,
            VirtualSensor::SensorHeatCompensatedHumidity => 11,
            VirtualSensor::CompensatedGas => 12,
            VirtualSensor::GasPercentage => 13,
        }
    }

    pub fn id(&self) -> (r: u8)
        ensures
            r == self.spec_id(),
    {
        match self {
            VirtualSensor::Iaq => 1,
            VirtualSensor::StaticIaq => 2,
            VirtualSensor::Co2Equivalent => 3,
            VirtualSensor::BreathVocEquivalent => 4,
            VirtualSensor::RawTemperature => 6,
            VirtualSensor::RawPressure => 7,
            VirtualSensor::RawHumidity => 8,
            VirtualSensor::RawGas => 9,
            VirtualSensor::StabilizationStatus => 12,
            VirtualSensor::RunInStatus => 13,
            VirtualSensor::SensorHeatCompensatedTemperature => 14,
            VirtualSensor::SensorHeatCompensatedHumidity => 15,
            VirtualSensor::CompensatedGas => 18,
            VirtualSensor::GasPercentage => 21,
        }
    }

    /// The sensor at position `i` of the subscription table.
    pub fn at(i: usize) -> (r: VirtualSensor)
        requires
            i < NUM_VIRTUAL_SENSORS,
        ensures
            r == Self::spec_at(i as int),
            r.spec_index() == i,
    {
        if i == 0 {
            VirtualSensor::Iaq
        } else if i == 1 {
            VirtualSensor::StaticIaq
        } else if i == 2 {
            VirtualSensor::Co2Equivalent
        } else if i == 3 {
            VirtualSensor::BreathVocEquivalent
        } else if i == 4 {
            VirtualSensor::RawTemperature
        } else if i == 5 {
            VirtualSensor::RawPressure
        } else if i == 6 {
            VirtualSensor::RawHumidity
        } else if i == 7 {
            VirtualSensor::RawGas
        } else if i == 8 {
            VirtualSensor::StabilizationStatus
        } else if i == 9 {
            VirtualSensor::RunInStatus
        } else if i == 10 {
            VirtualSensor::SensorHeatCompensatedTemperature
        } else if i == 11 {
            VirtualSensor::SensorHeatCompensatedHumidity
        } else if i == 12 {
            VirtualSensor::CompensatedGas
        } else {
            VirtualSensor::GasPercentage
        }
    }

    /// Maps the engine's numeric identity back to a sensor; identities
    /// outside the known set give `None`.
    pub fn from_id(id: u8) -> (r: Option<VirtualSensor>)
        ensures
            r == Self::spec_from_id(id),
    {
        match id {
            1 => Some(VirtualSensor::Iaq),
            2 => Some(VirtualSensor::StaticIaq),
            3 => Some(VirtualSensor::Co2Equivalent),
            4 => Some(VirtualSensor::BreathVocEquivalent),
            6 => Some(VirtualSensor::RawTemperature),
            7 => Some(VirtualSensor::RawPressure),
            8 => Some(VirtualSensor::RawHumidity),
            9 => Some(VirtualSensor::RawGas),
            12 => Some(VirtualSensor::StabilizationStatus),
            13 => Some(VirtualSensor::RunInStatus),
            14 => Some(VirtualSensor::SensorHeatCompensatedTemperature),
            15 => Some(VirtualSensor::SensorHeatCompensatedHumidity),
            18 => Some(VirtualSensor::CompensatedGas),
            21 => Some(VirtualSensor::GasPercentage),
            _ => None,
        }
    }
}

/// Identities and table positions agree: every sensor sits at its own
/// position, and its identity maps back to it.
pub proof fn lemma_sensor_identity(s: VirtualSensor)
    ensures
        0 <= s.spec_index() < NUM_VIRTUAL_SENSORS,
        VirtualSensor::spec_at(s.spec_index()) == s,
        VirtualSensor::spec_from_id(s.spec_id()) == Some(s),
{
}

/// A known identity names exactly one sensor.
pub proof fn lemma_from_id_inverse(id: u8)
    ensures
        VirtualSensor::spec_from_id(id) matches Some(s) ==> s.spec_id() == id,
{
}

impl PhysicalSensor {
    /// The engine's numeric identity of the channel.
    pub open spec fn spec_id(self) -> u8 {
        match self {
            PhysicalSensor::Pressure => 1,
            PhysicalSensor::Humidity => 2,
            PhysicalSensor::Temperature => 3,
            PhysicalSensor::GasResistor => 4,
        }
    }

    pub fn id(&self) -> (r: u8)
        ensures
            r == self.spec_id(),
    {
        match self {
            PhysicalSensor::Pressure => 1,
            PhysicalSensor::Humidity => 2,
            PhysicalSensor::Temperature => 3,
            PhysicalSensor::GasResistor => 4,
        }
    }
}

} // verus!
