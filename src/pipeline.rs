use vstd::prelude::*;

use crate::error::Error;
use crate::sensors::{PhysicalSensor, VirtualSensor};
use crate::time::{engine_time, spec_engine_time, NANOS_PER_MILLI};

verus! {

/// Divisor that brings the driver's centi-unit temperature and humidity
/// readings to the engine's units.
pub const CENTI: u16 = 100;

/// The raw readings available this cycle; a channel is `None` when the
/// driver produced no fresh value for it.
#[derive(Clone, Copy, Debug)]
pub struct Inputs<T> {
    pub temperature: Option<T>,
    pub humidity: Option<T>,
    pub pressure: Option<T>,
    pub gas_resistance: Option<T>,
}

/// One entry of the engine's input list. The engine is to receive
/// `signal / divisor`.
#[derive(Clone, Copy, Debug)]
pub struct InputEntry<T> {
    pub sensor: PhysicalSensor,
    pub signal: T,
    pub divisor: u16,
    pub time_stamp: i64,
}

/// One entry of the engine's output list.
#[derive(Clone, Copy, Debug)]
pub struct OutputEntry<T> {
    pub sensor_id: u8,
    pub signal: T,
    pub time_stamp: i64,
    pub accuracy: u8,
}

/// A fused value tagged with the engine's confidence in it.
#[derive(Clone, Copy, Debug)]
pub enum Accuracy<T> {
    Unreliable,
    Low(T),
    Medium(T),
    High(T),
}

/// The decoded outputs of one processing step: one optional field per
/// virtual sensor.
#[derive(Clone, Copy, Debug)]
pub struct Outputs<T> {
    pub iaq: Option<Accuracy<T>>,
    pub static_iaq: Option<Accuracy<T>>,
    pub co2_equivalent: Option<Accuracy<T>>,
    pub breath_voc_equivalent: Option<Accuracy<T>>,
    pub raw_temperature: Option<T>,
    pub raw_pressure: Option<T>,
    pub raw_humidity: Option<T>,
    pub raw_gas_resistance: Option<T>,
    pub stabilization_status: Option<T>,
    pub run_in_status: Option<T>,
    pub sensor_heat_compensated_temperature: Option<T>,
    pub sensor_heat_compensated_humidity: Option<T>,
    pub compensated_gas: Option<Accuracy<T>>,
    pub gas_percentage: Option<Accuracy<T>>,
}

/// The entry for one channel: present only when the reading is.
pub open spec fn channel_entry<T>(
    reading: Option<T>,
    sensor: PhysicalSensor,
    divisor: u16,
    time_stamp: i64,
) -> Seq<InputEntry<T>> {
    match reading {
        Some(signal) => seq![InputEntry { sensor, signal, divisor, time_stamp }],
        None => Seq::empty(),
    }
}

/// The engine's input list for `inputs` at engine time `time_stamp`:
/// temperature, humidity, pressure and gas resistance, each only if present.
pub open spec fn input_entries<T>(time_stamp: i64, inputs: Inputs<T>) -> Seq<InputEntry<T>> {
    channel_entry(inputs.temperature, PhysicalSensor::Temperature, CENTI, time_stamp) + channel_entry(
        inputs.humidity,
        PhysicalSensor::Humidity,
        CENTI,
        time_stamp,
    ) + channel_entry(inputs.pressure, PhysicalSensor::Pressure, 1, time_stamp) + channel_entry(
        inputs.gas_resistance,
        PhysicalSensor::GasResistor,
        1,
        time_stamp,
    )
}

/// Number of channels that hold a reading.
pub open spec fn present_count<T>(inputs: Inputs<T>) -> nat {
    (if inputs.temperature is Some { 1nat } else { 0nat }) + (if inputs.humidity is Some {
        1nat
    } else {
        0nat
    }) + (if inputs.pressure is Some { 1nat } else { 0nat }) + (if inputs.gas_resistance is Some {
        1nat
    } else {
        0nat
    })
}

/// Most entries an input list holds: one per channel of [`Inputs`].
pub const MAX_INPUTS: usize = 4;

/// A fixed-capacity list of input entries for the engine.
pub struct InputList<T> {
    entries: [Option<InputEntry<T>>; MAX_INPUTS],
    len: usize,
}

impl<T> View for InputList<T> {
    type V = Seq<InputEntry<T>>;

    closed spec fn view(&self) -> Seq<InputEntry<T>> {
        Seq::new(self.len as nat, |i: int| self.entries@[i]->0)
    }
}

impl<T> InputList<T> {
    #[verifier::type_invariant]
    spec fn wf(self) -> bool {
        &&& self.len <= MAX_INPUTS
        &&& forall|i: int| 0 <= i < self.len ==> self.entries@[i] is Some
    }
}

impl<T: Copy> InputList<T> {

    fn empty() -> (r: Self)
        ensures
            r@.len() == 0,
    {
        let r = InputList { entries: [None; MAX_INPUTS], len: 0 };
        assert(r@ =~= Seq::<InputEntry<T>>::empty());
        r
    }

    fn push(&mut self, e: InputEntry<T>)
        requires
            old(self)@.len() < MAX_INPUTS,
        ensures
            final(self)@ == old(self)@.push(e),
    {
        proof {
            use_type_invariant(&*self);
        }
        let ghost before = self@;
        self.entries[self.len] = Some(e);
        self.len = self.len + 1;
        assert(self@ =~= before.push(e));
    }

    /// Number of entries in the list.
    pub fn len(&self) -> (r: usize)
        ensures
            r == self@.len(),
            r <= MAX_INPUTS,
    {
        proof {
            use_type_invariant(self);
        }
        self.len
    }

    /// The entry at position `i`.
    pub fn get(&self, i: usize) -> (r: &InputEntry<T>)
        requires
            i < self@.len(),
        ensures
            *r == self@[i as int],
    {
        proof {
            use_type_invariant(self);
        }
        self.entries[i].as_ref().unwrap()
    }
}

fn push_channel<T: Copy>(
    list: &mut InputList<T>,
    reading: Option<T>,
    sensor: PhysicalSensor,
    divisor: u16,
    time_stamp: i64,
)
    requires
        old(list)@.len() < MAX_INPUTS,
    ensures
        final(list)@ == old(list)@ + channel_entry(reading, sensor, divisor, time_stamp),
{
    if let Some(signal) = reading {
        list.push(InputEntry { sensor, signal, divisor, time_stamp });
    }
    assert(final(list)@ =~= old(list)@ + channel_entry(reading, sensor, divisor, time_stamp));
}

/// Builds the engine's input list from the available readings at
/// `timestamp_ms`: one entry per present channel, each stamped with the
/// timestamp converted to engine time. Absent channels are left out.
pub fn build_inputs<T: Copy>(timestamp_ms: u32, inputs: &Inputs<T>) -> (r: InputList<T>)
    ensures
        r@ == input_entries(spec_engine_time(timestamp_ms), *inputs),
        r@.len() == present_count(*inputs),
        forall|i: int|
            0 <= i < r@.len() ==> (#[trigger] r@[i]).time_stamp == timestamp_ms as int
                * NANOS_PER_MILLI,
{
    let time_stamp = engine_time(timestamp_ms);
    let mut list: InputList<T> = InputList::empty();
    push_channel(&mut list, inputs.temperature, PhysicalSensor::Temperature, CENTI, time_stamp);
    push_channel(&mut list, inputs.humidity, PhysicalSensor::Humidity, CENTI, time_stamp);
    push_channel(&mut list, inputs.pressure, PhysicalSensor::Pressure, 1, time_stamp);
    push_channel(&mut list, inputs.gas_resistance, PhysicalSensor::GasResistor, 1, time_stamp);
    assert(list@ =~= input_entries(time_stamp, *inputs));
    list
}

impl<T> Accuracy<T> {
    /// The tagged value for the engine's accuracy code: 1, 2 and 3 are
    /// Low, Medium and High carrying the signal; any other code is
    /// Unreliable.
    pub open spec fn spec_from_code(accuracy: u8, signal: T) -> Accuracy<T> {
        if accuracy == 1 {
            Accuracy::Low(signal)
        } else if accuracy == 2 {
            Accuracy::Medium(signal)
        } else if accuracy == 3 {
            Accuracy::High(signal)
        } else {
            Accuracy::Unreliable
        }
    }

    pub fn from_code(accuracy: u8, signal: T) -> (r: Accuracy<T>)
        ensures
            r == Self::spec_from_code(accuracy, signal),
    {
        match accuracy {
            1 => Accuracy::Low(signal),
            2 => Accuracy::Medium(signal),
            3 => Accuracy::High(signal),
            _ => Accuracy::Unreliable,
        }
    }

    /// The carried value; `None` for Unreliable.
    pub fn value(&self) -> (r: Option<&T>)
        ensures
            self is Unreliable <==> r is None,
            self matches Accuracy::Low(v) ==> r == Some(v),
            self matches Accuracy::Medium(v) ==> r == Some(v),
            self matches Accuracy::High(v) ==> r == Some(v),
    {
        match self {
            Accuracy::Unreliable => None,
            Accuracy::Low(v) | Accuracy::Medium(v) | Accuracy::High(v) => Some(v),
        }
    }

    /// The value held in an optional tag; no tag counts as Unreliable.
    pub fn from_option(v: Option<Accuracy<T>>) -> (r: Accuracy<T>)
        ensures
            v matches Some(a) ==> r == a,
            v is None ==> r is Unreliable,
    {
        match v {
            Some(v) => v,
            None => Accuracy::Unreliable,
        }
    }
}

impl<T: Copy> Accuracy<T> {
    /// The tagged value of an engine output entry.
    pub fn from_output(out: &OutputEntry<T>) -> (r: Accuracy<T>)
        ensures
            r == Self::spec_from_code(out.accuracy, out.signal),
    {
        Self::from_code(out.accuracy, out.signal)
    }
}

impl<T> Default for Accuracy<T> {
    fn default() -> (r: Self)
        ensures
            r is Unreliable,
    {
        Accuracy::Unreliable
    }
}

/// The last entry of `s` that carries identity `id`, if any.
pub open spec fn last_with_id<T>(s: Seq<OutputEntry<T>>, id: u8) -> Option<OutputEntry<T>>
    decreases s.len(),
{
    if s.len() == 0 {
        None
    } else if s.last().sensor_id == id {
        Some(s.last())
    } else {
        last_with_id(s.drop_last(), id)
    }
}

/// An output entry decoded into an accuracy-tagged field.
pub open spec fn tagged<T>(e: Option<OutputEntry<T>>) -> Option<Accuracy<T>> {
    match e {
        Some(e) => Some(Accuracy::spec_from_code(e.accuracy, e.signal)),
        None => None,
    }
}

/// An output entry decoded into a plain field; its accuracy code is ignored.
pub open spec fn plain<T>(e: Option<OutputEntry<T>>) -> Option<T> {
    match e {
        Some(e) => Some(e.signal),
        None => None,
    }
}

/// The outputs that an engine output list decodes to: each field holds the
/// last entry carrying its sensor's identity; entries whose identity is not
/// a known virtual sensor leave no trace.
pub open spec fn decoded<T>(s: Seq<OutputEntry<T>>) -> Outputs<T> {
    Outputs {
        iaq: tagged(last_with_id(s, VirtualSensor::Iaq.spec_id())),
        static_iaq: tagged(last_with_id(s, VirtualSensor::StaticIaq.spec_id())),
        co2_equivalent: tagged(last_with_id(s, VirtualSensor::Co2Equivalent.spec_id())),
        breath_voc_equivalent: tagged(
            last_with_id(s, VirtualSensor::BreathVocEquivalent.spec_id()),
        ),
        raw_temperature: plain(last_with_id(s, VirtualSensor::RawTemperature.spec_id())),
        raw_pressure: plain(last_with_id(s, VirtualSensor::RawPressure.spec_id())),
        raw_humidity: plain(last_with_id(s, VirtualSensor::RawHumidity.spec_id())),
        raw_gas_resistance: plain(last_with_id(s, VirtualSensor::RawGas.spec_id())),
        stabilization_status: plain(last_with_id(s, VirtualSensor::StabilizationStatus.spec_id())),
        run_in_status: plain(last_with_id(s, VirtualSensor::RunInStatus.spec_id())),
        sensor_heat_compensated_temperature: plain(
            last_with_id(s, VirtualSensor::SensorHeatCompensatedTemperature.spec_id()),
        ),
        sensor_heat_compensated_humidity: plain(
            last_with_id(s, VirtualSensor::SensorHeatCompensatedHumidity.spec_id()),
        ),
        compensated_gas: tagged(last_with_id(s, VirtualSensor::CompensatedGas.spec_id())),
        gas_percentage: tagged(last_with_id(s, VirtualSensor::GasPercentage.spec_id())),
    }
}

impl<T> Outputs<T> {
    /// Outputs with every field absent.
    pub open spec fn spec_empty() -> Outputs<T> {
        Outputs {
            iaq: None,
            static_iaq: None,
            co2_equivalent: None,
            breath_voc_equivalent: None,
            raw_temperature: None,
            raw_pressure: None,
            raw_humidity: None,
            raw_gas_resistance: None,
            stabilization_status: None,
            run_in_status: None,
            sensor_heat_compensated_temperature: None,
            sensor_heat_compensated_humidity: None,
            compensated_gas: None,
            gas_percentage: None,
        }
    }

    /// The accuracy-tagged field of a virtual sensor; `None` for a sensor
    /// whose field is plain.
    pub open spec fn tagged_field(self, v: VirtualSensor) -> Option<Accuracy<T>> {
        match v {
            VirtualSensor::Iaq => self.iaq,
            VirtualSensor::StaticIaq => self.static_iaq,
            VirtualSensor::Co2Equivalent => self.co2_equivalent,
            VirtualSensor::BreathVocEquivalent => self.breath_voc_equivalent,
            VirtualSensor::CompensatedGas => self.compensated_gas,
            VirtualSensor::GasPercentage => self.gas_percentage,
            _ => None,
        }
    }

    /// The plain field of a virtual sensor; `None` for a sensor whose
    /// field is accuracy-tagged.
    pub open spec fn plain_field(self, v: VirtualSensor) -> Option<T> {
        match v {
            VirtualSensor::RawTemperature => self.raw_temperature,
            VirtualSensor::RawPressure => self.raw_pressure,
            VirtualSensor::RawHumidity => self.raw_humidity,
            VirtualSensor::RawGas => self.raw_gas_resistance,
            VirtualSensor::StabilizationStatus => self.stabilization_status,
            VirtualSensor::RunInStatus => self.run_in_status,
            VirtualSensor::SensorHeatCompensatedTemperature => self.sensor_heat_compensated_temperature,
            VirtualSensor::SensorHeatCompensatedHumidity => self.sensor_heat_compensated_humidity,
            _ => None,
        }
    }

    /// Whether the field of a virtual sensor holds a value.
    pub open spec fn has(self, v: VirtualSensor) -> bool {
        if v.spec_is_tagged() {
            self.tagged_field(v) is Some
        } else {
            self.plain_field(v) is Some
        }
    }

    /// The virtual sensors whose field holds a value.
    pub open spec fn populated(self) -> Set<VirtualSensor> {
        Set::new(|v: VirtualSensor| self.has(v))
    }
}

impl<T> Default for Outputs<T> {
    fn default() -> (r: Self)
        ensures
            r == Self::spec_empty(),
    {
        Outputs {
            iaq: None,
            static_iaq: None,
            co2_equivalent: None,
            breath_voc_equivalent: None,
            raw_temperature: None,
            raw_pressure: None,
            raw_humidity: None,
            raw_gas_resistance: None,
            stabilization_status: None,
            run_in_status: None,
            sensor_heat_compensated_temperature: None,
            sensor_heat_compensated_humidity: None,
            compensated_gas: None,
            gas_percentage: None,
        }
    }
}

/// Decodes the first `count` entries of the engine's output list. Each
/// entry fills the field of its virtual sensor, a later entry replacing an
/// earlier one; entries with an unknown identity are dropped. Nothing past
/// `count` is read.
pub fn decode_outputs<T: Copy>(entries: &[OutputEntry<T>], count: usize) -> (r: Outputs<T>)
    requires
        count <= entries@.len(),
    ensures
        r == decoded(entries@.subrange(0, count as int)),
{
    let mut outputs: Outputs<T> = Outputs::default();
    let mut i: usize = 0;
    assert(entries@.subrange(0, 0) =~= Seq::<OutputEntry<T>>::empty());
    while i < count
        invariant
            i <= count,
            count <= entries@.len(),
            outputs == decoded(entries@.subrange(0, i as int)),
        decreases count - i,
    {
        let out = entries[i];
        let ghost prefix = entries@.subrange(0, i + 1);
        assert(prefix.drop_last() =~= entries@.subrange(0, i as int));
        assert(prefix.last() == out);
        match VirtualSensor::from_id(out.sensor_id) {
            Some(VirtualSensor::Iaq) => outputs.iaq = Some(Accuracy::from_output(&out)),
            Some(VirtualSensor::StaticIaq) => outputs.static_iaq = Some(Accuracy::from_output(&out)),
            Some(VirtualSensor::Co2Equivalent) => {
                outputs.co2_equivalent = Some(Accuracy::from_output(&out))
            },
            Some(VirtualSensor::BreathVocEquivalent) => {
                outputs.breath_voc_equivalent = Some(Accuracy::from_output(&out))
            },
            Some(VirtualSensor::RawTemperature) => outputs.raw_temperature = Some(out.signal),
            Some(VirtualSensor::RawPressure) => outputs.raw_pressure = Some(out.signal),
            Some(VirtualSensor::RawHumidity) => outputs.raw_humidity = Some(out.signal),
            Some(VirtualSensor::RawGas) => outputs.raw_gas_resistance = Some(out.signal),
            Some(VirtualSensor::StabilizationStatus) => {
                outputs.stabilization_status = Some(out.signal)
            },
            Some(VirtualSensor::RunInStatus) => outputs.run_in_status = Some(out.signal),
            Some(VirtualSensor::SensorHeatCompensatedTemperature) => {
                outputs.sensor_heat_compensated_temperature = Some(out.signal)
            },
            Some(VirtualSensor::SensorHeatCompensatedHumidity) => {
                outputs.sensor_heat_compensated_humidity = Some(out.signal)
            },
            Some(VirtualSensor::CompensatedGas) => {
                outputs.compensated_gas = Some(Accuracy::from_output(&out))
            },
            Some(VirtualSensor::GasPercentage) => {
                outputs.gas_percentage = Some(Accuracy::from_output(&out))
            },
            None => {},
        }
        i = i + 1;
    }
    outputs
}

/// Takes the engine's answer to a processing step: its status code and the
/// first `count` entries of its output buffer. A negative code is a
/// failure and gives an error carrying it; zero and the positive warning
/// codes both give the decoded outputs.
pub fn outputs_from_engine<T: Copy>(code: i32, entries: &[OutputEntry<T>], count: usize) -> (r:
    Result<Outputs<T>, Error>)
    requires
        count <= entries@.len(),
    ensures
        r is Err <==> code < 0,
        r matches Err(e) ==> e == Error(code),
        r matches Ok(o) ==> o == decoded(entries@.subrange(0, count as int)),
{
    if code < 0 {
        Err(Error(code))
    } else {
        Ok(decode_outputs(entries, count))
    }
}

/// The last entry with a given identity is the one at `i` when no later
/// entry carries that identity.
proof fn lemma_last_with_id_at<T>(s: Seq<OutputEntry<T>>, i: int)
    requires
        0 <= i < s.len(),
        forall|j: int| i < j < s.len() ==> s[j].sensor_id != s[i].sensor_id,
    ensures
        last_with_id(s, s[i].sensor_id) == Some(s[i]),
    decreases s.len(),
{
    if i < s.len() - 1 {
        lemma_last_with_id_at(s.drop_last(), i);
    }
}

/// Some entry carries an identity exactly when the list holds one with it.
proof fn lemma_last_with_id_present<T>(s: Seq<OutputEntry<T>>, id: u8)
    ensures
        last_with_id(s, id) is Some <==> exists|j: int| 0 <= j < s.len() && s[j].sensor_id == id,
    decreases s.len(),
{
    if s.len() > 0 {
        lemma_last_with_id_present(s.drop_last(), id);
        if exists|j: int| 0 <= j < s.len() && s[j].sensor_id == id {
            let j = choose|j: int| 0 <= j < s.len() && s[j].sensor_id == id;
            if j < s.len() - 1 {
                assert(s.drop_last()[j].sensor_id == id);
            }
        }
        if exists|j: int| 0 <= j < s.drop_last().len() && s.drop_last()[j].sensor_id == id {
            let j = choose|j: int| 0 <= j < s.drop_last().len() && s.drop_last()[j].sensor_id == id;
            assert(s[j].sensor_id == id);
        }
    }
}

/// The field of a sensor in the decoded outputs holds a value exactly when
/// some entry carries the sensor's identity.
proof fn lemma_decoded_has<T>(s: Seq<OutputEntry<T>>, v: VirtualSensor)
    ensures
        decoded(s).has(v) <==> last_with_id(s, v.spec_id()) is Some,
        v.spec_is_tagged() ==> decoded(s).tagged_field(v) == tagged(last_with_id(s, v.spec_id())),
        !v.spec_is_tagged() ==> decoded(s).plain_field(v) == plain(last_with_id(s, v.spec_id())),
{
}

/// Decoding a list that holds one entry per known virtual sensor, in table
/// order, fills every field from its sensor's entry: an accuracy-tagged
/// field gets the tag of the entry's accuracy code (0 Unreliable, 1 Low,
/// 2 Medium, 3 High, the last three carrying the signal), a plain field
/// gets the signal.
pub proof fn lemma_decode_one_per_sensor<T>(s: Seq<OutputEntry<T>>)
    requires
        s.len() == crate::sensors::NUM_VIRTUAL_SENSORS,
        forall|i: int|
            0 <= i < s.len() ==> (#[trigger] s[i]).sensor_id == VirtualSensor::spec_at(i).spec_id(),
    ensures
        forall|v: VirtualSensor|
            v.spec_is_tagged() ==> #[trigger] decoded(s).tagged_field(v) == Some(
                Accuracy::spec_from_code(s[v.spec_index()].accuracy, s[v.spec_index()].signal),
            ),
        forall|v: VirtualSensor|
            !v.spec_is_tagged() ==> #[trigger] decoded(s).plain_field(v) == Some(
                s[v.spec_index()].signal,
            ),
{
    assert forall|v: VirtualSensor| #[trigger]
        last_with_id(s, v.spec_id()) == Some(s[v.spec_index()]) by {
        let i = v.spec_index();
        assert(s[i].sensor_id == v.spec_id());
        assert forall|j: int| i < j < s.len() implies s[j].sensor_id != s[i].sensor_id by {
            assert(s[j].sensor_id == VirtualSensor::spec_at(j).spec_id());
        }
        lemma_last_with_id_at(s, i);
    }
    assert forall|v: VirtualSensor| v.spec_is_tagged() implies #[trigger] decoded(s).tagged_field(v)
        == Some(
        Accuracy::spec_from_code(s[v.spec_index()].accuracy, s[v.spec_index()].signal),
    ) by {
        lemma_decoded_has(s, v);
    }
    assert forall|v: VirtualSensor| !v.spec_is_tagged() implies #[trigger] decoded(s).plain_field(
        v,
    ) == Some(s[v.spec_index()].signal) by {
        lemma_decoded_has(s, v);
    }
}

/// An entry whose identity is no known virtual sensor is dropped: a list of
/// entries with distinct identities, all known but one, decodes to outputs
/// with exactly one populated field per known entry.
pub proof fn lemma_unknown_dropped<T>(s: Seq<OutputEntry<T>>, u: int)
    requires
        0 <= u < s.len(),
        VirtualSensor::spec_from_id(s[u].sensor_id) is None,
        forall|j: int|
            0 <= j < s.len() && j != u ==> (#[trigger] VirtualSensor::spec_from_id(
                s[j].sensor_id,
            )) is Some,
        forall|j: int, k: int|
            0 <= j < s.len() && 0 <= k < s.len() && j != k ==> s[j].sensor_id != s[k].sensor_id,
    ensures
        decoded(s).populated().finite(),
        decoded(s).populated().len() == s.len() - 1,
{
    let k = s.remove(u);
    let known = k.map_values(|e: OutputEntry<T>| VirtualSensor::spec_from_id(e.sensor_id)->0);
    assert(k.len() == s.len() - 1);
    assert(known.len() == k.len());
    assert forall|a: int| 0 <= a < k.len() implies #[trigger] k[a] == if a < u {
        s[a]
    } else {
        s[a + 1]
    } by {}
    assert forall|a: int| 0 <= a < k.len() implies #[trigger] known[a].spec_id() == k[a].sensor_id
        && VirtualSensor::spec_from_id(k[a].sensor_id) == Some(known[a]) by {
        let j = if a < u {
            a
        } else {
            a + 1
        };
        assert(k[a] == s[j]);
        assert(VirtualSensor::spec_from_id(s[j].sensor_id) is Some);
        crate::sensors::lemma_from_id_inverse(s[j].sensor_id);
    }
    assert(known.no_duplicates()) by {
        assert forall|a: int, b: int|
            0 <= a < known.len() && 0 <= b < known.len() && a != b implies known[a]
            != known[b] by {
            let ja = if a < u {
                a
            } else {
                a + 1
            };
            let jb = if b < u {
                b
            } else {
                b + 1
            };
            assert(k[a] == s[ja]);
            assert(k[b] == s[jb]);
        }
    }
    assert forall|v: VirtualSensor| decoded(s).populated().contains(v) <==> known.to_set().contains(
        v,
    ) by {
        lemma_decoded_has(s, v);
        lemma_last_with_id_present(s, v.spec_id());
        crate::sensors::lemma_sensor_identity(v);
        if decoded(s).has(v) {
            let j = choose|j: int| 0 <= j < s.len() && s[j].sensor_id == v.spec_id();
            assert(j != u);
            let a = if j < u {
                j
            } else {
                j - 1
            };
            assert(k[a] == s[j]);
            assert(known[a] == v);
            assert(known.contains(v));
        }
        if known.to_set().contains(v) {
            assert(known.contains(v));
            let a = choose|a: int| 0 <= a < known.len() && known[a] == v;
            let j = if a < u {
                a
            } else {
                a + 1
            };
            assert(k[a] == s[j]);
            assert(s[j].sensor_id == v.spec_id());
        }
    }
    assert(decoded(s).populated() =~= known.to_set());
    known.unique_seq_to_set();
}

} // verus!
