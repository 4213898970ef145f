use vstd::prelude::*;
use vstd::slice::slice_subrange;

use crate::error::{status_of, Error, BSEC_OK};
use crate::sensors::{SampleRate, VirtualSensor, NUM_PHYSICAL_SENSORS, NUM_VIRTUAL_SENSORS};

verus! {

/// One row of the subscription table handed to the engine.
#[derive(Clone, Copy, Debug, PartialEq, Eq, Structural)]
pub struct SubscriptionEntry {
    pub sensor: VirtualSensor,
    pub sample_rate: SampleRate,
}

/// The subscription state of the engine: the requested rate of every
/// virtual sensor, and the physical sensors the engine last asked for.
///
/// The table holds one rate per known virtual sensor, at the sensor's own
/// position, so it can hold neither gaps nor duplicates.
pub struct Bsec {
    virtual_sensors: [SampleRate; NUM_VIRTUAL_SENSORS],
    internal_physical_sensors: [u8; NUM_PHYSICAL_SENSORS],
    num_physical_sensors: usize,
}

/// The rate of sensor `s` after the sensors listed in `sensors` were marked
/// with `sample_rate`, its rate having been `prev`.
pub open spec fn updated_rate(
    prev: SampleRate,
    sample_rate: SampleRate,
    sensors: Seq<VirtualSensor>,
    s: VirtualSensor,
) -> SampleRate {
    if sensors.contains(s) {
        sample_rate
    } else {
        prev
    }
}

/// Marking the same sensors with the same rate twice gives the table that
/// marking them once gave.
pub proof fn lemma_update_idempotent(
    prev: SampleRate,
    sample_rate: SampleRate,
    sensors: Seq<VirtualSensor>,
    s: VirtualSensor,
)
    ensures
        updated_rate(updated_rate(prev, sample_rate, sensors, s), sample_rate, sensors, s)
            == updated_rate(prev, sample_rate, sensors, s),
{
}

/// After a full replace, a sensor is enabled only if it was listed, and a
/// listed sensor has exactly the requested rate.
pub proof fn lemma_replace_enables_only_listed(
    sample_rate: SampleRate,
    sensors: Seq<VirtualSensor>,
    s: VirtualSensor,
)
    ensures
        updated_rate(SampleRate::Disabled, sample_rate, sensors, s) != SampleRate::Disabled
            ==> sensors.contains(s),
        sensors.contains(s) ==> updated_rate(SampleRate::Disabled, sample_rate, sensors, s)
            == sample_rate,
{
}

impl Bsec {
    #[verifier::type_invariant]
    spec fn wf(self) -> bool {
        self.num_physical_sensors <= NUM_PHYSICAL_SENSORS
    }

    /// The requested rate of a virtual sensor.
    pub closed spec fn rate(self, s: VirtualSensor) -> SampleRate {
        self.virtual_sensors@[s.spec_index()]
    }

    /// Identities of the physical sensors the engine currently requires.
    pub closed spec fn physical(self) -> Seq<u8> {
        self.internal_physical_sensors@.subrange(0, self.num_physical_sensors as int)
    }

    /// Sets up the subscription state once the engine's init entry point
    /// has returned `init_code`: every virtual sensor disabled and no
    /// physical sensor required. A failed init is an error carrying its code.
    pub fn new(init_code: i32) -> (r: Result<Option<Self>, Error>)
        ensures
            r is Ok <==> init_code == BSEC_OK,
            r matches Ok(b) ==> b matches Some(b) && b.physical().len() == 0 && forall|
                s: VirtualSensor,
            | b.rate(s) == SampleRate::Disabled,
            r matches Err(e) ==> e == Error(init_code),
    {
        let b = Bsec {
            virtual_sensors: [SampleRate::Disabled; NUM_VIRTUAL_SENSORS],
            internal_physical_sensors: [0u8; NUM_PHYSICAL_SENSORS],
            num_physical_sensors: 0,
        };
        match b.init(init_code) {
            Ok(b) => Ok(Some(b)),
            Err(e) => Err(e),
        }
    }

    fn init(self, code: i32) -> (r: Result<Self, Error>)
        ensures
            r is Ok <==> code == BSEC_OK,
            r matches Ok(b) ==> b == self,
            r matches Err(e) ==> e == Error(code),
    {
        match status_of(code) {
            Ok(()) => Ok(self),
            Err(e) => Err(e),
        }
    }

    /// The requested rate of a virtual sensor.
    pub fn rate_of(&self, s: VirtualSensor) -> (r: SampleRate)
        ensures
            r == self.rate(s),
    {
        self.virtual_sensors[s.index()]
    }

    /// The physical sensors the engine asked for in the last successful
    /// subscription update; never more than the engine's capacity of eight.
    pub fn physical_sensors(&self) -> (r: &[u8])
        ensures
            r@ == self.physical(),
            r@.len() <= NUM_PHYSICAL_SENSORS,
    {
        proof {
            use_type_invariant(self);
        }
        slice_subrange(self.internal_physical_sensors.as_slice(), 0, self.num_physical_sensors)
    }

    /// The full table handed to the engine: one entry per known virtual
    /// sensor, in table order, with its requested rate.
    pub fn subscription_table(&self) -> (r: [SubscriptionEntry; NUM_VIRTUAL_SENSORS])
        ensures
            forall|i: int|
                0 <= i < NUM_VIRTUAL_SENSORS ==> (#[trigger] r@[i]) == (SubscriptionEntry {
                    sensor: VirtualSensor::spec_at(i),
                    sample_rate: self.rate(VirtualSensor::spec_at(i)),
                }),
    {
        let mut r = [SubscriptionEntry {
            sensor: VirtualSensor::Iaq,
            sample_rate: SampleRate::Disabled,
        }; NUM_VIRTUAL_SENSORS];
        let mut i: usize = 0;
        while i < NUM_VIRTUAL_SENSORS
            invariant
                i <= NUM_VIRTUAL_SENSORS,
                r@.len() == NUM_VIRTUAL_SENSORS,
                forall|k: int|
                    0 <= k < i ==> (#[trigger] r@[k]) == (SubscriptionEntry {
                        sensor: VirtualSensor::spec_at(k),
                        sample_rate: self.rate(VirtualSensor::spec_at(k)),
                    }),
            decreases NUM_VIRTUAL_SENSORS - i,
        {
            let s = VirtualSensor::at(i);
            r[i] = SubscriptionEntry { sensor: s, sample_rate: self.virtual_sensors[i] };
            i = i + 1;
        }
        r
    }

    /// Marks the listed virtual sensors with `sample_rate`; every other
    /// sensor keeps its rate. The engine is then to be handed
    /// `subscription_table`, and its answer to `accept_required_sensors`.
    pub fn update_subscription(&mut self, sample_rate: SampleRate, sensors: &[VirtualSensor])
        ensures
            forall|s: VirtualSensor| #[trigger]
                final(self).rate(s) == updated_rate(old(self).rate(s), sample_rate, sensors@, s),
            final(self).physical() == old(self).physical(),
    {
        self.do_set_subscription(false, sample_rate, sensors)
    }

    /// Replaces the whole table: the listed virtual sensors get
    /// `sample_rate`, every other sensor is disabled.
    pub fn set_subscription(&mut self, sample_rate: SampleRate, sensors: &[VirtualSensor])
        ensures
            forall|s: VirtualSensor| #[trigger]
                final(self).rate(s) == updated_rate(SampleRate::Disabled, sample_rate, sensors@, s),
            forall|s: VirtualSensor|
                !sensors@.contains(s) ==> #[trigger] final(self).rate(s) == SampleRate::Disabled,
            final(self).physical() == old(self).physical(),
    {
        self.do_set_subscription(true, sample_rate, sensors)
    }

    fn do_set_subscription(
        &mut self,
        disable_others: bool,
        sample_rate: SampleRate,
        sensors: &[VirtualSensor],
    )
        ensures
            forall|s: VirtualSensor| #[trigger]
                final(self).rate(s) == if sensors@.contains(s) {
                    sample_rate
                } else if disable_others {
                    SampleRate::Disabled
                } else {
                    old(self).rate(s)
                },
            final(self).physical() == old(self).physical(),
    {
        proof {
            use_type_invariant(&*self);
        }
        if disable_others {
            let mut i: usize = 0;
            while i < NUM_VIRTUAL_SENSORS
                invariant
                    i <= NUM_VIRTUAL_SENSORS,
                    self.virtual_sensors@.len() == NUM_VIRTUAL_SENSORS,
                    self.num_physical_sensors <= NUM_PHYSICAL_SENSORS,
                    self.physical() == old(self).physical(),
                    forall|k: int| 0 <= k < i ==> self.virtual_sensors@[k] == SampleRate::Disabled,
                decreases NUM_VIRTUAL_SENSORS - i,
            {
                self.virtual_sensors[i] = SampleRate::Disabled;
                i = i + 1;
            }
        }
        let ghost base = self.virtual_sensors@;
        let mut j: usize = 0;
        while j < sensors.len()
            invariant
                j <= sensors@.len(),
                base.len() == NUM_VIRTUAL_SENSORS,
                self.num_physical_sensors <= NUM_PHYSICAL_SENSORS,
                self.virtual_sensors@.len() == NUM_VIRTUAL_SENSORS,
                self.physical() == old(self).physical(),
                forall|s: VirtualSensor| #[trigger]
                    self.rate(s) == if sensors@.subrange(0, j as int).contains(s) {
                        sample_rate
                    } else {
                        base[s.spec_index()]
                    },
            decreases sensors@.len() - j,
        {
            let update = sensors[j];
            let ghost prev = *self;
            self.virtual_sensors[update.index()] = sample_rate;
            proof {
                assert forall|s: VirtualSensor| #[trigger]
                    self.rate(s) == if sensors@.subrange(0, j + 1).contains(s) {
                        sample_rate
                    } else {
                        base[s.spec_index()]
                    } by {
                    let a = sensors@.subrange(0, j as int);
                    let b = sensors@.subrange(0, j + 1);
                    assert(prev.rate(s) == if a.contains(s) {
                        sample_rate
                    } else {
                        base[s.spec_index()]
                    });
                    if s == update {
                        assert(b[j as int] == s);
                    } else {
                        assert(s.spec_index() != update.spec_index());
                        if b.contains(s) {
                            let k = choose|k: int| 0 <= k < b.len() && b[k] == s;
                            assert(a[k] == s);
                        }
                        if a.contains(s) {
                            let k = choose|k: int| 0 <= k < a.len() && a[k] == s;
                            assert(b[k] == s);
                        }
                    }
                }
            }
            j = j + 1;
        }
        assert(sensors@.subrange(0, sensors@.len() as int) == sensors@);
    }

    /// Takes the engine's answer to a subscription update: its status code
    /// and the first `count` entries of its physical-sensor buffer. On
    /// success those entries become the required physical sensors; on
    /// failure the error carries the code and nothing is changed.
    ///
    /// A count above the engine's capacity breaks the engine's contract and
    /// is excluded here: the caller halts on it.
    pub fn accept_required_sensors(&mut self, code: i32, required: &[u8], count: u8) -> (r: Result<
        (),
        Error,
    >)
        requires
            count as usize <= NUM_PHYSICAL_SENSORS,
            count as usize <= required@.len(),
        ensures
            r is Ok <==> code == BSEC_OK,
            r matches Err(e) ==> e == Error(code),
            r is Ok ==> final(self).physical() == required@.subrange(0, count as int),
            r is Err ==> final(self).physical() == old(self).physical(),
            forall|s: VirtualSensor| #[trigger] final(self).rate(s) == old(self).rate(s),
            final(self).physical().len() <= NUM_PHYSICAL_SENSORS,
    {
        proof {
            use_type_invariant(&*self);
        }
        match status_of(code) {
            Ok(()) => {
                let n = count as usize;
                let mut i: usize = 0;
                while i < n
                    invariant
                        i <= n,
                        n == count as usize,
                        n <= NUM_PHYSICAL_SENSORS,
                        n <= required@.len(),
                        self.num_physical_sensors <= NUM_PHYSICAL_SENSORS,
                        self.internal_physical_sensors@.len() == NUM_PHYSICAL_SENSORS,
                        self.virtual_sensors == old(self).virtual_sensors,
                        forall|k: int|
                            0 <= k < i ==> self.internal_physical_sensors@[k] == required@[k],
                    decreases n - i,
                {
                    self.internal_physical_sensors[i] = required[i];
                    i = i + 1;
                }
                self.num_physical_sensors = n;
                assert(self.physical() == required@.subrange(0, count as int));
                Ok(())
            },
            Err(e) => Err(e),
        }
    }
}

} // verus!
