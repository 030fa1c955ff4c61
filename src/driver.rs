//! The high-level driver: validated operations on top of register programs.
use crate::effects::{Effect, WaveformEntry};
use crate::plans::{
    go_state_plan, go_state_steps, init_plan, init_steps, mode_plan, mode_steps, open_loop_erm_plan,
    open_loop_erm_steps, reset_plan, reset_steps, set_actuator_type_plan, set_actuator_type_steps,
    set_audio_to_vibe_control_plan, set_audio_to_vibe_control_steps, set_feedback_control_plan,
    set_feedback_control_steps, set_high_impedance_plan, set_high_impedance_steps, set_library_plan,
    set_library_steps, set_mode_plan, set_mode_steps, set_standby_plan, set_standby_steps,
    single_effect_entries, start_plan, start_steps, status_plan, status_steps, waveform_entry_plan,
    waveform_entry_steps, waveform_sequence_plan, waveform_sequence_steps, write_plan, write_steps,
};
use crate::registers::{
    device_id_of, is_known_device_id, updated, AthFilter, AthPeakTime, FbBrakeFactor,
    LibrarySelection, LoopGain, OperatingMode, AUDIO_TO_VIBE_MAX_DRIVE, AUDIO_TO_VIBE_MAX_INPUT,
    AUDIO_TO_VIBE_MIN_DRIVE, AUDIO_TO_VIBE_MIN_INPUT, BRAKE_TIME_OFFSET, GO, GO_BIT, MODE, MODE_FIELD,
    OVERDRIVE_CLAMP, OVERDRIVE_TIME_OFFSET, RATED_VOLTAGE, RTP_INPUT, STATUS, SUSTAIN_TIME_OFFSET_NEG,
    SUSTAIN_TIME_OFFSET_POS,
};
use crate::sequencer::{
    added, extends, last_read, lemma_remembered_single, lemma_remembered_unchanged, lemma_runs_first,
    lemma_single_read, ran, refused_at,
    remembered_after, runs, stalls_at, Execution, Request, Step,
};
use crate::transport::{Access, DeviceInterface, DeviceInterfaceError, I2cBus};
use vstd::prelude::*;

verus! {

/// The device id that initialization names as expected when it finds another.
pub const EXPECTED_DEVICE_ID: u8 = 3;

/// A snapshot of the status register.
#[derive(Debug, Clone, Copy, PartialEq, Eq, Structural)]
pub struct StatusInfo {
    /// Over-current detected (bit 0).
    pub overcurrent_detected: bool,
    /// Over-temperature detected (bit 1).
    pub overtemperature_detected: bool,
    /// Feedback controller status (bit 2).
    pub feedback_status: bool,
    /// Result of the last diagnostics or calibration (bit 3).
    pub diagnostic_result: bool,
    /// An access to an illegal register address was detected (bit 4).
    pub illegal_address: bool,
    /// Device id (bits 7..5).
    pub device_id: u8,
}

impl StatusInfo {
    /// The snapshot that a status register value holds.
    pub open spec fn spec_from_register(value: u8) -> StatusInfo {
        StatusInfo {
            overcurrent_detected: value & 0x01 != 0,
            overtemperature_detected: value & 0x02 != 0,
            feedback_status: value & 0x04 != 0,
            diagnostic_result: value & 0x08 != 0,
            illegal_address: value & 0x10 != 0,
            device_id: device_id_of(value),
        }
    }

    /// Decodes a status register value.
    pub fn from_register(value: u8) -> (r: StatusInfo)
        ensures
            r == Self::spec_from_register(value),
    {
        StatusInfo {
            overcurrent_detected: value & 0x01 != 0,
            overtemperature_detected: value & 0x02 != 0,
            feedback_status: value & 0x04 != 0,
            diagnostic_result: value & 0x08 != 0,
            illegal_address: value & 0x10 != 0,
            device_id: value >> 5u8,
        }
    }
}

/// What a driver operation can fail with.
#[derive(Debug)]
pub enum Error<E> {
    /// The bus reported a failure; its error is passed on unchanged.
    I2c(E),
    /// Initialization found a device id outside the family.
    InvalidDeviceId {
        /// The id of the reference variant.
        expected: u8,
        /// The id that the status register held.
        found: u8,
    },
    /// Reserved: the device is not ready. No operation returns it.
    NotReady,
    /// Reserved: a configuration value is invalid. No operation returns it.
    InvalidConfig(&'static str),
    /// Reserved: an operation timed out. No operation returns it.
    Timeout,
    /// A waveform sequence longer than 8 entries, or a slot index above 7.
    InvalidWaveform,
}

impl<E> From<DeviceInterfaceError<E>> for Error<E> {
    fn from(error: DeviceInterfaceError<E>) -> (r: Self) {
        match error {
            DeviceInterfaceError::I2c(e) => Error::I2c(e),
        }
    }
}

impl<E> vstd::std_specs::convert::FromSpecImpl<DeviceInterfaceError<E>> for Error<E> {
    open spec fn obeys_from_spec() -> bool {
        true
    }

    open spec fn from_spec(error: DeviceInterfaceError<E>) -> Self {
        match error {
            DeviceInterfaceError::I2c(e) => Error::I2c(e),
        }
    }
}

/// The result of a finished execution: the last value read, or
/// `InvalidDeviceId` when an identification refused the device.
pub fn outcome<E>(run: &Execution) -> (r: Result<Option<u8>, Error<E>>)
    requires
        run.wf(),
    ensures
        match r {
            Ok(f) => run.refusal() is None && f == last_read(run.log()),
            Err(Error::InvalidDeviceId { expected, found }) => {
                &&& expected == EXPECTED_DEVICE_ID
                &&& run.refusal() == Some(found)
            },
            Err(_) => false,
        },
{
    match run.refused() {
        Some(found) => Err(Error::InvalidDeviceId { expected: EXPECTED_DEVICE_ID, found }),
        None => Ok(run.fetched()),
    }
}

/// The result without its value.
pub open spec fn unit<T, E>(r: Result<T, Error<E>>) -> Result<(), Error<E>> {
    match r {
        Ok(_) => Ok(()),
        Err(e) => Err(e),
    }
}

/// From `before` to `after` the driver made a complete run of `steps`,
/// started no bus transaction besides its accesses, and remembers the mode
/// that the steps leave.
pub open spec fn completed<I2C>(steps: Seq<Step>, before: Drv260x<I2C>, after: Drv260x<I2C>) -> bool {
    &&& ran(steps, before.traffic(), after.traffic())
    &&& after.attempts() == before.attempts() + added(before.traffic(), after.traffic()).len()
    &&& after.cached_mode() == remembered_after(steps, before.cached_mode())
}

/// From `before` to `after` the driver ran `steps` until a bus transaction
/// of step `n` failed: the accesses before it completed, it was the last
/// transaction started, and the remembered mode is the one that the steps
/// before `n` leave.
pub open spec fn failed_at<I2C>(
    steps: Seq<Step>,
    n: int,
    before: Drv260x<I2C>,
    after: Drv260x<I2C>,
) -> bool {
    &&& 0 <= n < steps.len()
    &&& extends(before.traffic(), after.traffic())
    &&& stalls_at(steps, n, added(before.traffic(), after.traffic()))
    &&& after.attempts() == before.attempts() + added(before.traffic(), after.traffic()).len() + 1
    &&& after.cached_mode() == remembered_after(steps.take(n), before.cached_mode())
}

/// From `before` to `after` the driver ran `steps` until the identification
/// of step `n` read the device id `found`, which is outside the family.
pub open spec fn refused_by<I2C>(
    steps: Seq<Step>,
    n: int,
    found: u8,
    before: Drv260x<I2C>,
    after: Drv260x<I2C>,
) -> bool {
    &&& extends(before.traffic(), after.traffic())
    &&& refused_at(steps, n, added(before.traffic(), after.traffic()))
    &&& found == device_id_of(added(before.traffic(), after.traffic()).last()->Read_value)
    &&& after.attempts() == before.attempts() + added(before.traffic(), after.traffic()).len()
    &&& after.cached_mode() == remembered_after(steps.take(n), before.cached_mode())
}

/// From `before` to `after` the driver started no bus transaction and its
/// remembered mode stayed.
pub open spec fn untouched<I2C>(before: Drv260x<I2C>, after: Drv260x<I2C>) -> bool {
    &&& after.traffic() == before.traffic()
    &&& after.attempts() == before.attempts()
    &&& after.cached_mode() == before.cached_mode()
}

/// What an operation that runs `steps` leaves: on success a complete run;
/// on a bus error a run that stopped at the failing transaction; on
/// `InvalidDeviceId` a run that an identification refused.
pub open spec fn carried_out<I2C, E>(
    steps: Seq<Step>,
    before: Drv260x<I2C>,
    after: Drv260x<I2C>,
    r: Result<(), Error<E>>,
) -> bool {
    match r {
        Ok(()) => completed(steps, before, after),
        Err(Error::I2c(_)) => exists|n: int| failed_at(steps, n, before, after),
        Err(Error::InvalidDeviceId { expected, found }) => {
            &&& expected == EXPECTED_DEVICE_ID
            &&& exists|n: int| refused_by(steps, n, found, before, after)
        },
        Err(_) => false,
    }
}

/// No step of `steps` remembers a mode.
pub open spec fn keeps_mode(steps: Seq<Step>) -> bool {
    forall|i: int| 0 <= i < steps.len() ==> !(#[trigger] steps[i] is Remember)
}

/// No step of `steps` identifies the device.
pub open spec fn trusts_device(steps: Seq<Step>) -> bool {
    forall|i: int| 0 <= i < steps.len() ==> !(#[trigger] steps[i] is Identify)
}

/// A program that remembers no mode leaves the remembered mode alone, and
/// one that does not identify the device fails only on the bus.
proof fn lemma_plain_program<I2C, E>(
    steps: Seq<Step>,
    before: Drv260x<I2C>,
    after: Drv260x<I2C>,
    r: Result<(), Error<E>>,
)
    requires
        carried_out(steps, before, after, r),
    ensures
        keeps_mode(steps) ==> after.cached_mode() == before.cached_mode(),
        trusts_device(steps) ==> (r is Err ==> r->Err_0 is I2c),
{
    if keeps_mode(steps) {
        match r {
            Ok(()) => {
                lemma_remembered_unchanged(steps, before.cached_mode());
            },
            Err(Error::I2c(_)) => {
                let n = choose|n: int| failed_at(steps, n, before, after);
                assert forall|i: int| 0 <= i < steps.take(n).len() implies !(#[trigger] steps.take(n)[i] is Remember) by {
                    assert(steps.take(n)[i] == steps[i]);
                }
                lemma_remembered_unchanged(steps.take(n), before.cached_mode());
            },
            Err(Error::InvalidDeviceId { found, .. }) => {
                let n = choose|n: int| refused_by(steps, n, found, before, after);
                assert forall|i: int| 0 <= i < steps.take(n).len() implies !(#[trigger] steps.take(n)[i] is Remember) by {
                    assert(steps.take(n)[i] == steps[i]);
                }
                lemma_remembered_unchanged(steps.take(n), before.cached_mode());
            },
            Err(_) => {},
        }
    }
    if trusts_device(steps) {
        if let Err(Error::InvalidDeviceId { found, .. }) = r {
            let n = choose|n: int| refused_by(steps, n, found, before, after);
            assert(steps[n] is Identify);
        }
    }
}

/// In a program with one `Remember` step, at index `k`, the driver ends up
/// remembering that step's mode when the run got past it, and keeps its
/// earlier mode otherwise.
proof fn lemma_single_remember<I2C, E>(
    steps: Seq<Step>,
    k: int,
    before: Drv260x<I2C>,
    after: Drv260x<I2C>,
    r: Result<(), Error<E>>,
)
    requires
        carried_out(steps, before, after, r),
        0 <= k < steps.len(),
        steps[k] is Remember,
        forall|i: int| 0 <= i < steps.len() && i != k ==> !(#[trigger] steps[i] is Remember),
    ensures
        r is Ok ==> after.cached_mode() == steps[k]->Remember_mode,
        r is Err ==> after.cached_mode() == before.cached_mode() || after.cached_mode()
            == steps[k]->Remember_mode,
        r is Err && k == steps.len() - 1 ==> after.cached_mode() == before.cached_mode(),
{
    match r {
        Ok(()) => {
            lemma_remembered_single(steps, k, steps.len() as int, before.cached_mode());
            assert(steps.take(steps.len() as int) =~= steps);
        },
        Err(Error::I2c(_)) => {
            let n = choose|n: int| failed_at(steps, n, before, after);
            lemma_remembered_single(steps, k, n, before.cached_mode());
        },
        Err(Error::InvalidDeviceId { found, .. }) => {
            let n = choose|n: int| refused_by(steps, n, found, before, after);
            lemma_remembered_single(steps, k, n, before.cached_mode());
        },
        Err(_) => {},
    }
}

/// In a program whose only identification is its first step, a refusal
/// comes after the status read alone, with the earlier mode kept.
proof fn lemma_refusal_at_start<I2C, E>(
    steps: Seq<Step>,
    before: Drv260x<I2C>,
    after: Drv260x<I2C>,
    r: Result<(), Error<E>>,
)
    requires
        carried_out(steps, before, after, r),
        0 < steps.len(),
        forall|i: int| 0 < i < steps.len() ==> !(#[trigger] steps[i] is Identify),
    ensures
        r is Err && r->Err_0 is InvalidDeviceId ==> {
            &&& added(before.traffic(), after.traffic()).len() == 1
            &&& after.attempts() == before.attempts() + 1
            &&& after.cached_mode() == before.cached_mode()
        },
{
    if let Err(Error::InvalidDeviceId { found, .. }) = r {
        let n = choose|n: int| refused_by(steps, n, found, before, after);
        assert(n == 0);
        let t = added(before.traffic(), after.traffic());
        assert(steps.take(0) =~= Seq::<Step>::empty());
        assert(t.drop_last().len() == 0);
    }
}

/// In a program that starts by identifying the device, a status read that
/// finds an id outside the family ends the run with `InvalidDeviceId`.
proof fn lemma_identified_first<I2C, E>(
    steps: Seq<Step>,
    before: Drv260x<I2C>,
    after: Drv260x<I2C>,
    r: Result<(), Error<E>>,
)
    requires
        carried_out(steps, before, after, r),
        0 < steps.len(),
        steps[0] is Identify,
        forall|i: int| 0 < i < steps.len() ==> !(#[trigger] steps[i] is Identify),
    ensures
        ({
            let t = added(before.traffic(), after.traffic());
            t.len() > 0 && !is_known_device_id(device_id_of(t[0]->Read_value)) ==> {
                &&& r is Err
                &&& r->Err_0 is InvalidDeviceId
                &&& r->Err_0->InvalidDeviceId_found == device_id_of(t[0]->Read_value)
            }
        }),
{
    let t = added(before.traffic(), after.traffic());
    if t.len() > 0 && !is_known_device_id(device_id_of(t[0]->Read_value)) {
        match r {
            Ok(()) => {
                lemma_runs_first(steps, t);
                assert(t.take(1)[0] == t[0]);
            },
            Err(Error::I2c(_)) => {
                let n = choose|n: int| failed_at(steps, n, before, after);
                assert(steps.take(0) =~= Seq::<Step>::empty());
                if n == 0 {
                    assert(runs(steps.take(0), t));
                } else {
                    let u = if runs(steps.take(n), t) {
                        t
                    } else {
                        t.drop_last()
                    };
                    assert(runs(steps.take(n), u));
                    assert(steps.take(n)[0] == steps[0]);
                    lemma_runs_first(steps.take(n), u);
                    assert(u.take(1)[0] == u[0]);
                    assert(u[0] == t[0]);
                }
            },
            Err(Error::InvalidDeviceId { found, .. }) => {
                let n = choose|n: int| refused_by(steps, n, found, before, after);
                assert(n == 0);
                assert(steps.take(0) =~= Seq::<Step>::empty());
                assert(t.drop_last().len() == 0);
            },
            Err(_) => {},
        }
    }
}

/// Driver for one device of the DRV260x family.
///
/// It owns the bus and remembers the operating mode it last set
/// successfully. That memory is not refreshed from the device.
pub struct Drv260x<I2C> {
    device: DeviceInterface<I2C>,
    current_mode: Option<OperatingMode>,
}

impl<I2C> Drv260x<I2C> {
    /// Every register access completed through this driver, in order.
    pub closed spec fn traffic(&self) -> Seq<Access> {
        self.device.traffic()
    }

    /// The number of bus transactions this driver started, failed ones included.
    pub closed spec fn attempts(&self) -> nat {
        self.device.attempts()
    }

    /// The operating mode this driver last set successfully, if any since
    /// it was made or reset.
    pub closed spec fn cached_mode(&self) -> Option<OperatingMode> {
        self.current_mode
    }

    /// A driver over `i2c`, with no mode known yet.
    pub fn new(i2c: I2C) -> (r: Self)
        ensures
            r.traffic() == Seq::<Access>::empty(),
            r.attempts() == 0,
            r.cached_mode() == None::<OperatingMode>,
    {
        Drv260x { device: DeviceInterface::new(i2c), current_mode: None }
    }

    /// The register interface, for accesses the driver has no operation for.
    pub fn device(&mut self) -> (r: &mut DeviceInterface<I2C>)
        ensures
            r.traffic() == old(self).traffic(),
            r.attempts() == old(self).attempts(),
            final(self).traffic() == final(r).traffic(),
            final(self).attempts() == final(r).attempts(),
            final(self).cached_mode() == old(self).cached_mode(),
    {
        &mut self.device
    }

    /// The operating mode this driver last set successfully.
    pub fn current_mode(&self) -> (r: Option<OperatingMode>)
        ensures
            r == self.cached_mode(),
    {
        self.current_mode
    }
}

impl<I2C: I2cBus> Drv260x<I2C> {
    /// Runs a register program to its end, to a refusing identification, or
    /// to the first bus failure, and returns the last value read.
    fn execute(&mut self, steps: Vec<Step>) -> (r: Result<Option<u8>, Error<I2C::Error>>)
        ensures
            carried_out(steps@, *old(self), *final(self), unit(r)),
            r is Ok ==> r->Ok_0 == last_read(added(old(self).traffic(), final(self).traffic())),
            keeps_mode(steps@) ==> final(self).cached_mode() == old(self).cached_mode(),
            trusts_device(steps@) ==> (r is Err ==> r->Err_0 is I2c),
    {
        let ghost before = self.device.traffic();
        let ghost plan = steps@;
        let mut run = Execution::new(steps, self.current_mode);
        assert(before + run.log() =~= before);
        loop
            invariant
                run.wf(),
                run.plan() == plan,
                plan == steps@,
                run.initial() == old(self).cached_mode(),
                self.device.traffic() == before + run.log(),
                self.device.attempts() == old(self).attempts() + run.log().len(),
                self.current_mode == old(self).current_mode,
                before == old(self).traffic(),
            decreases run.remaining(),
        {
            let request = run.request();
            proof {
                let now = self.device.traffic();
                assert(now.take(before.len() as int) =~= before);
                assert(added(before, now) =~= run.log());
            }
            match request {
                Request::Read { address } => match self.device.read_register(address) {
                    Ok(value) => {
                        run.read_done(value);
                        assert(self.device.traffic() =~= before + run.log());
                    },
                    Err(DeviceInterfaceError::I2c(e)) => {
                        self.current_mode = run.remembered();
                        let r: Result<Option<u8>, Error<I2C::Error>> = Err(Error::I2c(e));
                        proof {
                            assert(failed_at(plan, run.position(), *old(self), *self));
                            lemma_plain_program(plan, *old(self), *self, unit(r));
                        }
                        return r;
                    },
                },
                Request::Write { address, value } => match self.device.write_register(address, value) {
                    Ok(()) => {
                        run.write_done();
                        assert(self.device.traffic() =~= before + run.log());
                    },
                    Err(DeviceInterfaceError::I2c(e)) => {
                        self.current_mode = run.remembered();
                        let r: Result<Option<u8>, Error<I2C::Error>> = Err(Error::I2c(e));
                        proof {
                            assert(failed_at(plan, run.position(), *old(self), *self));
                            lemma_plain_program(plan, *old(self), *self, unit(r));
                        }
                        return r;
                    },
                },
                Request::Finished => {
                    self.current_mode = run.remembered();
                    let r = outcome(&run);
                    proof {
                        if run.refusal() is None {
                            assert(plan.take(plan.len() as int) =~= plan);
                        } else {
                            assert(refused_by(plan, run.position(), run.refusal()->Some_0, *old(self), *self));
                        }
                        lemma_plain_program(plan, *old(self), *self, unit(r));
                    }
                    return r;
                },
            }
        }
    }

    /// Runs a register program that reads nothing the caller needs.
    fn perform(&mut self, steps: Vec<Step>) -> (r: Result<(), Error<I2C::Error>>)
        ensures
            carried_out(steps@, *old(self), *final(self), r),
            keeps_mode(steps@) ==> final(self).cached_mode() == old(self).cached_mode(),
            trusts_device(steps@) ==> (r is Err ==> r->Err_0 is I2c),
    {
        match self.execute(steps) {
            Ok(_) => Ok(()),
            Err(e) => Err(e),
        }
    }
    /// Runs a program of one read and returns the value read.
    fn fetch(
        &mut self,
        steps: Vec<Step>,
        Ghost(address): Ghost<u8>,
    ) -> (r: Result<u8, Error<I2C::Error>>)
        requires
            steps@ == seq![Step::Read { address }],
        ensures
            carried_out(steps@, *old(self), *final(self), unit(r)),
            r is Ok ==> r->Ok_0 == added(old(self).traffic(), final(self).traffic())[0]->Read_value,
            final(self).cached_mode() == old(self).cached_mode(),
            r is Err ==> r->Err_0 is I2c,
    {
        let ghost before = self.traffic();
        match self.execute(steps) {
            Ok(f) => {
                proof {
                    lemma_single_read(address, added(before, self.traffic()));
                }
                Ok(f.unwrap())
            },
            Err(e) => Err(e),
        }
    }

    /// Checks the device id, leaves standby and selects internal trigger
    /// mode. When the id is not one of the family's, only the status read
    /// happens and the call fails with `InvalidDeviceId`.
    pub fn init(&mut self) -> (r: Result<(), Error<I2C::Error>>)
        ensures
            carried_out(init_steps(), *old(self), *final(self), r),
            r is Ok ==> final(self).cached_mode() == Some(OperatingMode::Internal),
            r is Err ==> final(self).cached_mode() == old(self).cached_mode(),
            r is Err && r->Err_0 is InvalidDeviceId ==> {
                &&& added(old(self).traffic(), final(self).traffic()).len() == 1
                &&& final(self).attempts() == old(self).attempts() + 1
            },
            added(old(self).traffic(), final(self).traffic()).len() > 0 && !is_known_device_id(
                device_id_of(added(old(self).traffic(), final(self).traffic())[0]->Read_value),
            ) ==> {
                &&& r is Err
                &&& r->Err_0 is InvalidDeviceId
                &&& r->Err_0->InvalidDeviceId_found == device_id_of(
                    added(old(self).traffic(), final(self).traffic())[0]->Read_value,
                )
            },
    {
        let r = self.perform(init_plan());
        proof {
            let steps = init_steps();
            assert(steps.len() == 4);
            assert(steps[0] is Identify);
            assert(steps[1] is Update);
            assert(steps[2] is Update);
            assert(steps[3] is Remember);
            lemma_refusal_at_start(steps, *old(self), *self, r);
            lemma_single_remember(steps, 3, *old(self), *self, r);
            lemma_identified_first(steps, *old(self), *self, r);
        }
        r
    }

    /// `init`, then the actuator type set to ERM, the ERM open-loop bit set,
    /// and a sequence that plays strong click (effect 1) once, in this order.
    pub fn init_open_loop_erm(&mut self) -> (r: Result<(), Error<I2C::Error>>)
        ensures
            carried_out(open_loop_erm_steps(), *old(self), *final(self), r),
            r is Ok ==> final(self).cached_mode() == Some(OperatingMode::Internal),
            r is Err ==> final(self).cached_mode() == old(self).cached_mode() || final(self).cached_mode()
                == Some(OperatingMode::Internal),
            r is Err && r->Err_0 is InvalidDeviceId ==> {
                &&& added(old(self).traffic(), final(self).traffic()).len() == 1
                &&& final(self).attempts() == old(self).attempts() + 1
                &&& final(self).cached_mode() == old(self).cached_mode()
            },
    {
        let r = self.perform(open_loop_erm_plan());
        proof {
            let steps = open_loop_erm_steps();
            let head = init_steps();
            let tail = set_actuator_type_steps(false) + crate::plans::erm_open_loop_steps() + waveform_sequence_steps(
                single_effect_entries(1),
            );
            assert(steps =~= head + tail);
            assert(head.len() == 4);
            assert(head[0] is Identify);
            assert(head[1] is Update);
            assert(head[2] is Update);
            assert(head[3] is Remember);
            assert forall|i: int| 0 <= i < tail.len() implies !(#[trigger] tail[i] is Remember) && !(
            tail[i] is Identify) by {
                if i >= 2 {
                    assert(tail[i] == waveform_sequence_steps(single_effect_entries(1))[i - 2]);
                }
            }
            assert forall|i: int| 0 < i < steps.len() implies !(#[trigger] steps[i] is Identify) by {
                if i >= 4 {
                    assert(steps[i] == tail[i - 4]);
                }
            }
            assert forall|i: int| 0 <= i < steps.len() && i != 3 implies !(#[trigger] steps[i] is Remember) by {
                if i >= 4 {
                    assert(steps[i] == tail[i - 4]);
                }
            }
            lemma_refusal_at_start(steps, *old(self), *self, r);
            lemma_single_remember(steps, 3, *old(self), *self, r);
        }
        r
    }

    /// Reads the status register.
    pub fn get_status(&mut self) -> (r: Result<StatusInfo, Error<I2C::Error>>)
        ensures
            carried_out(status_steps(), *old(self), *final(self), unit(r)),
            r is Ok ==> r->Ok_0 == StatusInfo::spec_from_register(
                added(old(self).traffic(), final(self).traffic())[0]->Read_value,
            ),
            final(self).cached_mode() == old(self).cached_mode(),
            r is Err ==> r->Err_0 is I2c,
    {
        let value = self.fetch(status_plan(), Ghost(STATUS))?;
        Ok(StatusInfo::from_register(value))
    }

    /// Selects the operating mode; the remembered mode changes only once the
    /// write has succeeded.
    pub fn set_mode(&mut self, mode: OperatingMode) -> (r: Result<(), Error<I2C::Error>>)
        ensures
            carried_out(set_mode_steps(mode), *old(self), *final(self), r),
            r is Ok ==> final(self).cached_mode() == Some(mode),
            r is Err ==> final(self).cached_mode() == old(self).cached_mode(),
            r is Err ==> r->Err_0 is I2c,
    {
        let r = self.perform(set_mode_plan(mode));
        proof {
            lemma_single_remember(set_mode_steps(mode), 1, *old(self), *self, r);
        }
        r
    }

    /// Reads the operating mode from the mode register.
    pub fn get_mode(&mut self) -> (r: Result<OperatingMode, Error<I2C::Error>>)
        ensures
            carried_out(mode_steps(), *old(self), *final(self), unit(r)),
            r is Ok ==> r->Ok_0 == OperatingMode::spec_from_register(
                added(old(self).traffic(), final(self).traffic())[0]->Read_value,
            ),
            final(self).cached_mode() == old(self).cached_mode(),
            r is Err ==> r->Err_0 is I2c,
    {
        let value = self.fetch(mode_plan(), Ghost(MODE))?;
        Ok(OperatingMode::from_register(value))
    }

    /// Sets or clears the standby bit, keeping the rest of the mode register.
    pub fn set_standby(&mut self, standby: bool) -> (r: Result<(), Error<I2C::Error>>)
        ensures
            carried_out(set_standby_steps(standby), *old(self), *final(self), r),
            final(self).cached_mode() == old(self).cached_mode(),
            r is Err ==> r->Err_0 is I2c,
    {
        self.perform(set_standby_plan(standby))
    }

    /// Sets the device reset bit. Once that write has succeeded the
    /// remembered mode is forgotten.
    pub fn reset(&mut self) -> (r: Result<(), Error<I2C::Error>>)
        ensures
            carried_out(reset_steps(), *old(self), *final(self), r),
            r is Ok ==> final(self).cached_mode() == None::<OperatingMode>,
            r is Err ==> final(self).cached_mode() == old(self).cached_mode(),
            r is Err ==> r->Err_0 is I2c,
    {
        let r = self.perform(reset_plan());
        proof {
            lemma_single_remember(reset_steps(), 1, *old(self), *self, r);
        }
        r
    }

    /// Selects the waveform library, keeping the rest of its register.
    pub fn set_library(&mut self, library: LibrarySelection) -> (r: Result<(), Error<I2C::Error>>)
        ensures
            carried_out(set_library_steps(library), *old(self), *final(self), r),
            final(self).cached_mode() == old(self).cached_mode(),
            r is Err ==> r->Err_0 is I2c,
    {
        self.perform(set_library_plan(library))
    }

    /// Sets or clears the high-impedance bit, keeping the rest of its register.
    pub fn set_high_impedance(&mut self, hi_z: bool) -> (r: Result<(), Error<I2C::Error>>)
        ensures
            carried_out(set_high_impedance_steps(hi_z), *old(self), *final(self), r),
            final(self).cached_mode() == old(self).cached_mode(),
            r is Err ==> r->Err_0 is I2c,
    {
        self.perform(set_high_impedance_plan(hi_z))
    }

    /// Writes one sequencer slot. An index above 7 fails with
    /// `InvalidWaveform` before any bus access.
    pub fn set_waveform_entry(
        &mut self,
        index: u8,
        entry: WaveformEntry,
    ) -> (r: Result<(), Error<I2C::Error>>)
        ensures
            index > 7 ==> r is Err && r->Err_0 is InvalidWaveform,
            index > 7 ==> untouched(*old(self), *final(self)),
            index <= 7 ==> carried_out(waveform_entry_steps(index, entry), *old(self), *final(self), r),
            index <= 7 ==> final(self).cached_mode() == old(self).cached_mode(),
            index <= 7 ==> (r is Err ==> r->Err_0 is I2c),
    {
        match waveform_entry_plan(index, entry) {
            Some(steps) => self.perform(steps),
            None => Err(Error::InvalidWaveform),
        }
    }

    /// Programs the whole sequencer: the entries into slots 0 onwards, then
    /// stop entries into every remaining slot through slot 7, so nothing of an
    /// earlier sequence stays behind. More than 8 entries fail with
    /// `InvalidWaveform` before any bus access.
    pub fn set_waveform_sequence(
        &mut self,
        entries: &[WaveformEntry],
    ) -> (r: Result<(), Error<I2C::Error>>)
        ensures
            entries@.len() > 8 ==> r is Err && r->Err_0 is InvalidWaveform,
            entries@.len() > 8 ==> untouched(*old(self), *final(self)),
            entries@.len() <= 8 ==> carried_out(waveform_sequence_steps(entries@), *old(self), *final(self), r),
            entries@.len() <= 8 ==> final(self).cached_mode() == old(self).cached_mode(),
            entries@.len() <= 8 ==> (r is Err ==> r->Err_0 is I2c),
    {
        match waveform_sequence_plan(entries) {
            Some(steps) => self.perform(steps),
            None => Err(Error::InvalidWaveform),
        }
    }

    /// Programs a sequence that plays effect `effect_id` (masked to 7 bits) once.
    pub fn set_single_effect(&mut self, effect_id: u8) -> (r: Result<(), Error<I2C::Error>>)
        ensures
            carried_out(
                waveform_sequence_steps(single_effect_entries(effect_id)),
                *old(self),
                *final(self),
                r,
            ),
            final(self).cached_mode() == old(self).cached_mode(),
            r is Err ==> r->Err_0 is I2c,
    {
        let sequence: [WaveformEntry; 2] = [WaveformEntry::effect(effect_id), WaveformEntry::stop()];
        assert(sequence@ =~= single_effect_entries(effect_id));
        self.set_waveform_sequence(&sequence)
    }

    /// Programs a sequence that plays a predefined effect once.
    pub fn set_single_effect_enum(&mut self, effect: Effect) -> (r: Result<(), Error<I2C::Error>>)
        ensures
            carried_out(
                waveform_sequence_steps(single_effect_entries(effect.spec_id())),
                *old(self),
                *final(self),
                r,
            ),
            final(self).cached_mode() == old(self).cached_mode(),
            r is Err ==> r->Err_0 is I2c,
    {
        let id = effect.id();
        proof {
            crate::effects::lemma_entry_masking(id);
        }
        let sequence: [WaveformEntry; 2] = [WaveformEntry::effect_from_enum(effect), WaveformEntry::stop()];
        assert(sequence@ =~= single_effect_entries(id));
        self.set_waveform_sequence(&sequence)
    }

    /// Sets the go bit: the device starts the programmed sequence. Returns
    /// without waiting for it to end.
    pub fn go(&mut self) -> (r: Result<(), Error<I2C::Error>>)
        ensures
            carried_out(write_steps(GO, GO_BIT), *old(self), *final(self), r),
            final(self).cached_mode() == old(self).cached_mode(),
            r is Err ==> r->Err_0 is I2c,
    {
        self.perform(write_plan(GO, GO_BIT))
    }

    /// Clears the go bit, which stops playback.
    pub fn stop(&mut self) -> (r: Result<(), Error<I2C::Error>>)
        ensures
            carried_out(write_steps(GO, 0), *old(self), *final(self), r),
            final(self).cached_mode() == old(self).cached_mode(),
            r is Err ==> r->Err_0 is I2c,
    {
        self.perform(write_plan(GO, 0))
    }

    /// Reads the go bit back: true while the device is still playing.
    pub fn is_active(&mut self) -> (r: Result<bool, Error<I2C::Error>>)
        ensures
            carried_out(go_state_steps(), *old(self), *final(self), unit(r)),
            r is Ok ==> r->Ok_0 == (added(old(self).traffic(), final(self).traffic())[0]->Read_value
                & GO_BIT != 0),
            final(self).cached_mode() == old(self).cached_mode(),
            r is Err ==> r->Err_0 is I2c,
    {
        let value = self.fetch(go_state_plan(), Ghost(GO))?;
        Ok(value & GO_BIT != 0)
    }

    /// Writes the real-time playback input.
    pub fn set_rtp_input(&mut self, value: u8) -> (r: Result<(), Error<I2C::Error>>)
        ensures
            carried_out(write_steps(RTP_INPUT, value), *old(self), *final(self), r),
            final(self).cached_mode() == old(self).cached_mode(),
            r is Err ==> r->Err_0 is I2c,
    {
        self.perform(write_plan(RTP_INPUT, value))
    }

    /// Writes the rated voltage used by calibration.
    pub fn set_rated_voltage(&mut self, voltage: u8) -> (r: Result<(), Error<I2C::Error>>)
        ensures
            carried_out(write_steps(RATED_VOLTAGE, voltage), *old(self), *final(self), r),
            final(self).cached_mode() == old(self).cached_mode(),
            r is Err ==> r->Err_0 is I2c,
    {
        self.perform(write_plan(RATED_VOLTAGE, voltage))
    }

    /// Writes the overdrive clamp voltage.
    pub fn set_overdrive_clamp_voltage(&mut self, voltage: u8) -> (r: Result<(), Error<I2C::Error>>)
        ensures
            carried_out(write_steps(OVERDRIVE_CLAMP, voltage), *old(self), *final(self), r),
            final(self).cached_mode() == old(self).cached_mode(),
            r is Err ==> r->Err_0 is I2c,
    {
        self.perform(write_plan(OVERDRIVE_CLAMP, voltage))
    }

    /// Selects the actuator: LRA when `is_lra`, else ERM. The rest of the
    /// feedback control register is kept.
    pub fn set_actuator_type(&mut self, is_lra: bool) -> (r: Result<(), Error<I2C::Error>>)
        ensures
            carried_out(set_actuator_type_steps(is_lra), *old(self), *final(self), r),
            final(self).cached_mode() == old(self).cached_mode(),
            r is Err ==> r->Err_0 is I2c,
    {
        self.perform(set_actuator_type_plan(is_lra))
    }

    /// Sets loop gain, brake factor and back-EMF gain (its low two bits),
    /// keeping the actuator type.
    pub fn set_feedback_control(
        &mut self,
        loop_gain: LoopGain,
        brake_factor: FbBrakeFactor,
        bemf_gain: u8,
    ) -> (r: Result<(), Error<I2C::Error>>)
        ensures
            carried_out(
                set_feedback_control_steps(loop_gain, brake_factor, bemf_gain),
                *old(self),
                *final(self),
                r,
            ),
            final(self).cached_mode() == old(self).cached_mode(),
            r is Err ==> r->Err_0 is I2c,
    {
        self.perform(set_feedback_control_plan(loop_gain, brake_factor, bemf_gain))
    }

    /// Writes the overdrive time offset of library waveforms, as a
    /// two's-complement byte.
    pub fn set_overdrive_time_offset(&mut self, offset: i8) -> (r: Result<(), Error<I2C::Error>>)
        ensures
            carried_out(write_steps(OVERDRIVE_TIME_OFFSET, offset as u8), *old(self), *final(self), r),
            final(self).cached_mode() == old(self).cached_mode(),
            r is Err ==> r->Err_0 is I2c,
    {
        self.perform(write_plan(OVERDRIVE_TIME_OFFSET, offset as u8))
    }

    /// Writes the positive sustain time offset of library waveforms, as a
    /// two's-complement byte.
    pub fn set_sustain_time_offset_positive(&mut self, offset: i8) -> (r: Result<(), Error<I2C::Error>>)
        ensures
            carried_out(write_steps(SUSTAIN_TIME_OFFSET_POS, offset as u8), *old(self), *final(self), r),
            final(self).cached_mode() == old(self).cached_mode(),
            r is Err ==> r->Err_0 is I2c,
    {
        self.perform(write_plan(SUSTAIN_TIME_OFFSET_POS, offset as u8))
    }

    /// Writes the negative sustain time offset of library waveforms, as a
    /// two's-complement byte.
    pub fn set_sustain_time_offset_negative(&mut self, offset: i8) -> (r: Result<(), Error<I2C::Error>>)
        ensures
            carried_out(write_steps(SUSTAIN_TIME_OFFSET_NEG, offset as u8), *old(self), *final(self), r),
            final(self).cached_mode() == old(self).cached_mode(),
            r is Err ==> r->Err_0 is I2c,
    {
        self.perform(write_plan(SUSTAIN_TIME_OFFSET_NEG, offset as u8))
    }

    /// Writes the brake time offset of library waveforms, as a
    /// two's-complement byte.
    pub fn set_brake_time_offset(&mut self, offset: i8) -> (r: Result<(), Error<I2C::Error>>)
        ensures
            carried_out(write_steps(BRAKE_TIME_OFFSET, offset as u8), *old(self), *final(self), r),
            final(self).cached_mode() == old(self).cached_mode(),
            r is Err ==> r->Err_0 is I2c,
    {
        self.perform(write_plan(BRAKE_TIME_OFFSET, offset as u8))
    }

    /// Sets the audio-to-vibe filter and peak time, keeping the rest of the
    /// register.
    pub fn set_audio_to_vibe_control(
        &mut self,
        filter: AthFilter,
        peak_time: AthPeakTime,
    ) -> (r: Result<(), Error<I2C::Error>>)
        ensures
            carried_out(set_audio_to_vibe_control_steps(filter, peak_time), *old(self), *final(self), r),
            final(self).cached_mode() == old(self).cached_mode(),
            r is Err ==> r->Err_0 is I2c,
    {
        self.perform(set_audio_to_vibe_control_plan(filter, peak_time))
    }

    /// Writes the audio-to-vibe minimum input level. Its order against the
    /// maximum is not checked.
    pub fn set_audio_to_vibe_min_input_level(&mut self, level: u8) -> (r: Result<(), Error<I2C::Error>>)
        ensures
            carried_out(write_steps(AUDIO_TO_VIBE_MIN_INPUT, level), *old(self), *final(self), r),
            final(self).cached_mode() == old(self).cached_mode(),
            r is Err ==> r->Err_0 is I2c,
    {
        self.perform(write_plan(AUDIO_TO_VIBE_MIN_INPUT, level))
    }

    /// Writes the audio-to-vibe maximum input level. Its order against the
    /// minimum is not checked.
    pub fn set_audio_to_vibe_max_input_level(&mut self, level: u8) -> (r: Result<(), Error<I2C::Error>>)
        ensures
            carried_out(write_steps(AUDIO_TO_VIBE_MAX_INPUT, level), *old(self), *final(self), r),
            final(self).cached_mode() == old(self).cached_mode(),
            r is Err ==> r->Err_0 is I2c,
    {
        self.perform(write_plan(AUDIO_TO_VIBE_MAX_INPUT, level))
    }

    /// Writes the audio-to-vibe minimum output drive. Its order against the
    /// maximum is not checked.
    pub fn set_audio_to_vibe_min_output_drive(&mut self, level: u8) -> (r: Result<(), Error<I2C::Error>>)
        ensures
            carried_out(write_steps(AUDIO_TO_VIBE_MIN_DRIVE, level), *old(self), *final(self), r),
            final(self).cached_mode() == old(self).cached_mode(),
            r is Err ==> r->Err_0 is I2c,
    {
        self.perform(write_plan(AUDIO_TO_VIBE_MIN_DRIVE, level))
    }

    /// Writes the audio-to-vibe maximum output drive. Its order against the
    /// minimum is not checked.
    pub fn set_audio_to_vibe_max_output_drive(&mut self, level: u8) -> (r: Result<(), Error<I2C::Error>>)
        ensures
            carried_out(write_steps(AUDIO_TO_VIBE_MAX_DRIVE, level), *old(self), *final(self), r),
            final(self).cached_mode() == old(self).cached_mode(),
            r is Err ==> r->Err_0 is I2c,
    {
        self.perform(write_plan(AUDIO_TO_VIBE_MAX_DRIVE, level))
    }

    /// Selects auto-calibration mode and starts it. Whether calibration
    /// succeeded is read later from the status register.
    pub fn start_auto_calibration(&mut self) -> (r: Result<(), Error<I2C::Error>>)
        ensures
            carried_out(start_steps(OperatingMode::AutoCalibration), *old(self), *final(self), r),
            r is Ok ==> final(self).cached_mode() == Some(OperatingMode::AutoCalibration),
            r is Err ==> final(self).cached_mode() == old(self).cached_mode() || final(self).cached_mode()
                == Some(OperatingMode::AutoCalibration),
            r is Err ==> r->Err_0 is I2c,
    {
        let r = self.perform(start_plan(OperatingMode::AutoCalibration));
        proof {
            let steps = start_steps(OperatingMode::AutoCalibration);
            assert(steps.len() == 3);
            assert(steps[0] is Update);
            assert(steps[1] is Remember);
            assert(steps[2] is Write);
            lemma_single_remember(steps, 1, *old(self), *self, r);
        }
        r
    }

    /// Selects diagnostics mode and starts it. The result is read later from
    /// the status register.
    pub fn start_diagnostics(&mut self) -> (r: Result<(), Error<I2C::Error>>)
        ensures
            carried_out(start_steps(OperatingMode::Diagnostics), *old(self), *final(self), r),
            r is Ok ==> final(self).cached_mode() == Some(OperatingMode::Diagnostics),
            r is Err ==> final(self).cached_mode() == old(self).cached_mode() || final(self).cached_mode()
                == Some(OperatingMode::Diagnostics),
            r is Err ==> r->Err_0 is I2c,
    {
        let r = self.perform(start_plan(OperatingMode::Diagnostics));
        proof {
            let steps = start_steps(OperatingMode::Diagnostics);
            assert(steps.len() == 3);
            assert(steps[0] is Update);
            assert(steps[1] is Remember);
            assert(steps[2] is Write);
            lemma_single_remember(steps, 1, *old(self), *self, r);
        }
        r
    }
}

/// After a successful `set_mode(mode)`, reading the mode register back with
/// `get_mode` gives `mode`, provided the device still holds the byte that
/// was written (nothing else changed the register in between).
pub proof fn lemma_set_mode_read_back(
    mode: OperatingMode,
    before: Seq<Access>,
    middle: Seq<Access>,
    after: Seq<Access>,
)
    requires
        ran(set_mode_steps(mode), before, middle),
        ran(mode_steps(), middle, after),
        added(middle, after)[0]->Read_value == added(before, middle)[1]->Write_value,
    ensures
        OperatingMode::spec_from_register(added(middle, after)[0]->Read_value) == mode,
{
    let t = added(before, middle);
    let s = set_mode_steps(mode);
    let u = s.drop_last();
    assert(u.drop_last() =~= Seq::<Step>::empty());
    assert(t.take(t.len() - 0) =~= t);
    assert(runs(u, t));
    assert(runs(Seq::<Step>::empty(), t.take(t.len() - 2)));
    assert(t.take(t.len() - 2).len() == 0);
    assert(t.skip(0) =~= t);
    assert(t[1] == Access::Write { address: MODE, value: updated(t[0]->Read_value, MODE_FIELD, mode.spec_code()) });
    crate::registers::lemma_mode_field_round_trip(t[0]->Read_value, mode);
}

} // verus!
