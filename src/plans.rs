//! The register program of each driver operation.
//!
//! For each operation a spec function whose name ends in `_steps` states
//! its steps, and the function whose name ends in `_plan` builds them. Both the blocking driver and a
//! non-blocking one run these programs through an
//! [`Execution`](crate::sequencer::Execution).
use crate::effects::WaveformEntry;
use crate::registers::{
    audio_to_vibe_bits, feedback_gain_bits, flag, pack_audio_to_vibe, pack_feedback_gains, AthFilter,
    AthPeakTime, FbBrakeFactor, LibrarySelection, LoopGain, OperatingMode, AUDIO_TO_VIBE_CONTROL,
    AUDIO_TO_VIBE_FIELDS, CONTROL_3, DEV_RESET_BIT, ERM_OPEN_LOOP_BIT, FEEDBACK_CONTROL,
    FEEDBACK_GAIN_FIELDS, GO, HI_Z_BIT, LIBRARY_FIELD, LIBRARY_SELECTION, MODE, MODE_FIELD,
    N_ERM_LRA_BIT, SEQUENCER_SLOTS, STANDBY_BIT, STATUS, WAVEFORM_SEQUENCER, GO_BIT,
};
use crate::sequencer::{lemma_runs_writes, runs, Step};
use crate::transport::Access;
use vstd::prelude::*;

verus! {

/// Read the status register.
pub open spec fn status_steps() -> Seq<Step> {
    seq![Step::Read { address: STATUS }]
}

/// Read the mode register.
pub open spec fn mode_steps() -> Seq<Step> {
    seq![Step::Read { address: MODE }]
}

/// Read the go register.
pub open spec fn go_state_steps() -> Seq<Step> {
    seq![Step::Read { address: GO }]
}

/// Replace the mode field by the mode's code, then remember the mode.
pub open spec fn set_mode_steps(mode: OperatingMode) -> Seq<Step> {
    seq![
        Step::Update { address: MODE, mask: MODE_FIELD, bits: mode.spec_code() },
        Step::Remember { mode: Some(mode) },
    ]
}

/// Set or clear the standby bit.
pub open spec fn set_standby_steps(standby: bool) -> Seq<Step> {
    seq![Step::Update { address: MODE, mask: STANDBY_BIT, bits: flag(standby, STANDBY_BIT) }]
}

/// Check the device id, leave standby, then select internal trigger mode.
pub open spec fn init_steps() -> Seq<Step> {
    seq![Step::Identify] + set_standby_steps(false) + set_mode_steps(OperatingMode::Internal)
}

/// `init_steps`, then the actuator type set to ERM, the ERM open-loop bit
/// set, and a sequence that plays strong click (effect 1) once.
pub open spec fn open_loop_erm_steps() -> Seq<Step> {
    init_steps() + set_actuator_type_steps(false) + erm_open_loop_steps() + waveform_sequence_steps(
        single_effect_entries(1),
    )
}

/// Select `mode`, then set the go bit.
pub open spec fn start_steps(mode: OperatingMode) -> Seq<Step> {
    set_mode_steps(mode) + write_steps(GO, GO_BIT)
}

/// Set the device reset bit, then forget the remembered mode.
pub open spec fn reset_steps() -> Seq<Step> {
    seq![
        Step::Update { address: MODE, mask: DEV_RESET_BIT, bits: DEV_RESET_BIT },
        Step::Remember { mode: None },
    ]
}

/// Replace the library field by the library's code.
pub open spec fn set_library_steps(library: LibrarySelection) -> Seq<Step> {
    seq![Step::Update { address: LIBRARY_SELECTION, mask: LIBRARY_FIELD, bits: library.spec_code() }]
}

/// Set or clear the high-impedance bit.
pub open spec fn set_high_impedance_steps(hi_z: bool) -> Seq<Step> {
    seq![Step::Update { address: LIBRARY_SELECTION, mask: HI_Z_BIT, bits: flag(hi_z, HI_Z_BIT) }]
}

/// Write the entry into sequencer slot `index`.
pub open spec fn waveform_entry_steps(index: u8, entry: WaveformEntry) -> Seq<Step> {
    seq![Step::Write { address: (WAVEFORM_SEQUENCER + index) as u8, value: entry.spec_register_value() }]
}

/// The byte that slot `i` receives when `entries` is programmed: the entry's
/// byte, or the stop entry's (0) past the end of `entries`.
pub open spec fn slot_value(entries: Seq<WaveformEntry>, i: int) -> u8 {
    if i < entries.len() {
        entries[i].spec_register_value()
    } else {
        0
    }
}

/// Write every one of the eight sequencer slots, in order: the entries
/// first, then stop entries up to the last slot.
pub open spec fn waveform_sequence_steps(entries: Seq<WaveformEntry>) -> Seq<Step> {
    Seq::new(
        SEQUENCER_SLOTS as nat,
        |i: int| Step::Write { address: (WAVEFORM_SEQUENCER + i) as u8, value: slot_value(entries, i) },
    )
}

/// The sequence that plays one effect and stops.
pub open spec fn single_effect_entries(effect_id: u8) -> Seq<WaveformEntry> {
    seq![WaveformEntry { value: effect_id & 0x7F, is_wait: false }, WaveformEntry { value: 0, is_wait: false }]
}

/// Write `value` to register `address`.
pub open spec fn write_steps(address: u8, value: u8) -> Seq<Step> {
    seq![Step::Write { address, value }]
}

/// Set (LRA) or clear (ERM) the actuator type bit.
pub open spec fn set_actuator_type_steps(is_lra: bool) -> Seq<Step> {
    seq![Step::Update { address: FEEDBACK_CONTROL, mask: N_ERM_LRA_BIT, bits: flag(is_lra, N_ERM_LRA_BIT) }]
}

/// Replace brake factor, loop gain and back-EMF gain.
pub open spec fn set_feedback_control_steps(
    loop_gain: LoopGain,
    brake_factor: FbBrakeFactor,
    bemf_gain: u8,
) -> Seq<Step> {
    seq![
        Step::Update {
            address: FEEDBACK_CONTROL,
            mask: FEEDBACK_GAIN_FIELDS,
            bits: feedback_gain_bits(loop_gain, brake_factor, bemf_gain),
        },
    ]
}

/// Replace the audio-to-vibe filter and peak time.
pub open spec fn set_audio_to_vibe_control_steps(filter: AthFilter, peak_time: AthPeakTime) -> Seq<Step> {
    seq![
        Step::Update {
            address: AUDIO_TO_VIBE_CONTROL,
            mask: AUDIO_TO_VIBE_FIELDS,
            bits: audio_to_vibe_bits(filter, peak_time),
        },
    ]
}

/// Set the ERM open-loop bit.
pub open spec fn erm_open_loop_steps() -> Seq<Step> {
    seq![Step::Update { address: CONTROL_3, mask: ERM_OPEN_LOOP_BIT, bits: ERM_OPEN_LOOP_BIT }]
}

/// Builds the program of one step.
fn one(step: Step) -> (r: Vec<Step>)
    ensures
        r@ == seq![step],
{
    let mut r: Vec<Step> = Vec::new();
    r.push(step);
    r
}

/// Joins two programs.
fn join(first: Vec<Step>, second: Vec<Step>) -> (r: Vec<Step>)
    ensures
        r@ == first@ + second@,
{
    let mut r = first;
    let mut i: usize = 0;
    while i < second.len()
        invariant
            i <= second@.len(),
            r@ == first@ + second@.take(i as int),
        decreases second@.len() - i,
    {
        r.push(second[i]);
        assert(second@.take(i + 1) =~= second@.take(i as int).push(second@[i as int]));
        i = i + 1;
    }
    assert(second@.take(second@.len() as int) =~= second@);
    r
}

/// Builds [`status_steps`].
pub fn status_plan() -> (r: Vec<Step>)
    ensures
        r@ == status_steps(),
{
    one(Step::Read { address: STATUS })
}

/// Builds [`mode_steps`].
pub fn mode_plan() -> (r: Vec<Step>)
    ensures
        r@ == mode_steps(),
{
    one(Step::Read { address: MODE })
}

/// Builds [`go_state_steps`].
pub fn go_state_plan() -> (r: Vec<Step>)
    ensures
        r@ == go_state_steps(),
{
    one(Step::Read { address: GO })
}

/// Builds [`set_mode_steps`].
pub fn set_mode_plan(mode: OperatingMode) -> (r: Vec<Step>)
    ensures
        r@ == set_mode_steps(mode),
{
    let mut r = one(Step::Update { address: MODE, mask: MODE_FIELD, bits: mode.code() });
    r.push(Step::Remember { mode: Some(mode) });
    assert(r@ =~= set_mode_steps(mode));
    r
}

/// Builds [`init_steps`].
pub fn init_plan() -> (r: Vec<Step>)
    ensures
        r@ == init_steps(),
{
    join(join(one(Step::Identify), set_standby_plan(false)), set_mode_plan(OperatingMode::Internal))
}

/// Builds [`open_loop_erm_steps`].
pub fn open_loop_erm_plan() -> (r: Vec<Step>)
    ensures
        r@ == open_loop_erm_steps(),
{
    let effect: [WaveformEntry; 2] = [WaveformEntry::effect(1), WaveformEntry::stop()];
    assert(effect@ =~= single_effect_entries(1));
    let sequence = waveform_sequence_plan(&effect).unwrap();
    join(join(join(init_plan(), set_actuator_type_plan(false)), erm_open_loop_plan()), sequence)
}

/// Builds [`start_steps`].
pub fn start_plan(mode: OperatingMode) -> (r: Vec<Step>)
    ensures
        r@ == start_steps(mode),
{
    join(set_mode_plan(mode), write_plan(GO, GO_BIT))
}

/// Builds [`set_standby_steps`].
pub fn set_standby_plan(standby: bool) -> (r: Vec<Step>)
    ensures
        r@ == set_standby_steps(standby),
{
    let bits = if standby { STANDBY_BIT } else { 0 };
    one(Step::Update { address: MODE, mask: STANDBY_BIT, bits })
}

/// Builds [`reset_steps`].
pub fn reset_plan() -> (r: Vec<Step>)
    ensures
        r@ == reset_steps(),
{
    let mut r = one(Step::Update { address: MODE, mask: DEV_RESET_BIT, bits: DEV_RESET_BIT });
    r.push(Step::Remember { mode: None });
    assert(r@ =~= reset_steps());
    r
}

/// Builds [`set_library_steps`].
pub fn set_library_plan(library: LibrarySelection) -> (r: Vec<Step>)
    ensures
        r@ == set_library_steps(library),
{
    one(Step::Update { address: LIBRARY_SELECTION, mask: LIBRARY_FIELD, bits: library.code() })
}

/// Builds [`set_high_impedance_steps`].
pub fn set_high_impedance_plan(hi_z: bool) -> (r: Vec<Step>)
    ensures
        r@ == set_high_impedance_steps(hi_z),
{
    let bits = if hi_z { HI_Z_BIT } else { 0 };
    one(Step::Update { address: LIBRARY_SELECTION, mask: HI_Z_BIT, bits })
}

/// Builds [`waveform_entry_steps`]; `None` when `index` is not a slot (above 7).
pub fn waveform_entry_plan(index: u8, entry: WaveformEntry) -> (r: Option<Vec<Step>>)
    ensures
        match r {
            Some(p) => index < 8 && p@ == waveform_entry_steps(index, entry),
            None => index >= 8,
        },
{
    if index >= 8 {
        return None;
    }
    Some(one(Step::Write { address: WAVEFORM_SEQUENCER + index, value: entry.register_value() }))
}

/// Builds [`waveform_sequence_steps`]; `None` when there are more entries
/// than slots (more than 8).
pub fn waveform_sequence_plan(entries: &[WaveformEntry]) -> (r: Option<Vec<Step>>)
    ensures
        match r {
            Some(p) => entries@.len() <= 8 && p@ == waveform_sequence_steps(entries@),
            None => entries@.len() > 8,
        },
{
    if entries.len() > SEQUENCER_SLOTS {
        return None;
    }
    let mut steps: Vec<Step> = Vec::new();
    let mut i: usize = 0;
    while i < SEQUENCER_SLOTS
        invariant
            i <= SEQUENCER_SLOTS,
            entries@.len() <= SEQUENCER_SLOTS,
            steps@ =~= waveform_sequence_steps(entries@).take(i as int),
        decreases SEQUENCER_SLOTS - i,
    {
        let value = if i < entries.len() {
            entries[i].register_value()
        } else {
            WaveformEntry::stop().register_value()
        };
        assert(value == slot_value(entries@, i as int)) by {
            assert(0u8 | (0u8 & 0x7Fu8) == 0u8) by (bit_vector);
        }
        steps.push(Step::Write { address: WAVEFORM_SEQUENCER + i as u8, value });
        assert(steps@ =~= waveform_sequence_steps(entries@).take(i + 1));
        i = i + 1;
    }
    assert(waveform_sequence_steps(entries@).take(8) =~= waveform_sequence_steps(entries@));
    Some(steps)
}

/// Builds [`write_steps`].
pub fn write_plan(address: u8, value: u8) -> (r: Vec<Step>)
    ensures
        r@ == write_steps(address, value),
{
    one(Step::Write { address, value })
}

/// Builds [`set_actuator_type_steps`].
pub fn set_actuator_type_plan(is_lra: bool) -> (r: Vec<Step>)
    ensures
        r@ == set_actuator_type_steps(is_lra),
{
    let bits = if is_lra { N_ERM_LRA_BIT } else { 0 };
    one(Step::Update { address: FEEDBACK_CONTROL, mask: N_ERM_LRA_BIT, bits })
}

/// Builds [`set_feedback_control_steps`].
pub fn set_feedback_control_plan(loop_gain: LoopGain, brake_factor: FbBrakeFactor, bemf_gain: u8) -> (r: Vec<
    Step,
>)
    ensures
        r@ == set_feedback_control_steps(loop_gain, brake_factor, bemf_gain),
{
    let bits = pack_feedback_gains(loop_gain, brake_factor, bemf_gain);
    one(Step::Update { address: FEEDBACK_CONTROL, mask: FEEDBACK_GAIN_FIELDS, bits })
}

/// Builds [`set_audio_to_vibe_control_steps`].
pub fn set_audio_to_vibe_control_plan(filter: AthFilter, peak_time: AthPeakTime) -> (r: Vec<Step>)
    ensures
        r@ == set_audio_to_vibe_control_steps(filter, peak_time),
{
    let bits = pack_audio_to_vibe(filter, peak_time);
    one(Step::Update { address: AUDIO_TO_VIBE_CONTROL, mask: AUDIO_TO_VIBE_FIELDS, bits })
}

/// Builds [`erm_open_loop_steps`].
pub fn erm_open_loop_plan() -> (r: Vec<Step>)
    ensures
        r@ == erm_open_loop_steps(),
{
    one(Step::Update { address: CONTROL_3, mask: ERM_OPEN_LOOP_BIT, bits: ERM_OPEN_LOOP_BIT })
}

/// The write of `value` into sequencer slot `i`.
pub open spec fn slot_write(i: int, value: u8) -> Access {
    Access::Write { address: (WAVEFORM_SEQUENCER + i) as u8, value }
}

/// The entry that ends a sequence.
pub open spec fn stop_entry() -> WaveformEntry {
    WaveformEntry { value: 0, is_wait: false }
}

/// Programming a sequence of at most 8 entries writes the eight slots in
/// order, each exactly once, and makes no other access: slot `i` receives
/// the byte of entry `i`, or the stop byte past the last entry.
pub proof fn lemma_sequence_writes(entries: Seq<WaveformEntry>, t: Seq<Access>)
    requires
        entries.len() <= 8,
        runs(waveform_sequence_steps(entries), t),
    ensures
        t.len() == 8,
        forall|i: int|
            0 <= i < 8 ==> #[trigger] t[i] == slot_write(i, slot_value(entries, i)),
{
    let steps = waveform_sequence_steps(entries);
    lemma_runs_writes(steps, t);
}

/// Programming the empty sequence leaves a stop entry in every one of the
/// eight slots.
pub proof fn lemma_empty_sequence_clears(t: Seq<Access>)
    requires
        runs(waveform_sequence_steps(Seq::<WaveformEntry>::empty()), t),
    ensures
        t.len() == 8,
        forall|i: int|
            0 <= i < 8 ==> #[trigger] t[i] == slot_write(i, stop_entry().spec_register_value()),
{
    lemma_sequence_writes(Seq::<WaveformEntry>::empty(), t);
    assert((0u8 | (0u8 & 0x7Fu8)) == 0u8) by (bit_vector);
}

/// Programming a full sequence of 8 entries writes exactly the eight
/// entries and no trailing stop entry.
pub proof fn lemma_full_sequence_writes_entries_only(entries: Seq<WaveformEntry>, t: Seq<Access>)
    requires
        entries.len() == 8,
        runs(waveform_sequence_steps(entries), t),
    ensures
        t.len() == 8,
        forall|i: int|
            0 <= i < 8 ==> #[trigger] t[i] == slot_write(i, entries[i].spec_register_value()),
{
    lemma_sequence_writes(entries, t);
}

} // verus!
