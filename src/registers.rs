//! Register addresses and the bit layout of the fields the driver touches.
//!
//! Every register of the device is one byte wide. Multi-field registers are
//! changed by read-modify-write: the driver reads the byte, replaces the bits
//! under a mask and writes the whole byte back, so sibling fields keep their
//! values.
use vstd::prelude::*;

verus! {

/// Status: device id (bits 7..5), illegal address (bit 4), diagnostic result
/// (bit 3), feedback status (bit 2), over-temperature (bit 1), over-current (bit 0).
pub const STATUS: u8 = 0x00;
/// Mode: device reset (bit 7), standby (bit 6), operating mode (bits 2..0).
pub const MODE: u8 = 0x01;
/// Real-time playback input.
pub const RTP_INPUT: u8 = 0x02;
/// Library selection: high impedance (bit 4), library (bits 2..0).
pub const LIBRARY_SELECTION: u8 = 0x03;
/// First of the eight waveform sequencer slots, which follow at consecutive addresses.
pub const WAVEFORM_SEQUENCER: u8 = 0x04;
/// Go: the trigger bit (bit 0).
pub const GO: u8 = 0x0C;
/// Overdrive time offset.
pub const OVERDRIVE_TIME_OFFSET: u8 = 0x0D;
/// Sustain time offset, positive.
pub const SUSTAIN_TIME_OFFSET_POS: u8 = 0x0E;
/// Sustain time offset, negative.
pub const SUSTAIN_TIME_OFFSET_NEG: u8 = 0x0F;
/// Brake time offset.
pub const BRAKE_TIME_OFFSET: u8 = 0x10;
/// Audio-to-vibe control: peak time (bits 3..2), filter (bits 1..0).
pub const AUDIO_TO_VIBE_CONTROL: u8 = 0x11;
/// Audio-to-vibe minimum input level.
pub const AUDIO_TO_VIBE_MIN_INPUT: u8 = 0x12;
/// Audio-to-vibe maximum input level.
pub const AUDIO_TO_VIBE_MAX_INPUT: u8 = 0x13;
/// Audio-to-vibe minimum output drive.
pub const AUDIO_TO_VIBE_MIN_DRIVE: u8 = 0x14;
/// Audio-to-vibe maximum output drive.
pub const AUDIO_TO_VIBE_MAX_DRIVE: u8 = 0x15;
/// Rated voltage.
pub const RATED_VOLTAGE: u8 = 0x16;
/// Overdrive clamp voltage.
pub const OVERDRIVE_CLAMP: u8 = 0x17;
/// Feedback control: actuator type (bit 7), brake factor (bits 6..4),
/// loop gain (bits 3..2), back-EMF gain (bits 1..0).
pub const FEEDBACK_CONTROL: u8 = 0x1A;
/// Control 3: ERM open loop (bit 5) among others.
pub const CONTROL_3: u8 = 0x1D;

/// Number of waveform sequencer slots.
pub const SEQUENCER_SLOTS: usize = 8;

/// Mask of the mode field in the mode register.
pub const MODE_FIELD: u8 = 0x07;
/// Standby bit of the mode register.
pub const STANDBY_BIT: u8 = 0x40;
/// Device reset bit of the mode register.
pub const DEV_RESET_BIT: u8 = 0x80;
/// Mask of the library field in the library selection register.
pub const LIBRARY_FIELD: u8 = 0x07;
/// High-impedance bit of the library selection register.
pub const HI_Z_BIT: u8 = 0x10;
/// Actuator type bit of the feedback control register (set: LRA, clear: ERM).
pub const N_ERM_LRA_BIT: u8 = 0x80;
/// Brake factor, loop gain and back-EMF gain fields of the feedback control register.
pub const FEEDBACK_GAIN_FIELDS: u8 = 0x7F;
/// ERM open-loop bit of control 3.
pub const ERM_OPEN_LOOP_BIT: u8 = 0x20;
/// Filter and peak time fields of the audio-to-vibe control register.
pub const AUDIO_TO_VIBE_FIELDS: u8 = 0x0F;
/// The trigger bit of the go register.
pub const GO_BIT: u8 = 0x01;

/// The device id in a status register value (bits 7..5).
pub open spec fn device_id_of(status: u8) -> u8 {
    status >> 5u8
}

/// The ids of the four variants of the family: 3 (DRV2605), 4 (DRV2604),
/// 6 (DRV2604L) and 7 (DRV2605L).
pub open spec fn is_known_device_id(id: u8) -> bool {
    id == 3 || id == 4 || id == 6 || id == 7
}

/// The device id in a status register value.
pub fn device_id(status: u8) -> (r: u8)
    ensures
        r == device_id_of(status),
{
    status >> 5u8
}

/// Whether `id` is the id of a variant of the family.
pub fn is_known(id: u8) -> (r: bool)
    ensures
        r == is_known_device_id(id),
{
    id == 3 || id == 4 || id == 6 || id == 7
}

/// The byte that a read-modify-write leaves: the bits under `mask` replaced by `bits`.
pub open spec fn updated(current: u8, mask: u8, bits: u8) -> u8 {
    (current & !mask) | (bits & mask)
}

/// `bit` when `on`, else no bit.
pub open spec fn flag(on: bool, bit: u8) -> u8 {
    if on { bit } else { 0 }
}

/// Replaces the bits under `mask` by those of `bits`.
pub fn update_bits(current: u8, mask: u8, bits: u8) -> (r: u8)
    ensures
        r == updated(current, mask, bits),
{
    (current & !mask) | (bits & mask)
}

/// Operating mode: the 3-bit mode field of the mode register.
#[derive(Debug, Clone, Copy, PartialEq, Eq, Structural)]
pub enum OperatingMode {
    /// Internal trigger: playback starts on the go bit.
    Internal,
    /// External trigger, edge mode.
    ExternalEdge,
    /// External trigger, level mode.
    ExternalLevel,
    /// PWM or analog input.
    PwmAnalog,
    /// Audio-to-vibe.
    AudioToVibe,
    /// Real-time playback.
    RealTimePlayback,
    /// Diagnostics.
    Diagnostics,
    /// Auto calibration.
    AutoCalibration,
}

impl OperatingMode {
    /// The field's code.
    pub open spec fn spec_code(self) -> u8 {
        match self {
            OperatingMode::Internal => 0,
            OperatingMode::ExternalEdge => 1,
            OperatingMode::ExternalLevel => 2,
            OperatingMode::PwmAnalog => 3,
            OperatingMode::AudioToVibe => 4,
            OperatingMode::RealTimePlayback => 5,
            OperatingMode::Diagnostics => 6,
            OperatingMode::AutoCalibration => 7,
        }
    }

    /// The mode whose code is `code`, which is below 8.
    pub open spec fn spec_from_code(code: u8) -> OperatingMode {
        if code == 0 {
            OperatingMode::Internal
        } else if code == 1 {
            OperatingMode::ExternalEdge
        } else if code == 2 {
            OperatingMode::ExternalLevel
        } else if code == 3 {
            OperatingMode::PwmAnalog
        } else if code == 4 {
            OperatingMode::AudioToVibe
        } else if code == 5 {
            OperatingMode::RealTimePlayback
        } else if code == 6 {
            OperatingMode::Diagnostics
        } else {
            OperatingMode::AutoCalibration
        }
    }

    /// The mode that a mode register value holds.
    pub open spec fn spec_from_register(value: u8) -> OperatingMode {
        Self::spec_from_code(value & MODE_FIELD)
    }

    /// The field's code.
    pub fn code(self) -> (r: u8)
        ensures
            r == self.spec_code(),
    {
        match self {
            OperatingMode::Internal => 0,
            OperatingMode::ExternalEdge => 1,
            OperatingMode::ExternalLevel => 2,
            OperatingMode::PwmAnalog => 3,
            OperatingMode::AudioToVibe => 4,
            OperatingMode::RealTimePlayback => 5,
            OperatingMode::Diagnostics => 6,
            OperatingMode::AutoCalibration => 7,
        }
    }

    /// Decodes the mode field of a mode register value.
    pub fn from_register(value: u8) -> (r: OperatingMode)
        ensures
            r == Self::spec_from_register(value),
    {
        let code = value & MODE_FIELD;
        if code == 0 {
            OperatingMode::Internal
        } else if code == 1 {
            OperatingMode::ExternalEdge
        } else if code == 2 {
            OperatingMode::ExternalLevel
        } else if code == 3 {
            OperatingMode::PwmAnalog
        } else if code == 4 {
            OperatingMode::AudioToVibe
        } else if code == 5 {
            OperatingMode::RealTimePlayback
        } else if code == 6 {
            OperatingMode::Diagnostics
        } else {
            OperatingMode::AutoCalibration
        }
    }
}

/// Writing a mode into the mode field and decoding the field gives the mode
/// back, whatever the other bits of the register held.
pub proof fn lemma_mode_field_round_trip(current: u8, mode: OperatingMode)
    ensures
        OperatingMode::spec_from_register(updated(current, MODE_FIELD, mode.spec_code())) == mode,
{
    let c = mode.spec_code();
    assert(c <= 7);
    assert(((current & !7u8) | (c & 7u8)) & 7u8 == c) by (bit_vector)
        requires
            c <= 7,
    ;
}

/// Waveform library: the 3-bit library field of the library selection register.
#[derive(Debug, Clone, Copy, PartialEq, Eq, Structural)]
pub enum LibrarySelection {
    /// Empty library.
    Empty,
    /// ERM library A.
    LibraryA,
    /// ERM library B.
    LibraryB,
    /// ERM library C.
    LibraryC,
    /// ERM library D.
    LibraryD,
    /// ERM library E.
    LibraryE,
    /// LRA library.
    Lra,
    /// ERM library F.
    LibraryF,
}

impl LibrarySelection {
    /// The field's code.
    pub open spec fn spec_code(self) -> u8 {
        match self {
            LibrarySelection::Empty => 0,
            LibrarySelection::LibraryA => 1,
            LibrarySelection::LibraryB => 2,
            LibrarySelection::LibraryC => 3,
            LibrarySelection::LibraryD => 4,
            LibrarySelection::LibraryE => 5,
            LibrarySelection::Lra => 6,
            LibrarySelection::LibraryF => 7,
        }
    }

    /// The field's code.
    pub fn code(self) -> (r: u8)
        ensures
            r == self.spec_code(),
    {
        match self {
            LibrarySelection::Empty => 0,
            LibrarySelection::LibraryA => 1,
            LibrarySelection::LibraryB => 2,
            LibrarySelection::LibraryC => 3,
            LibrarySelection::LibraryD => 4,
            LibrarySelection::LibraryE => 5,
            LibrarySelection::Lra => 6,
            LibrarySelection::LibraryF => 7,
        }
    }
}

/// Feedback loop gain: bits 3..2 of the feedback control register.
#[derive(Debug, Clone, Copy, PartialEq, Eq, Structural)]
pub enum LoopGain {
    /// Low.
    Low,
    /// Medium.
    Medium,
    /// High.
    High,
    /// Very high.
    VeryHigh,
}

impl LoopGain {
    /// The field's code.
    pub open spec fn spec_code(self) -> u8 {
        match self {
            LoopGain::Low => 0,
            LoopGain::Medium => 1,
            LoopGain::High => 2,
            LoopGain::VeryHigh => 3,
        }
    }

    /// The field's code.
    pub fn code(self) -> (r: u8)
        ensures
            r == self.spec_code(),
    {
        match self {
            LoopGain::Low => 0,
            LoopGain::Medium => 1,
            LoopGain::High => 2,
            LoopGain::VeryHigh => 3,
        }
    }
}

/// Feedback brake factor: bits 6..4 of the feedback control register.
#[derive(Debug, Clone, Copy, PartialEq, Eq, Structural)]
pub enum FbBrakeFactor {
    /// 1x.
    X1,
    /// 2x.
    X2,
    /// 3x.
    X3,
    /// 4x.
    X4,
    /// 6x.
    X6,
    /// 8x.
    X8,
    /// 16x.
    X16,
    /// Braking disabled.
    Disabled,
}

impl FbBrakeFactor {
    /// The field's code.
    pub open spec fn spec_code(self) -> u8 {
        match self {
            FbBrakeFactor::X1 => 0,
            FbBrakeFactor::X2 => 1,
            FbBrakeFactor::X3 => 2,
            FbBrakeFactor::X4 => 3,
            FbBrakeFactor::X6 => 4,
            FbBrakeFactor::X8 => 5,
            FbBrakeFactor::X16 => 6,
            FbBrakeFactor::Disabled => 7,
        }
    }

    /// The field's code.
    pub fn code(self) -> (r: u8)
        ensures
            r == self.spec_code(),
    {
        match self {
            FbBrakeFactor::X1 => 0,
            FbBrakeFactor::X2 => 1,
            FbBrakeFactor::X3 => 2,
            FbBrakeFactor::X4 => 3,
            FbBrakeFactor::X6 => 4,
            FbBrakeFactor::X8 => 5,
            FbBrakeFactor::X16 => 6,
            FbBrakeFactor::Disabled => 7,
        }
    }
}

/// Audio-to-vibe low-pass filter: bits 1..0 of the audio-to-vibe control register.
#[derive(Debug, Clone, Copy, PartialEq, Eq, Structural)]
pub enum AthFilter {
    /// 125 Hz.
    Hz125,
    /// 150 Hz.
    Hz150,
    /// 200 Hz.
    Hz200,
    /// 250 Hz.
    Hz250,
}

impl AthFilter {
    /// The field's code.
    pub open spec fn spec_code(self) -> u8 {
        match self {
            AthFilter::Hz125 => 0,
            AthFilter::Hz150 => 1,
            AthFilter::Hz200 => 2,
            AthFilter::Hz250 => 3,
        }
    }

    /// The field's code.
    pub fn code(self) -> (r: u8)
        ensures
            r == self.spec_code(),
    {
        match self {
            AthFilter::Hz125 => 0,
            AthFilter::Hz150 => 1,
            AthFilter::Hz200 => 2,
            AthFilter::Hz250 => 3,
        }
    }
}

/// Audio-to-vibe peak detection time: bits 3..2 of the audio-to-vibe control register.
#[derive(Debug, Clone, Copy, PartialEq, Eq, Structural)]
pub enum AthPeakTime {
    /// 10 ms.
    Ms10,
    /// 20 ms.
    Ms20,
    /// 30 ms.
    Ms30,
    /// 40 ms.
    Ms40,
}

impl AthPeakTime {
    /// The field's code.
    pub open spec fn spec_code(self) -> u8 {
        match self {
            AthPeakTime::Ms10 => 0,
            AthPeakTime::Ms20 => 1,
            AthPeakTime::Ms30 => 2,
            AthPeakTime::Ms40 => 3,
        }
    }

    /// The field's code.
    pub fn code(self) -> (r: u8)
        ensures
            r == self.spec_code(),
    {
        match self {
            AthPeakTime::Ms10 => 0,
            AthPeakTime::Ms20 => 1,
            AthPeakTime::Ms30 => 2,
            AthPeakTime::Ms40 => 3,
        }
    }
}

/// The byte that the feedback gain fields take.
pub open spec fn feedback_gain_bits(loop_gain: LoopGain, brake_factor: FbBrakeFactor, bemf_gain: u8) -> u8 {
    (brake_factor.spec_code() << 4u8) | (loop_gain.spec_code() << 2u8) | (bemf_gain & 0x3)
}

/// Packs brake factor, loop gain and the low two bits of the back-EMF gain.
pub fn pack_feedback_gains(loop_gain: LoopGain, brake_factor: FbBrakeFactor, bemf_gain: u8) -> (r: u8)
    ensures
        r == feedback_gain_bits(loop_gain, brake_factor, bemf_gain),
{
    (brake_factor.code() << 4u8) | (loop_gain.code() << 2u8) | (bemf_gain & 0x3)
}

/// The byte that the audio-to-vibe control fields take.
pub open spec fn audio_to_vibe_bits(filter: AthFilter, peak_time: AthPeakTime) -> u8 {
    (peak_time.spec_code() << 2u8) | filter.spec_code()
}

/// Packs peak time and filter.
pub fn pack_audio_to_vibe(filter: AthFilter, peak_time: AthPeakTime) -> (r: u8)
    ensures
        r == audio_to_vibe_bits(filter, peak_time),
{
    (peak_time.code() << 2u8) | filter.code()
}

} // verus!
