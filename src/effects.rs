//! The device's effect library and the waveform sequencer's entries.
use vstd::prelude::*;

verus! {

/// The predefined effects of the device's ROM library.
///
/// Each names one waveform of the library; `id` gives the number by which
/// the sequencer plays it (1 to 123).
#[derive(Debug, Clone, Copy, PartialEq, Eq, Structural)]
pub enum Effect {
    /// Strong Click - 100%
    StrongClick100,
    /// Strong Click - 60%
    StrongClick60,
    /// Strong Click - 30%
    StrongClick30,
    /// Sharp Click - 100%
    SharpClick100,
    /// Sharp Click - 60%
    SharpClick60,
    /// Sharp Click - 30%
    SharpClick30,
    /// Soft Bump - 100%
    SoftBump100,
    /// Soft Bump - 60%
    SoftBump60,
    /// Soft Bump - 30%
    SoftBump30,
    /// Double Click - 100%
    DoubleClick100,
    /// Double Click - 60%
    DoubleClick60,
    /// Triple Click - 100%
    TripleClick100,
    /// Soft Fuzz - 60%
    SoftFuzz60,
    /// Strong Buzz - 100%
    StrongBuzz100,
    /// 750 ms Alert 100%
    Alert750ms,
    /// 1000 ms Alert 100%
    Alert1000ms,
    /// Strong Click 1 - 100%
    StrongClick1_100,
    /// Strong Click 2 - 80%
    StrongClick2_80,
    /// Strong Click 3 - 60%
    StrongClick3_60,
    /// Strong Click 4 - 30%
    StrongClick4_30,
    /// Medium Click 1 - 100%
    MediumClick1_100,
    /// Medium Click 2 - 80%
    MediumClick2_80,
    /// Medium Click 3 - 60%
    MediumClick3_60,
    /// Sharp Tick 1 - 100%
    SharpTick1_100,
    /// Sharp Tick 2 - 80%
    SharpTick2_80,
    /// Sharp Tick 3 - 60%
    SharpTick3_60,
    /// Short Double Click Strong 1 - 100%
    ShortDoubleClickStrong1_100,
    /// Short Double Click Strong 2 - 80%
    ShortDoubleClickStrong2_80,
    /// Short Double Click Strong 3 - 60%
    ShortDoubleClickStrong3_60,
    /// Short Double Click Strong 4 - 30%
    ShortDoubleClickStrong4_30,
    /// Short Double Click Medium 1 - 100%
    ShortDoubleClickMedium1_100,
    /// Short Double Click Medium 2 - 80%
    ShortDoubleClickMedium2_80,
    /// Short Double Click Medium 3 - 60%
    ShortDoubleClickMedium3_60,
    /// Short Double Sharp Tick 1 - 100%
    ShortDoubleSharpTick1_100,
    /// Short Double Sharp Tick 2 - 80%
    ShortDoubleSharpTick2_80,
    /// Short Double Sharp Tick 3 - 60%
    ShortDoubleSharpTick3_60,
    /// Long Double Sharp Click Strong 1 - 100%
    LongDoubleSharpClickStrong1_100,
    /// Long Double Sharp Click Strong 2 - 80%
    LongDoubleSharpClickStrong2_80,
    /// Long Double Sharp Click Strong 3 - 60%
    LongDoubleSharpClickStrong3_60,
    /// Long Double Sharp Click Strong 4 - 30%
    LongDoubleSharpClickStrong4_30,
    /// Long Double Sharp Click Medium 1 - 100%
    LongDoubleSharpClickMedium1_100,
    /// Long Double Sharp Click Medium 2 - 80%
    LongDoubleSharpClickMedium2_80,
    /// Long Double Sharp Click Medium 3 - 60%
    LongDoubleSharpClickMedium3_60,
    /// Long Double Sharp Tick 1 - 100%
    LongDoubleSharpTick1_100,
    /// Long Double Sharp Tick 2 - 80%
    LongDoubleSharpTick2_80,
    /// Long Double Sharp Tick 3 - 60%
    LongDoubleSharpTick3_60,
    /// Buzz 1 - 100%
    Buzz1_100,
    /// Buzz 2 - 80%
    Buzz2_80,
    /// Buzz 3 - 60%
    Buzz3_60,
    /// Buzz 4 - 40%
    Buzz4_40,
    /// Buzz 5 - 20%
    Buzz5_20,
    /// Pulsing Strong 1 - 100%
    PulsingStrong1_100,
    /// Pulsing Strong 2 - 60%
    PulsingStrong2_60,
    /// Pulsing Medium 1 - 100%
    PulsingMedium1_100,
    /// Pulsing Medium 2 - 60%
    PulsingMedium2_60,
    /// Pulsing Sharp 1 - 100%
    PulsingSharp1_100,
    /// Pulsing Sharp 2 - 60%
    PulsingSharp2_60,
    /// Transition Click 1 - 100%
    TransitionClick1_100,
    /// Transition Click 2 - 80%
    TransitionClick2_80,
    /// Transition Click 3 - 60%
    TransitionClick3_60,
    /// Transition Click 4 - 40%
    TransitionClick4_40,
    /// Transition Click 5 - 20%
    TransitionClick5_20,
    /// Transition Click 6 - 10%
    TransitionClick6_10,
    /// Transition Hum 1 - 100%
    TransitionHum1_100,
    /// Transition Hum 2 - 80%
    TransitionHum2_80,
    /// Transition Hum 3 - 60%
    TransitionHum3_60,
    /// Transition Hum 4 - 40%
    TransitionHum4_40,
    /// Transition Hum 5 - 20%
    TransitionHum5_20,
    /// Transition Hum 6 - 10%
    TransitionHum6_10,
    /// Transition Ramp Down Long Smooth 1 - 100 to 0%
    TransitionRampDownLongSmooth1_100to0,
    /// Transition Ramp Down Long Smooth 2 - 100 to 0%
    TransitionRampDownLongSmooth2_100to0,
    /// Transition Ramp Down Medium Smooth 1 - 100 to 0%
    TransitionRampDownMediumSmooth1_100to0,
    /// Transition Ramp Down Medium Smooth 2 - 100 to 0%
    TransitionRampDownMediumSmooth2_100to0,
    /// Transition Ramp Down Short Smooth 1 - 100 to 0%
    TransitionRampDownShortSmooth1_100to0,
    /// Transition Ramp Down Short Smooth 2 - 100 to 0%
    TransitionRampDownShortSmooth2_100to0,
    /// Transition Ramp Down Long Sharp 1 - 100 to 0%
    TransitionRampDownLongSharp1_100to0,
    /// Transition Ramp Down Long Sharp 2 - 100 to 0%
    TransitionRampDownLongSharp2_100to0,
    /// Transition Ramp Down Medium Sharp 1 - 100 to 0%
    TransitionRampDownMediumSharp1_100to0,
    /// Transition Ramp Down Medium Sharp 2 - 100 to 0%
    TransitionRampDownMediumSharp2_100to0,
    /// Transition Ramp Down Short Sharp 1 - 100 to 0%
    TransitionRampDownShortSharp1_100to0,
    /// Transition Ramp Down Short Sharp 2 - 100 to 0%
    TransitionRampDownShortSharp2_100to0,
    /// Transition Ramp Up Long Smooth 1 - 0 to 100%
    TransitionRampUpLongSmooth1_0to100,
    /// Transition Ramp Up Long Smooth 2 - 0 to 100%
    TransitionRampUpLongSmooth2_0to100,
    /// Transition Ramp Up Medium Smooth 1 - 0 to 100%
    TransitionRampUpMediumSmooth1_0to100,
    /// Transition Ramp Up Medium Smooth 2 - 0 to 100%
    TransitionRampUpMediumSmooth2_0to100,
    /// Transition Ramp Up Short Smooth 1 - 0 to 100%
    TransitionRampUpShortSmooth1_0to100,
    /// Transition Ramp Up Short Smooth 2 - 0 to 100%
    TransitionRampUpShortSmooth2_0to100,
    /// Transition Ramp Up Long Sharp 1 - 0 to 100%
    TransitionRampUpLongSharp1_0to100,
    /// Transition Ramp Up Long Sharp 2 - 0 to 100%
    TransitionRampUpLongSharp2_0to100,
    /// Transition Ramp Up Medium Sharp 1 - 0 to 100%
    TransitionRampUpMediumSharp1_0to100,
    /// Transition Ramp Up Medium Sharp 2 - 0 to 100%
    TransitionRampUpMediumSharp2_0to100,
    /// Transition Ramp Up Short Sharp 1 - 0 to 100%
    TransitionRampUpShortSharp1_0to100,
    /// Transition Ramp Up Short Sharp 2 - 0 to 100%
    TransitionRampUpShortSharp2_0to100,
    /// Transition Ramp Down Long Smooth 1 - 50 to 0%
    TransitionRampDownLongSmooth1_50to0,
    /// Transition Ramp Down Long Smooth 2 - 50 to 0%
    TransitionRampDownLongSmooth2_50to0,
    /// Transition Ramp Down Medium Smooth 1 - 50 to 0%
    TransitionRampDownMediumSmooth1_50to0,
    /// Transition Ramp Down Medium Smooth 2 - 50 to 0%
    TransitionRampDownMediumSmooth2_50to0,
    /// Transition Ramp Down Short Smooth 1 - 50 to 0%
    TransitionRampDownShortSmooth1_50to0,
    /// Transition Ramp Down Short Smooth 2 - 50 to 0%
    TransitionRampDownShortSmooth2_50to0,
    /// Transition Ramp Down Long Sharp 1 - 50 to 0%
    TransitionRampDownLongSharp1_50to0,
    /// Transition Ramp Down Long Sharp 2 - 50 to 0%
    TransitionRampDownLongSharp2_50to0,
    /// Transition Ramp Down Medium Sharp 1 - 50 to 0%
    TransitionRampDownMediumSharp1_50to0,
    /// Transition Ramp Down Medium Sharp 2 - 50 to 0%
    TransitionRampDownMediumSharp2_50to0,
    /// Transition Ramp Down Short Sharp 1 - 50 to 0%
    TransitionRampDownShortSharp1_50to0,
    /// Transition Ramp Down Short Sharp 2 - 50 to 0%
    TransitionRampDownShortSharp2_50to0,
    /// Transition Ramp Up Long Smooth 1 - 0 to 50%
    TransitionRampUpLongSmooth1_0to50,
    /// Transition Ramp Up Long Smooth 2 - 0 to 50%
    TransitionRampUpLongSmooth2_0to50,
    /// Transition Ramp Up Medium Smooth 1 - 0 to 50%
    TransitionRampUpMediumSmooth1_0to50,
    /// Transition Ramp Up Medium Smooth 2 - 0 to 50%
    TransitionRampUpMediumSmooth2_0to50,
    /// Transition Ramp Up Short Smooth 1 - 0 to 50%
    TransitionRampUpShortSmooth1_0to50,
    /// Transition Ramp Up Short Smooth 2 - 0 to 50%
    TransitionRampUpShortSmooth2_0to50,
    /// Transition Ramp Up Long Sharp 1 - 0 to 50%
    TransitionRampUpLongSharp1_0to50,
    /// Transition Ramp Up Long Sharp 2 - 0 to 50%
    TransitionRampUpLongSharp2_0to50,
    /// Transition Ramp Up Medium Sharp 1 - 0 to 50%
    TransitionRampUpMediumSharp1_0to50,
    /// Transition Ramp Up Medium Sharp 2 - 0 to 50%
    TransitionRampUpMediumSharp2_0to50,
    /// Transition Ramp Up Short Sharp 1 - 0 to 50%
    TransitionRampUpShortSharp1_0to50,
    /// Transition Ramp Up Short Sharp 2 - 0 to 50%
    TransitionRampUpShortSharp2_0to50,
    /// Long Buzz For Programmatic Stopping - 100%
    LongBuzzForProgrammaticStopping100,
    /// Smooth Hum 1 (No kick or brake pulse) - 50%
    SmoothHum1_50,
    /// Smooth Hum 2 (No kick or brake pulse) - 40%
    SmoothHum2_40,
    /// Smooth Hum 3 (No kick or brake pulse) - 30%
    SmoothHum3_30,
    /// Smooth Hum 4 (No kick or brake pulse) - 20%
    SmoothHum4_20,
    /// Smooth Hum 5 (No kick or brake pulse) - 10%
    SmoothHum5_10,
}

impl Effect {
    /// The library number of the effect.
    pub open spec fn spec_id(self) -> u8 {
        match self {
            Effect::StrongClick100 => 1,
            Effect::StrongClick60 => 2,
            Effect::StrongClick30 => 3,
            Effect::SharpClick100 => 4,
            Effect::SharpClick60 => 5,
            Effect::SharpClick30 => 6,
            Effect::SoftBump100 => 7,
            Effect::SoftBump60 => 8,
            Effect::SoftBump30 => 9,
            Effect::DoubleClick100 => 10,
            Effect::DoubleClick60 => 11,
            Effect::TripleClick100 => 12,
            Effect::SoftFuzz60 => 13,
            Effect::StrongBuzz100 => 14,
            Effect::Alert750ms => 15,
            Effect::Alert1000ms => 16,
            Effect::StrongClick1_100 => 17,
            Effect::StrongClick2_80 => 18,
            Effect::StrongClick3_60 => 19,
            Effect::StrongClick4_30 => 20,
            Effect::MediumClick1_100 => 21,
            Effect::MediumClick2_80 => 22,
            Effect::MediumClick3_60 => 23,
            Effect::SharpTick1_100 => 24,
            Effect::SharpTick2_80 => 25,
            Effect::SharpTick3_60 => 26,
            Effect::ShortDoubleClickStrong1_100 => 27,
            Effect::ShortDoubleClickStrong2_80 => 28,
            Effect::ShortDoubleClickStrong3_60 => 29,
            Effect::ShortDoubleClickStrong4_30 => 30,
            Effect::ShortDoubleClickMedium1_100 => 31,
            Effect::ShortDoubleClickMedium2_80 => 32,
            Effect::ShortDoubleClickMedium3_60 => 33,
            Effect::ShortDoubleSharpTick1_100 => 34,
            Effect::ShortDoubleSharpTick2_80 => 35,
            Effect::ShortDoubleSharpTick3_60 => 36,
            Effect::LongDoubleSharpClickStrong1_100 => 37,
            Effect::LongDoubleSharpClickStrong2_80 => 38,
            Effect::LongDoubleSharpClickStrong3_60 => 39,
            Effect::LongDoubleSharpClickStrong4_30 => 40,
            Effect::LongDoubleSharpClickMedium1_100 => 41,
            Effect::LongDoubleSharpClickMedium2_80 => 42,
            Effect::LongDoubleSharpClickMedium3_60 => 43,
            Effect::LongDoubleSharpTick1_100 => 44,
            Effect::LongDoubleSharpTick2_80 => 45,
            Effect::LongDoubleSharpTick3_60 => 46,
            Effect::Buzz1_100 => 47,
            Effect::Buzz2_80 => 48,
            Effect::Buzz3_60 => 49,
            Effect::Buzz4_40 => 50,
            Effect::Buzz5_20 => 51,
            Effect::PulsingStrong1_100 => 52,
            Effect::PulsingStrong2_60 => 53,
            Effect::PulsingMedium1_100 => 54,
            Effect::PulsingMedium2_60 => 55,
            Effect::PulsingSharp1_100 => 56,
            Effect::PulsingSharp2_60 => 57,
            Effect::TransitionClick1_100 => 58,
            Effect::TransitionClick2_80 => 59,
            Effect::TransitionClick3_60 => 60,
            Effect::TransitionClick4_40 => 61,
            Effect::TransitionClick5_20 => 62,
            Effect::TransitionClick6_10 => 63,
            Effect::TransitionHum1_100 => 64,
            Effect::TransitionHum2_80 => 65,
            Effect::TransitionHum3_60 => 66,
            Effect::TransitionHum4_40 => 67,
            Effect::TransitionHum5_20 => 68,
            Effect::TransitionHum6_10 => 69,
            Effect::TransitionRampDownLongSmooth1_100to0 => 70,
            Effect::TransitionRampDownLongSmooth2_100to0 => 71,
            Effect::TransitionRampDownMediumSmooth1_100to0 => 72,
            Effect::TransitionRampDownMediumSmooth2_100to0 => 73,
            Effect::TransitionRampDownShortSmooth1_100to0 => 74,
            Effect::TransitionRampDownShortSmooth2_100to0 => 75,
            Effect::TransitionRampDownLongSharp1_100to0 => 76,
            Effect::TransitionRampDownLongSharp2_100to0 => 77,
            Effect::TransitionRampDownMediumSharp1_100to0 => 78,
            Effect::TransitionRampDownMediumSharp2_100to0 => 79,
            Effect::TransitionRampDownShortSharp1_100to0 => 80,
            Effect::TransitionRampDownShortSharp2_100to0 => 81,
            Effect::TransitionRampUpLongSmooth1_0to100 => 82,
            Effect::TransitionRampUpLongSmooth2_0to100 => 83,
            Effect::TransitionRampUpMediumSmooth1_0to100 => 84,
            Effect::TransitionRampUpMediumSmooth2_0to100 => 85,
            Effect::TransitionRampUpShortSmooth1_0to100 => 86,
            Effect::TransitionRampUpShortSmooth2_0to100 => 87,
            Effect::TransitionRampUpLongSharp1_0to100 => 88,
            Effect::TransitionRampUpLongSharp2_0to100 => 89,
            Effect::TransitionRampUpMediumSharp1_0to100 => 90,
            Effect::TransitionRampUpMediumSharp2_0to100 => 91,
            Effect::TransitionRampUpShortSharp1_0to100 => 92,
            Effect::TransitionRampUpShortSharp2_0to100 => 93,
            Effect::TransitionRampDownLongSmooth1_50to0 => 94,
            Effect::TransitionRampDownLongSmooth2_50to0 => 95,
            Effect::TransitionRampDownMediumSmooth1_50to0 => 96,
            Effect::TransitionRampDownMediumSmooth2_50to0 => 97,
            Effect::TransitionRampDownShortSmooth1_50to0 => 98,
            Effect::TransitionRampDownShortSmooth2_50to0 => 99,
            Effect::TransitionRampDownLongSharp1_50to0 => 100,
            Effect::TransitionRampDownLongSharp2_50to0 => 101,
            Effect::TransitionRampDownMediumSharp1_50to0 => 102,
            Effect::TransitionRampDownMediumSharp2_50to0 => 103,
            Effect::TransitionRampDownShortSharp1_50to0 => 104,
            Effect::TransitionRampDownShortSharp2_50to0 => 105,
            Effect::TransitionRampUpLongSmooth1_0to50 => 106,
            Effect::TransitionRampUpLongSmooth2_0to50 => 107,
            Effect::TransitionRampUpMediumSmooth1_0to50 => 108,
            Effect::TransitionRampUpMediumSmooth2_0to50 => 109,
            Effect::TransitionRampUpShortSmooth1_0to50 => 110,
            Effect::TransitionRampUpShortSmooth2_0to50 => 111,
            Effect::TransitionRampUpLongSharp1_0to50 => 112,
            Effect::TransitionRampUpLongSharp2_0to50 => 113,
            Effect::TransitionRampUpMediumSharp1_0to50 => 114,
            Effect::TransitionRampUpMediumSharp2_0to50 => 115,
            Effect::TransitionRampUpShortSharp1_0to50 => 116,
            Effect::TransitionRampUpShortSharp2_0to50 => 117,
            Effect::LongBuzzForProgrammaticStopping100 => 118,
            Effect::SmoothHum1_50 => 119,
            Effect::SmoothHum2_40 => 120,
            Effect::SmoothHum3_30 => 121,
            Effect::SmoothHum4_20 => 122,
            Effect::SmoothHum5_10 => 123,
        }
    }

    /// The library number of the effect.
    pub fn id(self) -> (r: u8)
        ensures
            r == self.spec_id(),
            1 <= r <= 123,
    {
        match self {
            Effect::StrongClick100 => 1,
            Effect::StrongClick60 => 2,
            Effect::StrongClick30 => 3,
            Effect::SharpClick100 => 4,
            Effect::SharpClick60 => 5,
            Effect::SharpClick30 => 6,
            Effect::SoftBump100 => 7,
            Effect::SoftBump60 => 8,
            Effect::SoftBump30 => 9,
            Effect::DoubleClick100 => 10,
            Effect::DoubleClick60 => 11,
            Effect::TripleClick100 => 12,
            Effect::SoftFuzz60 => 13,
            Effect::StrongBuzz100 => 14,
            Effect::Alert750ms => 15,
            Effect::Alert1000ms => 16,
            Effect::StrongClick1_100 => 17,
            Effect::StrongClick2_80 => 18,
            Effect::StrongClick3_60 => 19,
            Effect::StrongClick4_30 => 20,
            Effect::MediumClick1_100 => 21,
            Effect::MediumClick2_80 => 22,
            Effect::MediumClick3_60 => 23,
            Effect::SharpTick1_100 => 24,
            Effect::SharpTick2_80 => 25,
            Effect::SharpTick3_60 => 26,
            Effect::ShortDoubleClickStrong1_100 => 27,
            Effect::ShortDoubleClickStrong2_80 => 28,
            Effect::ShortDoubleClickStrong3_60 => 29,
            Effect::ShortDoubleClickStrong4_30 => 30,
            Effect::ShortDoubleClickMedium1_100 => 31,
            Effect::ShortDoubleClickMedium2_80 => 32,
            Effect::ShortDoubleClickMedium3_60 => 33,
            Effect::ShortDoubleSharpTick1_100 => 34,
            Effect::ShortDoubleSharpTick2_80 => 35,
            Effect::ShortDoubleSharpTick3_60 => 36,
            Effect::LongDoubleSharpClickStrong1_100 => 37,
            Effect::LongDoubleSharpClickStrong2_80 => 38,
            Effect::LongDoubleSharpClickStrong3_60 => 39,
            Effect::LongDoubleSharpClickStrong4_30 => 40,
            Effect::LongDoubleSharpClickMedium1_100 => 41,
            Effect::LongDoubleSharpClickMedium2_80 => 42,
            Effect::LongDoubleSharpClickMedium3_60 => 43,
            Effect::LongDoubleSharpTick1_100 => 44,
            Effect::LongDoubleSharpTick2_80 => 45,
            Effect::LongDoubleSharpTick3_60 => 46,
            Effect::Buzz1_100 => 47,
            Effect::Buzz2_80 => 48,
            Effect::Buzz3_60 => 49,
            Effect::Buzz4_40 => 50,
            Effect::Buzz5_20 => 51,
            Effect::PulsingStrong1_100 => 52,
            Effect::PulsingStrong2_60 => 53,
            Effect::PulsingMedium1_100 => 54,
            Effect::PulsingMedium2_60 => 55,
            Effect::PulsingSharp1_100 => 56,
            Effect::PulsingSharp2_60 => 57,
            Effect::TransitionClick1_100 => 58,
            Effect::TransitionClick2_80 => 59,
            Effect::TransitionClick3_60 => 60,
            Effect::TransitionClick4_40 => 61,
            Effect::TransitionClick5_20 => 62,
            Effect::TransitionClick6_10 => 63,
            Effect::TransitionHum1_100 => 64,
            Effect::TransitionHum2_80 => 65,
            Effect::TransitionHum3_60 => 66,
            Effect::TransitionHum4_40 => 67,
            Effect::TransitionHum5_20 => 68,
            Effect::TransitionHum6_10 => 69,
            Effect::TransitionRampDownLongSmooth1_100to0 => 70,
            Effect::TransitionRampDownLongSmooth2_100to0 => 71,
            Effect::TransitionRampDownMediumSmooth1_100to0 => 72,
            Effect::TransitionRampDownMediumSmooth2_100to0 => 73,
            Effect::TransitionRampDownShortSmooth1_100to0 => 74,
            Effect::TransitionRampDownShortSmooth2_100to0 => 75,
            Effect::TransitionRampDownLongSharp1_100to0 => 76,
            Effect::TransitionRampDownLongSharp2_100to0 => 77,
            Effect::TransitionRampDownMediumSharp1_100to0 => 78,
            Effect::TransitionRampDownMediumSharp2_100to0 => 79,
            Effect::TransitionRampDownShortSharp1_100to0 => 80,
            Effect::TransitionRampDownShortSharp2_100to0 => 81,
            Effect::TransitionRampUpLongSmooth1_0to100 => 82,
            Effect::TransitionRampUpLongSmooth2_0to100 => 83,
            Effect::TransitionRampUpMediumSmooth1_0to100 => 84,
            Effect::TransitionRampUpMediumSmooth2_0to100 => 85,
            Effect::TransitionRampUpShortSmooth1_0to100 => 86,
            Effect::TransitionRampUpShortSmooth2_0to100 => 87,
            Effect::TransitionRampUpLongSharp1_0to100 => 88,
            Effect::TransitionRampUpLongSharp2_0to100 => 89,
            Effect::TransitionRampUpMediumSharp1_0to100 => 90,
            Effect::TransitionRampUpMediumSharp2_0to100 => 91,
            Effect::TransitionRampUpShortSharp1_0to100 => 92,
            Effect::TransitionRampUpShortSharp2_0to100 => 93,
            Effect::TransitionRampDownLongSmooth1_50to0 => 94,
            Effect::TransitionRampDownLongSmooth2_50to0 => 95,
            Effect::TransitionRampDownMediumSmooth1_50to0 => 96,
            Effect::TransitionRampDownMediumSmooth2_50to0 => 97,
            Effect::TransitionRampDownShortSmooth1_50to0 => 98,
            Effect::TransitionRampDownShortSmooth2_50to0 => 99,
            Effect::TransitionRampDownLongSharp1_50to0 => 100,
            Effect::TransitionRampDownLongSharp2_50to0 => 101,
            Effect::TransitionRampDownMediumSharp1_50to0 => 102,
            Effect::TransitionRampDownMediumSharp2_50to0 => 103,
            Effect::TransitionRampDownShortSharp1_50to0 => 104,
            Effect::TransitionRampDownShortSharp2_50to0 => 105,
            Effect::TransitionRampUpLongSmooth1_0to50 => 106,
            Effect::TransitionRampUpLongSmooth2_0to50 => 107,
            Effect::TransitionRampUpMediumSmooth1_0to50 => 108,
            Effect::TransitionRampUpMediumSmooth2_0to50 => 109,
            Effect::TransitionRampUpShortSmooth1_0to50 => 110,
            Effect::TransitionRampUpShortSmooth2_0to50 => 111,
            Effect::TransitionRampUpLongSharp1_0to50 => 112,
            Effect::TransitionRampUpLongSharp2_0to50 => 113,
            Effect::TransitionRampUpMediumSharp1_0to50 => 114,
            Effect::TransitionRampUpMediumSharp2_0to50 => 115,
            Effect::TransitionRampUpShortSharp1_0to50 => 116,
            Effect::TransitionRampUpShortSharp2_0to50 => 117,
            Effect::LongBuzzForProgrammaticStopping100 => 118,
            Effect::SmoothHum1_50 => 119,
            Effect::SmoothHum2_40 => 120,
            Effect::SmoothHum3_30 => 121,
            Effect::SmoothHum4_20 => 122,
            Effect::SmoothHum5_10 => 123,
        }
    }
}
/// One instruction of the waveform sequencer.
///
/// When `is_wait` is false, `value` is the effect to play, or 0 to stop the
/// sequence. When `is_wait` is true, `value` is a pause in units of 10 ms.
/// The constructors keep `value` within 7 bits.
#[derive(Debug, Clone, Copy, PartialEq, Eq, Structural)]
pub struct WaveformEntry {
    /// Effect number (0 to 127), or wait time when `is_wait` is set.
    pub value: u8,
    /// Set for a wait instruction, whose `value` counts 10 ms units.
    pub is_wait: bool,
}

impl WaveformEntry {
    /// The byte a sequencer slot holds for this entry: the wait flag in bit 7,
    /// the value in bits 6..0.
    pub open spec fn spec_register_value(self) -> u8 {
        (if self.is_wait { 0x80u8 } else { 0u8 }) | (self.value & 0x7F)
    }

    /// The entry that plays effect `effect_id`, masked to 7 bits.
    pub fn effect(effect_id: u8) -> (r: Self)
        ensures
            r.value == effect_id & 0x7F,
            !r.is_wait,
    {
        WaveformEntry { value: effect_id & 0x7F, is_wait: false }
    }

    /// The entry that plays a predefined effect.
    pub fn effect_from_enum(effect: Effect) -> (r: Self)
        ensures
            r.value == effect.spec_id(),
            !r.is_wait,
    {
        WaveformEntry { value: effect.id(), is_wait: false }
    }

    /// The entry that pauses for `wait_time_10ms` units of 10 ms, masked to 7 bits.
    pub fn wait(wait_time_10ms: u8) -> (r: Self)
        ensures
            r.value == wait_time_10ms & 0x7F,
            r.is_wait,
    {
        WaveformEntry { value: wait_time_10ms & 0x7F, is_wait: true }
    }

    /// The entry that ends the sequence.
    pub fn stop() -> (r: Self)
        ensures
            r.value == 0,
            !r.is_wait,
    {
        WaveformEntry { value: 0, is_wait: false }
    }

    /// The byte a sequencer slot holds for this entry.
    pub fn register_value(self) -> (r: u8)
        ensures
            r == self.spec_register_value(),
    {
        (if self.is_wait { 0x80u8 } else { 0u8 }) | (self.value & 0x7F)
    }
}

impl From<Effect> for WaveformEntry {
    fn from(effect: Effect) -> (r: Self) {
        Self::effect_from_enum(effect)
    }
}

impl vstd::std_specs::convert::FromSpecImpl<Effect> for WaveformEntry {
    open spec fn obeys_from_spec() -> bool {
        true
    }

    open spec fn from_spec(effect: Effect) -> Self {
        WaveformEntry { value: effect.spec_id(), is_wait: false }
    }
}

/// Building an entry keeps exactly the low seven bits of its argument, so
/// building again from the stored value changes nothing.
pub proof fn lemma_entry_masking(x: u8)
    ensures
        x & 0x7F <= 127,
        (x & 0x7F) & 0x7F == x & 0x7F,
        x <= 127 ==> x & 0x7F == x,
{
    assert(x & 0x7F <= 127) by (bit_vector);
    assert((x & 0x7F) & 0x7F == x & 0x7F) by (bit_vector);
    assert(x <= 127 ==> x & 0x7F == x) by (bit_vector);
}

} // verus!
