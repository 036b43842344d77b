//! Weather condition classification from WMO synoptic codes.
//!
//! The classifier is a closed table over the codes the forecast API emits.
//! Classification is exact and invertible: every known code maps to one
//! variant and back to the same code, and any code outside the table is
//! rejected explicitly rather than coerced to a default bucket.

use vstd::prelude::*;

verus! {

/// Weather condition derived from a WMO synoptic code.
#[derive(Debug, Clone, Copy, PartialEq, Eq, Structural)]
pub enum WMOCode {
    ClearSky,
    MainlyClear,
    PartlyCloudy,
    Overcast,
    Fog,
    DepositingRimeFog,
    LightDrizzle,
    ModerateDrizzle,
    DenseDrizzle,
    LightFreezingDrizzle,
    DenseFreezingDrizzle,
    SlightRain,
    ModerateRain,
    HeavyRain,
    LightFreezingRain,
    HeavyFreezingRain,
    SlightSnowFall,
    ModerateSnowFall,
    HeavySnowFall,
    SnowGrains,
    SlightRainShowers,
    ModerateRainShowers,
    ViolentRainShowers,
    SlightSnowShowers,
    HeavySnowShowers,
    Thunderstorm,
    ThunderstormSlightHail,
    ThunderstormHeavyHail,
}

/// The numeric WMO code of a classified condition.
pub open spec fn spec_code_of(w: WMOCode) -> int {
    match w {
        WMOCode::ClearSky => 0,
        WMOCode::MainlyClear => 1,
        WMOCode::PartlyCloudy => 2,
        WMOCode::Overcast => 3,
        WMOCode::Fog => 45,
        WMOCode::DepositingRimeFog => 48,
        WMOCode::LightDrizzle => 51,
        WMOCode::ModerateDrizzle => 53,
        WMOCode::DenseDrizzle => 55,
        WMOCode::LightFreezingDrizzle => 56,
        WMOCode::DenseFreezingDrizzle => 57,
        WMOCode::SlightRain => 61,
        WMOCode::ModerateRain => 63,
        WMOCode::HeavyRain => 65,
        WMOCode::LightFreezingRain => 66,
        WMOCode::HeavyFreezingRain => 67,
        WMOCode::SlightSnowFall => 71,
        WMOCode::ModerateSnowFall => 73,
        WMOCode::HeavySnowFall => 75,
        WMOCode::SnowGrains => 77,
        WMOCode::SlightRainShowers => 80,
        WMOCode::ModerateRainShowers => 81,
        WMOCode::ViolentRainShowers => 82,
        WMOCode::SlightSnowShowers => 85,
        WMOCode::HeavySnowShowers => 86,
        WMOCode::Thunderstorm => 95,
        WMOCode::ThunderstormSlightHail => 96,
        WMOCode::ThunderstormHeavyHail => 99,
    }
}

/// Classification of a numeric code: the matching variant for a code in
/// the table, nothing for a code outside it.
pub open spec fn spec_classify(code: int) -> Option<WMOCode> {
    if code == 0 {
        Some(WMOCode::ClearSky)
    } else if code == 1 {
        Some(WMOCode::MainlyClear)
    } else if code == 2 {
        Some(WMOCode::PartlyCloudy)
    } else if code == 3 {
        Some(WMOCode::Overcast)
    } else if code == 45 {
        Some(WMOCode::Fog)
    } else if code == 48 {
        Some(WMOCode::DepositingRimeFog)
    } else if code == 51 {
        Some(WMOCode::LightDrizzle)
    } else if code == 53 {
        Some(WMOCode::ModerateDrizzle)
    } else if code == 55 {
        Some(WMOCode::DenseDrizzle)
    } else if code == 56 {
        Some(WMOCode::LightFreezingDrizzle)
    } else if code == 57 {
        Some(WMOCode::DenseFreezingDrizzle)
    } else if code == 61 {
        Some(WMOCode::SlightRain)
    } else if code == 63 {
        Some(WMOCode::ModerateRain)
    } else if code == 65 {
        Some(WMOCode::HeavyRain)
    } else if code == 66 {
        Some(WMOCode::LightFreezingRain)
    } else if code == 67 {
        Some(WMOCode::HeavyFreezingRain)
    } else if code == 71 {
        Some(WMOCode::SlightSnowFall)
    } else if code == 73 {
        Some(WMOCode::ModerateSnowFall)
    } else if code == 75 {
        Some(WMOCode::HeavySnowFall)
    } else if code == 77 {
        Some(WMOCode::SnowGrains)
    } else if code == 80 {
        Some(WMOCode::SlightRainShowers)
    } else if code == 81 {
        Some(WMOCode::ModerateRainShowers)
    } else if code == 82 {
        Some(WMOCode::ViolentRainShowers)
    } else if code == 85 {
        Some(WMOCode::SlightSnowShowers)
    } else if code == 86 {
        Some(WMOCode::HeavySnowShowers)
    } else if code == 95 {
        Some(WMOCode::Thunderstorm)
    } else if code == 96 {
        Some(WMOCode::ThunderstormSlightHail)
    } else if code == 99 {
        Some(WMOCode::ThunderstormHeavyHail)
    } else {
        None
    }
}

impl WMOCode {
    /// Classifies a numeric WMO code; codes outside the table are rejected.
    pub fn from_code(code: u8) -> (r: Option<WMOCode>)
        ensures
            r == spec_classify(code as int),
    {
        match code {
            0 => Some(WMOCode::ClearSky),
            1 => Some(WMOCode::MainlyClear),
            2 => Some(WMOCode::PartlyCloudy),
            3 => Some(WMOCode::Overcast),
            45 => Some(WMOCode::Fog),
            48 => Some(WMOCode::DepositingRimeFog),
            51 => Some(WMOCode::LightDrizzle),
            53 => Some(WMOCode::ModerateDrizzle),
            55 => Some(WMOCode::DenseDrizzle),
            56 => Some(WMOCode::LightFreezingDrizzle),
            57 => Some(WMOCode::DenseFreezingDrizzle),
            61 => Some(WMOCode::SlightRain),
            63 => Some(WMOCode::ModerateRain),
            65 => Some(WMOCode::HeavyRain),
            66 => Some(WMOCode::LightFreezingRain),
            67 => Some(WMOCode::HeavyFreezingRain),
            71 => Some(WMOCode::SlightSnowFall),
            73 => Some(WMOCode::ModerateSnowFall),
            75 => Some(WMOCode::HeavySnowFall),
            77 => Some(WMOCode::SnowGrains),
            80 => Some(WMOCode::SlightRainShowers),
            81 => Some(WMOCode::ModerateRainShowers),
            82 => Some(WMOCode::ViolentRainShowers),
            85 => Some(WMOCode::SlightSnowShowers),
            86 => Some(WMOCode::HeavySnowShowers),
            95 => Some(WMOCode::Thunderstorm),
            96 => Some(WMOCode::ThunderstormSlightHail),
            99 => Some(WMOCode::ThunderstormHeavyHail),
            _ => None,
        }
    }

    /// The numeric WMO code of this condition, for persistence.
    pub fn code(&self) -> (r: u8)
        ensures
            r as int == spec_code_of(*self),
    {
        match self {
            WMOCode::ClearSky => 0,
            WMOCode::MainlyClear => 1,
            WMOCode::PartlyCloudy => 2,
            WMOCode::Overcast => 3,
            WMOCode::Fog => 45,
            WMOCode::DepositingRimeFog => 48,
            WMOCode::LightDrizzle => 51,
            WMOCode::ModerateDrizzle => 53,
            WMOCode::DenseDrizzle => 55,
            WMOCode::LightFreezingDrizzle => 56,
            WMOCode::DenseFreezingDrizzle => 57,
            WMOCode::SlightRain => 61,
            WMOCode::ModerateRain => 63,
            WMOCode::HeavyRain => 65,
            WMOCode::LightFreezingRain => 66,
            WMOCode::HeavyFreezingRain => 67,
            WMOCode::SlightSnowFall => 71,
            WMOCode::ModerateSnowFall => 73,
            WMOCode::HeavySnowFall => 75,
            WMOCode::SnowGrains => 77,
            WMOCode::SlightRainShowers => 80,
            WMOCode::ModerateRainShowers => 81,
            WMOCode::ViolentRainShowers => 82,
            WMOCode::SlightSnowShowers => 85,
            WMOCode::HeavySnowShowers => 86,
            WMOCode::Thunderstorm => 95,
            WMOCode::ThunderstormSlightHail => 96,
            WMOCode::ThunderstormHeavyHail => 99,
        }
    }
}

/// Classification round trips: every condition's code classifies back to
/// that condition, and any code that classifies at all is the code of the
/// condition it classifies to.
pub proof fn lemma_wmo_code_round_trip()
    ensures
        forall|w: WMOCode| #[trigger] spec_classify(spec_code_of(w)) == Some(w),
        forall|c: int|
            #[trigger] spec_classify(c) is Some ==> spec_code_of(spec_classify(c)->Some_0)
                == c,
{
}

} // verus!
