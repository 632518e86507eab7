//! ARM system classification.

use vstd::prelude::*;
use vstd::string::StringExecFns;

verus! {

/// Recognised ARM system families.
#[derive(Debug, PartialEq, Eq)]
pub enum ARMSystemType {
    RaspberryPi,
    NVIDIAJetson,
    AppleSilicon,
    QualcommSnapdragon,
    MediaTekDimensity,
    SamsungExynos,
    HiSiliconKirin,
    AmazonGraviton,
    AmpereAltra,
    Unknown(String),
}

impl Clone for ARMSystemType {
    fn clone(&self) -> (r: Self)
        ensures
            r == *self,
    {
        match self {
            ARMSystemType::RaspberryPi => ARMSystemType::RaspberryPi,
            ARMSystemType::NVIDIAJetson => ARMSystemType::NVIDIAJetson,
            ARMSystemType::AppleSilicon => ARMSystemType::AppleSilicon,
            ARMSystemType::QualcommSnapdragon => ARMSystemType::QualcommSnapdragon,
            ARMSystemType::MediaTekDimensity => ARMSystemType::MediaTekDimensity,
            ARMSystemType::SamsungExynos => ARMSystemType::SamsungExynos,
            ARMSystemType::HiSiliconKirin => ARMSystemType::HiSiliconKirin,
            ARMSystemType::AmazonGraviton => ARMSystemType::AmazonGraviton,
            ARMSystemType::AmpereAltra => ARMSystemType::AmpereAltra,
            ARMSystemType::Unknown(name) => ARMSystemType::Unknown(name.clone()),
        }
    }
}

impl ARMSystemType {
    /// The text this system family renders as.
    pub open spec fn spec_label(&self) -> Seq<char> {
        match self {
            ARMSystemType::RaspberryPi => "Raspberry Pi"@,
            ARMSystemType::NVIDIAJetson => "NVIDIA Jetson"@,
            ARMSystemType::AppleSilicon => "Apple Silicon"@,
            ARMSystemType::QualcommSnapdragon => "Qualcomm Snapdragon"@,
            ARMSystemType::MediaTekDimensity => "MediaTek Dimensity"@,
            ARMSystemType::SamsungExynos => "Samsung Exynos"@,
            ARMSystemType::HiSiliconKirin => "HiSilicon Kirin"@,
            ARMSystemType::AmazonGraviton => "Amazon Graviton"@,
            ARMSystemType::AmpereAltra => "Ampere Altra"@,
            ARMSystemType::Unknown(name) => name@,
        }
    }

    /// Render the system family as text.
    pub fn label(&self) -> (r: String)
        ensures
            r@ == self.spec_label(),
    {
        match self {
            ARMSystemType::RaspberryPi => String::from_str("Raspberry Pi"),
            ARMSystemType::NVIDIAJetson => String::from_str("NVIDIA Jetson"),
            ARMSystemType::AppleSilicon => String::from_str("Apple Silicon"),
            ARMSystemType::QualcommSnapdragon => String::from_str("Qualcomm Snapdragon"),
            ARMSystemType::MediaTekDimensity => String::from_str("MediaTek Dimensity"),
            ARMSystemType::SamsungExynos => String::from_str("Samsung Exynos"),
            ARMSystemType::HiSiliconKirin => String::from_str("HiSilicon Kirin"),
            ARMSystemType::AmazonGraviton => String::from_str("Amazon Graviton"),
            ARMSystemType::AmpereAltra => String::from_str("Ampere Altra"),
            ARMSystemType::Unknown(name) => name.clone(),
        }
    }
}

} // verus!
