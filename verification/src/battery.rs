//! Battery description: charge state and health.

use vstd::prelude::*;
use vstd::string::StringExecFns;

verus! {

/// Battery charging status
#[derive(Debug, Clone, Copy, PartialEq, Eq, Structural)]
pub enum BatteryStatus {
    Charging,
    Discharging,
    Full,
    NotCharging,
    Unknown,
}

impl BatteryStatus {
    /// The text this status renders as.
    pub open spec fn spec_label(&self) -> Seq<char> {
        match self {
            BatteryStatus::Charging => "Charging"@,
            BatteryStatus::Discharging => "Discharging"@,
            BatteryStatus::Full => "Full"@,
            BatteryStatus::NotCharging => "Not Charging"@,
            BatteryStatus::Unknown => "Unknown"@,
        }
    }

    /// Render the status as text.
    pub fn label(&self) -> (r: String)
        ensures
            r@ == self.spec_label(),
    {
        match self {
            BatteryStatus::Charging => String::from_str("Charging"),
            BatteryStatus::Discharging => String::from_str("Discharging"),
            BatteryStatus::Full => String::from_str("Full"),
            BatteryStatus::NotCharging => String::from_str("Not Charging"),
            BatteryStatus::Unknown => String::from_str("Unknown"),
        }
    }
}

/// Battery information.
#[derive(Debug)]
pub struct BatteryInfo {
    /// Charging status
    pub status: BatteryStatus,
    /// Charge level in whole percent
    pub charge_percent: u32,
    /// Battery health in whole percent (if available)
    pub health_percent: Option<u32>,
    /// Design capacity in milliwatt hours (if available)
    pub design_capacity_mwh: Option<u64>,
    /// Full-charge capacity in milliwatt hours (if available)
    pub full_capacity_mwh: Option<u64>,
    /// Battery technology description
    pub technology: Option<String>,
}

/// Field-by-field equality of two battery descriptions, over views.
pub open spec fn battery_eq(a: &BatteryInfo, b: &BatteryInfo) -> bool {
    &&& a.status == b.status
    &&& a.charge_percent == b.charge_percent
    &&& a.health_percent == b.health_percent
    &&& a.design_capacity_mwh == b.design_capacity_mwh
    &&& a.full_capacity_mwh == b.full_capacity_mwh
    &&& a.technology == b.technology
}

impl Clone for BatteryInfo {
    fn clone(&self) -> (r: Self)
        ensures
            battery_eq(&r, self),
    {
        BatteryInfo {
            status: self.status,
            charge_percent: self.charge_percent,
            health_percent: self.health_percent,
            design_capacity_mwh: self.design_capacity_mwh,
            full_capacity_mwh: self.full_capacity_mwh,
            technology: self.technology.clone(),
        }
    }
}

impl BatteryInfo {
    /// Get the charging status.
    pub fn status(&self) -> (r: &BatteryStatus)
        ensures
            r == &self.status,
    {
        &self.status
    }

    /// Get the charge level in whole percent.
    pub fn charge_percent(&self) -> (r: u32)
        ensures
            r == self.charge_percent,
    {
        self.charge_percent
    }

    /// Is the battery currently charging?
    pub fn is_charging(&self) -> (r: bool)
        ensures
            r == (self.status == BatteryStatus::Charging),
    {
        match self.status {
            BatteryStatus::Charging => true,
            _ => false,
        }
    }

    /// Battery wear in whole percent: how much of the design capacity the
    /// full-charge capacity has lost (rounded toward zero, negative when
    /// the battery reports more than its design capacity).  Unknown
    /// without both capacities or with a zero design capacity.
    pub fn wear_percent(&self) -> (r: Option<i128>)
        ensures
            r == match (self.design_capacity_mwh, self.full_capacity_mwh) {
                (Option::Some(design), Option::Some(full)) => if design > 0 {
                    Option::Some(
                        crate::num::trunc_div(
                            (design as int - full as int) * 100,
                            design as int,
                        ) as i128,
                    )
                } else {
                    Option::<i128>::None
                },
                _ => Option::<i128>::None,
            },
    {
        match (self.design_capacity_mwh, self.full_capacity_mwh) {
            (Option::Some(design), Option::Some(full)) => {
                if design > 0 {
                    let diff: i128 = design as i128 - full as i128;
                    let wear: i128 = crate::num::div_trunc(diff * 100, design as i128);
                    proof {
                        crate::num::lemma_trunc_div_bounded(
                            diff * 100,
                            design as int,
                            100 * (u64::MAX as int),
                        );
                    }
                    Option::Some(wear)
                } else {
                    Option::None
                }
            },
            _ => Option::None,
        }
    }

    /// Does the battery need replacement: reported health below 80
    /// percent, or, without a health figure, wear above 20 percent?
    pub fn needs_replacement(&self) -> (r: bool)
        ensures
            r == match self.health_percent {
                Option::Some(h) => h < 80,
                Option::None => match self.wear_percent_spec() {
                    Option::Some(w) => w > 20,
                    Option::None => false,
                },
            },
    {
        match self.health_percent {
            Option::Some(h) => h < 80,
            Option::None => match self.wear_percent() {
                Option::Some(w) => w > 20,
                Option::None => false,
            },
        }
    }

    /// The wear figure `wear_percent` reports, as a specification.
    pub open spec fn wear_percent_spec(&self) -> Option<int> {
        match (self.design_capacity_mwh, self.full_capacity_mwh) {
            (Option::Some(design), Option::Some(full)) => if design > 0 {
                Option::Some(
                    crate::num::trunc_div((design as int - full as int) * 100, design as int),
                )
            } else {
                Option::<int>::None
            },
            _ => Option::<int>::None,
        }
    }
}

} // verus!
