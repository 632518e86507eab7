//! Storage device description: type, capacity, and free space.

use vstd::prelude::*;
use vstd::string::StringExecFns;

verus! {

/// Storage device type
#[derive(Debug, Clone, Copy, PartialEq, Eq, Structural)]
pub enum StorageType {
    SSD,
    HDD,
    NVMe,
    EMmc,
    SD,
    USB,
    Unknown,
}

impl StorageType {
    /// The text this storage type renders as.
    pub open spec fn spec_label(&self) -> Seq<char> {
        match self {
            StorageType::SSD => "SSD"@,
            StorageType::HDD => "HDD"@,
            StorageType::NVMe => "NVMe"@,
            StorageType::EMmc => "eMMC"@,
            StorageType::SD => "SD Card"@,
            StorageType::USB => "USB"@,
            StorageType::Unknown => "Unknown"@,
        }
    }

    /// Render the storage type as text.
    pub fn label(&self) -> (r: String)
        ensures
            r@ == self.spec_label(),
    {
        match self {
            StorageType::SSD => String::from_str("SSD"),
            StorageType::HDD => String::from_str("HDD"),
            StorageType::NVMe => String::from_str("NVMe"),
            StorageType::EMmc => String::from_str("eMMC"),
            StorageType::SD => String::from_str("SD Card"),
            StorageType::USB => String::from_str("USB"),
            StorageType::Unknown => String::from_str("Unknown"),
        }
    }

    /// Solid-state storage: SSD or NVMe.
    pub fn is_solid_state(&self) -> (r: bool)
        ensures
            r == (*self == StorageType::SSD || *self == StorageType::NVMe),
    {
        match self {
            StorageType::SSD => true,
            StorageType::NVMe => true,
            _ => false,
        }
    }
}

/// Storage device information.
#[derive(Debug)]
pub struct StorageInfo {
    /// Device name/model
    pub model: String,
    /// Storage type
    pub storage_type: StorageType,
    /// Total capacity in MB
    pub capacity_mb: u64,
    /// Available space in MB
    pub available_mb: u64,
    /// Used space in MB
    pub used_mb: u64,
    /// Mount point or drive letter
    pub mount_point: Option<String>,
    /// File system
    pub file_system: Option<String>,
}

/// Field-by-field equality of two storage descriptions, over views.
pub open spec fn storage_eq(a: &StorageInfo, b: &StorageInfo) -> bool {
    &&& a.model@ == b.model@
    &&& a.storage_type == b.storage_type
    &&& a.capacity_mb == b.capacity_mb
    &&& a.available_mb == b.available_mb
    &&& a.used_mb == b.used_mb
    &&& a.mount_point == b.mount_point
    &&& a.file_system == b.file_system
}

impl Clone for StorageInfo {
    fn clone(&self) -> (r: Self)
        ensures
            storage_eq(&r, self),
    {
        StorageInfo {
            model: self.model.clone(),
            storage_type: self.storage_type,
            capacity_mb: self.capacity_mb,
            available_mb: self.available_mb,
            used_mb: self.used_mb,
            mount_point: self.mount_point.clone(),
            file_system: self.file_system.clone(),
        }
    }
}

impl StorageInfo {
    /// Get device model.
    pub fn model(&self) -> (r: &str)
        ensures
            r@ == self.model@,
    {
        self.model.as_str()
    }

    /// Get storage type.
    pub fn drive_type(&self) -> (r: &StorageType)
        ensures
            r == &self.storage_type,
    {
        &self.storage_type
    }

    /// Get total capacity in MB.
    pub fn capacity_mb(&self) -> (r: u64)
        ensures
            r == self.capacity_mb,
    {
        self.capacity_mb
    }

    /// Get available space in MB.
    pub fn available_mb(&self) -> (r: u64)
        ensures
            r == self.available_mb,
    {
        self.available_mb
    }

    /// Get used space in MB.
    pub fn used_mb(&self) -> (r: u64)
        ensures
            r == self.used_mb,
    {
        self.used_mb
    }

    /// Is the device solid-state (SSD or NVMe)?
    pub fn is_ssd(&self) -> (r: bool)
        ensures
            r == (self.storage_type == StorageType::SSD || self.storage_type
                == StorageType::NVMe),
    {
        self.storage_type.is_solid_state()
    }

    /// Used space in whole percent of capacity: zero when capacity is
    /// zero, capped at `u64::MAX` for inconsistent inputs.
    pub fn usage_percent(&self) -> (r: u64)
        ensures
            self.capacity_mb == 0 ==> r == 0,
            self.capacity_mb > 0 ==> r == vstd::math::min(
                self.used_mb as int * 100 / self.capacity_mb as int,
                u64::MAX as int,
            ),
    {
        if self.capacity_mb == 0 {
            0
        } else {
            let wide: u128 = (self.used_mb as u128) * 100 / (self.capacity_mb as u128);
            if wide > u64::MAX as u128 {
                u64::MAX
            } else {
                wide as u64
            }
        }
    }

    /// Is at least `required_mb` of space available?
    pub fn has_free_space(&self, required_mb: u64) -> (r: bool)
        ensures
            r == (self.available_mb >= required_mb),
    {
        self.available_mb >= required_mb
    }
}

} // verus!
