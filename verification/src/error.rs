//! Error type shared by every fallible operation of the library.

use vstd::prelude::*;
use vstd::string::StringExecFns;

verus! {

/// Error raised by hardware queries and by the monitoring engine.
///
/// Each variant carries a human-readable description of what failed.
#[derive(Debug, Clone, PartialEq, Eq)]
pub enum HardwareQueryError {
    /// System information is not available
    SystemInfoUnavailable(String),
    /// Hardware device not found
    DeviceNotFound(String),
    /// Platform not supported
    PlatformNotSupported(String),
    /// Permission denied accessing hardware information
    PermissionDenied(String),
    /// I/O error occurred
    IoError(String),
    /// Serialization error
    SerializationError(String),
    /// GPU driver error
    GPUDriverError(String),
    /// Invalid hardware configuration
    InvalidConfiguration(String),
    /// Monitoring error
    MonitoringError(String),
    /// Power management error
    PowerManagementError(String),
    /// Virtualization detection error
    VirtualizationError(String),
    /// Thermal management error
    ThermalError(String),
    /// Unknown error
    Unknown(String),
}

/// Result type for hardware query operations.
pub type HwResult<T> = Result<T, HardwareQueryError>;

impl HardwareQueryError {
    /// The description carried by this error, without the category prefix.
    pub open spec fn spec_detail(&self) -> Seq<char> {
        match self {
            HardwareQueryError::SystemInfoUnavailable(s) => s@,
            HardwareQueryError::DeviceNotFound(s) => s@,
            HardwareQueryError::PlatformNotSupported(s) => s@,
            HardwareQueryError::PermissionDenied(s) => s@,
            HardwareQueryError::IoError(s) => s@,
            HardwareQueryError::SerializationError(s) => s@,
            HardwareQueryError::GPUDriverError(s) => s@,
            HardwareQueryError::InvalidConfiguration(s) => s@,
            HardwareQueryError::MonitoringError(s) => s@,
            HardwareQueryError::PowerManagementError(s) => s@,
            HardwareQueryError::VirtualizationError(s) => s@,
            HardwareQueryError::ThermalError(s) => s@,
            HardwareQueryError::Unknown(s) => s@,
        }
    }

    /// The category prefix used when rendering this error as text.
    pub open spec fn spec_prefix(&self) -> Seq<char> {
        match self {
            HardwareQueryError::SystemInfoUnavailable(_) => "System information not available: "@,
            HardwareQueryError::DeviceNotFound(_) => "Hardware device not found: "@,
            HardwareQueryError::PlatformNotSupported(_) => "Platform not supported: "@,
            HardwareQueryError::PermissionDenied(_) => "Permission denied: "@,
            HardwareQueryError::IoError(_) => "I/O error: "@,
            HardwareQueryError::SerializationError(_) => "Serialization error: "@,
            HardwareQueryError::GPUDriverError(_) => "GPU driver error: "@,
            HardwareQueryError::InvalidConfiguration(_) => "Invalid hardware configuration: "@,
            HardwareQueryError::MonitoringError(_) => "Monitoring error: "@,
            HardwareQueryError::PowerManagementError(_) => "Power management error: "@,
            HardwareQueryError::VirtualizationError(_) => "Virtualization error: "@,
            HardwareQueryError::ThermalError(_) => "Thermal management error: "@,
            HardwareQueryError::Unknown(_) => "Unknown error: "@,
        }
    }

    /// Render the error as `"<category prefix><detail>"`.
    pub fn message(&self) -> (r: String)
        ensures
            r@ == self.spec_prefix() + self.spec_detail(),
    {
        let prefix: &str = match self {
            HardwareQueryError::SystemInfoUnavailable(_) => "System information not available: ",
            HardwareQueryError::DeviceNotFound(_) => "Hardware device not found: ",
            HardwareQueryError::PlatformNotSupported(_) => "Platform not supported: ",
            HardwareQueryError::PermissionDenied(_) => "Permission denied: ",
            HardwareQueryError::IoError(_) => "I/O error: ",
            HardwareQueryError::SerializationError(_) => "Serialization error: ",
            HardwareQueryError::GPUDriverError(_) => "GPU driver error: ",
            HardwareQueryError::InvalidConfiguration(_) => "Invalid hardware configuration: ",
            HardwareQueryError::MonitoringError(_) => "Monitoring error: ",
            HardwareQueryError::PowerManagementError(_) => "Power management error: ",
            HardwareQueryError::VirtualizationError(_) => "Virtualization error: ",
            HardwareQueryError::ThermalError(_) => "Thermal management error: ",
            HardwareQueryError::Unknown(_) => "Unknown error: ",
        };
        let detail: &str = match self {
            HardwareQueryError::SystemInfoUnavailable(s) => s.as_str(),
            HardwareQueryError::DeviceNotFound(s) => s.as_str(),
            HardwareQueryError::PlatformNotSupported(s) => s.as_str(),
            HardwareQueryError::PermissionDenied(s) => s.as_str(),
            HardwareQueryError::IoError(s) => s.as_str(),
            HardwareQueryError::SerializationError(s) => s.as_str(),
            HardwareQueryError::GPUDriverError(s) => s.as_str(),
            HardwareQueryError::InvalidConfiguration(s) => s.as_str(),
            HardwareQueryError::MonitoringError(s) => s.as_str(),
            HardwareQueryError::PowerManagementError(s) => s.as_str(),
            HardwareQueryError::VirtualizationError(s) => s.as_str(),
            HardwareQueryError::ThermalError(s) => s.as_str(),
            HardwareQueryError::Unknown(s) => s.as_str(),
        };
        let mut out = String::from_str(prefix);
        out.append(detail);
        out
    }

    /// Build a `SystemInfoUnavailable` error from a message.
    pub fn system_info_unavailable(msg: &str) -> (r: Self)
        ensures
            r matches HardwareQueryError::SystemInfoUnavailable(s) && s@ == msg@,
    {
        HardwareQueryError::SystemInfoUnavailable(String::from_str(msg))
    }

    /// Build a `DeviceNotFound` error from a message.
    pub fn device_not_found(msg: &str) -> (r: Self)
        ensures
            r matches HardwareQueryError::DeviceNotFound(s) && s@ == msg@,
    {
        HardwareQueryError::DeviceNotFound(String::from_str(msg))
    }

    /// Build a `PlatformNotSupported` error from a message.
    pub fn platform_not_supported(msg: &str) -> (r: Self)
        ensures
            r matches HardwareQueryError::PlatformNotSupported(s) && s@ == msg@,
    {
        HardwareQueryError::PlatformNotSupported(String::from_str(msg))
    }

    /// Build a `PermissionDenied` error from a message.
    pub fn permission_denied(msg: &str) -> (r: Self)
        ensures
            r matches HardwareQueryError::PermissionDenied(s) && s@ == msg@,
    {
        HardwareQueryError::PermissionDenied(String::from_str(msg))
    }

    /// Build a `GPUDriverError` error from a message.
    pub fn gpu_driver_error(msg: &str) -> (r: Self)
        ensures
            r matches HardwareQueryError::GPUDriverError(s) && s@ == msg@,
    {
        HardwareQueryError::GPUDriverError(String::from_str(msg))
    }

    /// Build an `InvalidConfiguration` error from a message.
    pub fn invalid_configuration(msg: &str) -> (r: Self)
        ensures
            r matches HardwareQueryError::InvalidConfiguration(s) && s@ == msg@,
    {
        HardwareQueryError::InvalidConfiguration(String::from_str(msg))
    }

    /// Build a `MonitoringError` error from a message.
    pub fn monitoring_error(msg: &str) -> (r: Self)
        ensures
            r matches HardwareQueryError::MonitoringError(s) && s@ == msg@,
    {
        HardwareQueryError::MonitoringError(String::from_str(msg))
    }

    /// Build a `PowerManagementError` error from a message.
    pub fn power_management_error(msg: &str) -> (r: Self)
        ensures
            r matches HardwareQueryError::PowerManagementError(s) && s@ == msg@,
    {
        HardwareQueryError::PowerManagementError(String::from_str(msg))
    }

    /// Build a `VirtualizationError` error from a message.
    pub fn virtualization_error(msg: &str) -> (r: Self)
        ensures
            r matches HardwareQueryError::VirtualizationError(s) && s@ == msg@,
    {
        HardwareQueryError::VirtualizationError(String::from_str(msg))
    }

    /// Build a `ThermalError` error from a message.
    pub fn thermal_error(msg: &str) -> (r: Self)
        ensures
            r matches HardwareQueryError::ThermalError(s) && s@ == msg@,
    {
        HardwareQueryError::ThermalError(String::from_str(msg))
    }

    /// Build an `Unknown` error from a message.
    pub fn unknown(msg: &str) -> (r: Self)
        ensures
            r matches HardwareQueryError::Unknown(s) && s@ == msg@,
    {
        HardwareQueryError::Unknown(String::from_str(msg))
    }
}

} // verus!
