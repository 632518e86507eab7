//! Cross-platform hardware inventory and monitoring library.
//!
//! The heart of the crate is the continuous monitoring engine: a polling
//! state machine that samples hardware state, detects threshold crossings,
//! predicts thermal-throttling onset from temperature trends, and fans
//! events out to subscribers.  All quantities are carried as plain integers
//! (temperatures in hundredths of a degree Celsius, power in centiwatts,
//! sizes in megabytes) so that every rule is stated and proved exactly.
//!
//! Operating-system queries, the async polling runtime, and serialization
//! live outside this crate; the library receives plain snapshot values and
//! decides everything from them.

pub mod arm;
pub mod battery;
pub mod builder;
pub mod cpu;
pub mod dispatch;
pub mod error;
pub mod events;
pub mod fpga;
pub mod gpu;
pub mod hardware;
pub mod memory;
pub mod monitoring;
pub mod network;
pub mod npu;
pub mod num;
pub mod pci;
pub mod platform;
pub mod power;
pub mod presets;
pub mod simple;
pub mod storage;
pub mod strutil;
pub mod thermal;
pub mod tpu;
pub mod usb;
pub mod virtualization;

pub use arm::ARMSystemType;
pub use battery::{BatteryInfo, BatteryStatus};
pub use builder::{CustomHardwareInfo, HardwareQueryBuilder};
pub use cpu::{CPUFeature, CPUInfo, CPUVendor};
pub use dispatch::{EventDispatcher, EventReceiver, Received};
pub use error::{HardwareQueryError, HwResult};
pub use events::{HardwareChangeType, MonitoringEvent};
pub use fpga::{FPGAFamily, FPGAInfo, FPGAInterface, FPGAVendor};
pub use gpu::{ComputeCapabilities, GPUInfo, GPUType, GPUVendor};
pub use hardware::HardwareInfo;
pub use memory::{MemoryInfo, MemoryType};
pub use monitoring::{HardwareMonitor, MonitoringConfig, MonitoringStats};
pub use network::{NetworkInfo, NetworkType};
pub use npu::{NPUArchitecture, NPUInfo, NPUType, NPUVendor};
pub use pci::PCIDevice;
pub use power::{PowerOptimization, PowerProfile, PowerState, ThrottlingRisk};
pub use presets::HardwarePresets;
pub use simple::{
    HealthStatus, PowerStatus, SimpleCPU, SimpleGPU, SimpleStorage, SystemHealth, SystemOverview,
    TemperatureStatus,
};
pub use storage::{StorageInfo, StorageType};
pub use thermal::{
    CoolingRecommendation, FanInfo, ThermalInfo, ThermalSensor, ThrottlingPrediction,
    ThrottlingSeverity,
};
pub use tpu::{TPUArchitecture, TPUConnectionType, TPUInfo, TPUVendor};
pub use usb::USBDevice;
pub use virtualization::{ContainerRuntime, VirtualizationInfo, VirtualizationType};
