//! Builder for selective hardware queries.
//!
//! The builder records which categories a caller wants; the selection of
//! those categories out of a full snapshot is the pure part of a query
//! and is specified exactly.  Performing the underlying operating-system
//! query is the runtime's job outside the library.

use vstd::prelude::*;
use vstd::string::StringExecFns;

use crate::battery::{battery_eq, BatteryInfo};
use crate::cpu::{cpu_eq, CPUInfo};
use crate::gpu::{gpu_eq, GPUInfo};
use crate::hardware::{
    gpus_eq, networks_eq, pcis_eq, storages_eq, usbs_eq, HardwareInfo,
};
use crate::memory::{memory_eq, MemoryInfo};
use crate::network::NetworkInfo;
use crate::pci::PCIDevice;
use crate::power::{power_eq, PowerProfile};
use crate::storage::StorageInfo;
use crate::strutil;
use crate::strutil::dec_str;
use crate::strutil::strings_view;
use crate::thermal::{thermal_eq, ThermalInfo};
use crate::usb::USBDevice;
use crate::virtualization::{virtualization_eq, VirtualizationInfo};

verus! {

/// Hardware query builder for selective information gathering.
#[derive(Debug, Clone, Copy, PartialEq, Eq, Structural)]
pub struct HardwareQueryBuilder {
    /// Query CPU information
    pub include_cpu: bool,
    /// Query GPU information
    pub include_gpu: bool,
    /// Query memory information
    pub include_memory: bool,
    /// Query storage information
    pub include_storage: bool,
    /// Query network information
    pub include_network: bool,
    /// Query battery information
    pub include_battery: bool,
    /// Query thermal information
    pub include_thermal: bool,
    /// Query PCI devices
    pub include_pci: bool,
    /// Query USB devices
    pub include_usb: bool,
    /// Query virtualization information
    pub include_virtualization: bool,
    /// Query capability details
    pub include_capabilities: bool,
    /// Query power management information
    pub include_power: bool,
}

/// Customizable hardware information result.
#[derive(Debug)]
pub struct CustomHardwareInfo {
    /// CPU information, if requested
    pub cpu: Option<CPUInfo>,
    /// GPU devices, if requested
    pub gpus: Vec<GPUInfo>,
    /// Memory information, if requested
    pub memory: Option<MemoryInfo>,
    /// Storage devices, if requested
    pub storage_devices: Vec<StorageInfo>,
    /// Network interfaces, if requested
    pub network_interfaces: Vec<NetworkInfo>,
    /// Battery, if requested and present
    pub battery: Option<BatteryInfo>,
    /// Thermal state, if requested
    pub thermal: Option<ThermalInfo>,
    /// PCI devices, if requested
    pub pci_devices: Vec<PCIDevice>,
    /// USB devices, if requested
    pub usb_devices: Vec<USBDevice>,
    /// Virtualization environment, if requested
    pub virtualization: Option<VirtualizationInfo>,
    /// Power profile, if requested and available
    pub power_profile: Option<PowerProfile>,
    /// When this information was collected, in milliseconds
    pub timestamp_ms: u64,
    /// Query execution time in milliseconds
    pub query_time_ms: u64,
    /// Which components were requested
    pub requested_components: Vec<String>,
}

/// The component names a builder requests, in their fixed order.
pub open spec fn spec_requested_components(b: HardwareQueryBuilder) -> Seq<Seq<char>> {
    (if b.include_cpu {
        seq!["CPU"@]
    } else {
        Seq::empty()
    }) + (if b.include_gpu {
        seq!["GPU"@]
    } else {
        Seq::empty()
    }) + (if b.include_memory {
        seq!["Memory"@]
    } else {
        Seq::empty()
    }) + (if b.include_storage {
        seq!["Storage"@]
    } else {
        Seq::empty()
    }) + (if b.include_network {
        seq!["Network"@]
    } else {
        Seq::empty()
    }) + (if b.include_battery {
        seq!["Battery"@]
    } else {
        Seq::empty()
    }) + (if b.include_thermal {
        seq!["Thermal"@]
    } else {
        Seq::empty()
    }) + (if b.include_pci {
        seq!["PCI"@]
    } else {
        Seq::empty()
    }) + (if b.include_usb {
        seq!["USB"@]
    } else {
        Seq::empty()
    }) + (if b.include_virtualization {
        seq!["Virtualization"@]
    } else {
        Seq::empty()
    }) + (if b.include_power {
        seq!["Power"@]
    } else {
        Seq::empty()
    })
}

impl HardwareQueryBuilder {
    /// Create a new builder that requests nothing.
    pub fn new() -> (r: Self)
        ensures
            !r.include_cpu,
            !r.include_gpu,
            !r.include_memory,
            !r.include_storage,
            !r.include_network,
            !r.include_battery,
            !r.include_thermal,
            !r.include_pci,
            !r.include_usb,
            !r.include_virtualization,
            !r.include_capabilities,
            !r.include_power,
    {
        HardwareQueryBuilder {
            include_cpu: false,
            include_gpu: false,
            include_memory: false,
            include_storage: false,
            include_network: false,
            include_battery: false,
            include_thermal: false,
            include_pci: false,
            include_usb: false,
            include_virtualization: false,
            include_capabilities: false,
            include_power: false,
        }
    }

    /// Include CPU information in the query.
    pub fn with_cpu(self) -> (r: Self)
        ensures
            r.include_cpu,
            r.include_gpu == self.include_gpu,
            r.include_memory == self.include_memory,
            r.include_storage == self.include_storage,
            r.include_network == self.include_network,
            r.include_battery == self.include_battery,
            r.include_thermal == self.include_thermal,
            r.include_pci == self.include_pci,
            r.include_usb == self.include_usb,
            r.include_virtualization == self.include_virtualization,
            r.include_capabilities == self.include_capabilities,
            r.include_power == self.include_power,
    {
        HardwareQueryBuilder {
            include_cpu: true,
            include_gpu: self.include_gpu,
            include_memory: self.include_memory,
            include_storage: self.include_storage,
            include_network: self.include_network,
            include_battery: self.include_battery,
            include_thermal: self.include_thermal,
            include_pci: self.include_pci,
            include_usb: self.include_usb,
            include_virtualization: self.include_virtualization,
            include_capabilities: self.include_capabilities,
            include_power: self.include_power,
        }
    }

    /// Include GPU information in the query.
    pub fn with_gpu(self) -> (r: Self)
        ensures
            r.include_cpu == self.include_cpu,
            r.include_gpu,
            r.include_memory == self.include_memory,
            r.include_storage == self.include_storage,
            r.include_network == self.include_network,
            r.include_battery == self.include_battery,
            r.include_thermal == self.include_thermal,
            r.include_pci == self.include_pci,
            r.include_usb == self.include_usb,
            r.include_virtualization == self.include_virtualization,
            r.include_capabilities == self.include_capabilities,
            r.include_power == self.include_power,
    {
        HardwareQueryBuilder {
            include_cpu: self.include_cpu,
            include_gpu: true,
            include_memory: self.include_memory,
            include_storage: self.include_storage,
            include_network: self.include_network,
            include_battery: self.include_battery,
            include_thermal: self.include_thermal,
            include_pci: self.include_pci,
            include_usb: self.include_usb,
            include_virtualization: self.include_virtualization,
            include_capabilities: self.include_capabilities,
            include_power: self.include_power,
        }
    }

    /// Include memory information in the query.
    pub fn with_memory(self) -> (r: Self)
        ensures
            r.include_cpu == self.include_cpu,
            r.include_gpu == self.include_gpu,
            r.include_memory,
            r.include_storage == self.include_storage,
            r.include_network == self.include_network,
            r.include_battery == self.include_battery,
            r.include_thermal == self.include_thermal,
            r.include_pci == self.include_pci,
            r.include_usb == self.include_usb,
            r.include_virtualization == self.include_virtualization,
            r.include_capabilities == self.include_capabilities,
            r.include_power == self.include_power,
    {
        HardwareQueryBuilder {
            include_cpu: self.include_cpu,
            include_gpu: self.include_gpu,
            include_memory: true,
            include_storage: self.include_storage,
            include_network: self.include_network,
            include_battery: self.include_battery,
            include_thermal: self.include_thermal,
            include_pci: self.include_pci,
            include_usb: self.include_usb,
            include_virtualization: self.include_virtualization,
            include_capabilities: self.include_capabilities,
            include_power: self.include_power,
        }
    }

    /// Include storage information in the query.
    pub fn with_storage(self) -> (r: Self)
        ensures
            r.include_cpu == self.include_cpu,
            r.include_gpu == self.include_gpu,
            r.include_memory == self.include_memory,
            r.include_storage,
            r.include_network == self.include_network,
            r.include_battery == self.include_battery,
            r.include_thermal == self.include_thermal,
            r.include_pci == self.include_pci,
            r.include_usb == self.include_usb,
            r.include_virtualization == self.include_virtualization,
            r.include_capabilities == self.include_capabilities,
            r.include_power == self.include_power,
    {
        HardwareQueryBuilder {
            include_cpu: self.include_cpu,
            include_gpu: self.include_gpu,
            include_memory: self.include_memory,
            include_storage: true,
            include_network: self.include_network,
            include_battery: self.include_battery,
            include_thermal: self.include_thermal,
            include_pci: self.include_pci,
            include_usb: self.include_usb,
            include_virtualization: self.include_virtualization,
            include_capabilities: self.include_capabilities,
            include_power: self.include_power,
        }
    }

    /// Include network information in the query.
    pub fn with_network(self) -> (r: Self)
        ensures
            r.include_cpu == self.include_cpu,
            r.include_gpu == self.include_gpu,
            r.include_memory == self.include_memory,
            r.include_storage == self.include_storage,
            r.include_network,
            r.include_battery == self.include_battery,
            r.include_thermal == self.include_thermal,
            r.include_pci == self.include_pci,
            r.include_usb == self.include_usb,
            r.include_virtualization == self.include_virtualization,
            r.include_capabilities == self.include_capabilities,
            r.include_power == self.include_power,
    {
        HardwareQueryBuilder {
            include_cpu: self.include_cpu,
            include_gpu: self.include_gpu,
            include_memory: self.include_memory,
            include_storage: self.include_storage,
            include_network: true,
            include_battery: self.include_battery,
            include_thermal: self.include_thermal,
            include_pci: self.include_pci,
            include_usb: self.include_usb,
            include_virtualization: self.include_virtualization,
            include_capabilities: self.include_capabilities,
            include_power: self.include_power,
        }
    }

    /// Include battery information in the query.
    pub fn with_battery(self) -> (r: Self)
        ensures
            r.include_cpu == self.include_cpu,
            r.include_gpu == self.include_gpu,
            r.include_memory == self.include_memory,
            r.include_storage == self.include_storage,
            r.include_network == self.include_network,
            r.include_battery,
            r.include_thermal == self.include_thermal,
            r.include_pci == self.include_pci,
            r.include_usb == self.include_usb,
            r.include_virtualization == self.include_virtualization,
            r.include_capabilities == self.include_capabilities,
            r.include_power == self.include_power,
    {
        HardwareQueryBuilder {
            include_cpu: self.include_cpu,
            include_gpu: self.include_gpu,
            include_memory: self.include_memory,
            include_storage: self.include_storage,
            include_network: self.include_network,
            include_battery: true,
            include_thermal: self.include_thermal,
            include_pci: self.include_pci,
            include_usb: self.include_usb,
            include_virtualization: self.include_virtualization,
            include_capabilities: self.include_capabilities,
            include_power: self.include_power,
        }
    }

    /// Include thermal information in the query.
    pub fn with_thermal(self) -> (r: Self)
        ensures
            r.include_cpu == self.include_cpu,
            r.include_gpu == self.include_gpu,
            r.include_memory == self.include_memory,
            r.include_storage == self.include_storage,
            r.include_network == self.include_network,
            r.include_battery == self.include_battery,
            r.include_thermal,
            r.include_pci == self.include_pci,
            r.include_usb == self.include_usb,
            r.include_virtualization == self.include_virtualization,
            r.include_capabilities == self.include_capabilities,
            r.include_power == self.include_power,
    {
        HardwareQueryBuilder {
            include_cpu: self.include_cpu,
            include_gpu: self.include_gpu,
            include_memory: self.include_memory,
            include_storage: self.include_storage,
            include_network: self.include_network,
            include_battery: self.include_battery,
            include_thermal: true,
            include_pci: self.include_pci,
            include_usb: self.include_usb,
            include_virtualization: self.include_virtualization,
            include_capabilities: self.include_capabilities,
            include_power: self.include_power,
        }
    }

    /// Include PCI device information in the query.
    pub fn with_pci(self) -> (r: Self)
        ensures
            r.include_cpu == self.include_cpu,
            r.include_gpu == self.include_gpu,
            r.include_memory == self.include_memory,
            r.include_storage == self.include_storage,
            r.include_network == self.include_network,
            r.include_battery == self.include_battery,
            r.include_thermal == self.include_thermal,
            r.include_pci,
            r.include_usb == self.include_usb,
            r.include_virtualization == self.include_virtualization,
            r.include_capabilities == self.include_capabilities,
            r.include_power == self.include_power,
    {
        HardwareQueryBuilder {
            include_cpu: self.include_cpu,
            include_gpu: self.include_gpu,
            include_memory: self.include_memory,
            include_storage: self.include_storage,
            include_network: self.include_network,
            include_battery: self.include_battery,
            include_thermal: self.include_thermal,
            include_pci: true,
            include_usb: self.include_usb,
            include_virtualization: self.include_virtualization,
            include_capabilities: self.include_capabilities,
            include_power: self.include_power,
        }
    }

    /// Include USB device information in the query.
    pub fn with_usb(self) -> (r: Self)
        ensures
            r.include_cpu == self.include_cpu,
            r.include_gpu == self.include_gpu,
            r.include_memory == self.include_memory,
            r.include_storage == self.include_storage,
            r.include_network == self.include_network,
            r.include_battery == self.include_battery,
            r.include_thermal == self.include_thermal,
            r.include_pci == self.include_pci,
            r.include_usb,
            r.include_virtualization == self.include_virtualization,
            r.include_capabilities == self.include_capabilities,
            r.include_power == self.include_power,
    {
        HardwareQueryBuilder {
            include_cpu: self.include_cpu,
            include_gpu: self.include_gpu,
            include_memory: self.include_memory,
            include_storage: self.include_storage,
            include_network: self.include_network,
            include_battery: self.include_battery,
            include_thermal: self.include_thermal,
            include_pci: self.include_pci,
            include_usb: true,
            include_virtualization: self.include_virtualization,
            include_capabilities: self.include_capabilities,
            include_power: self.include_power,
        }
    }

    /// Include virtualization information in the query.
    pub fn with_virtualization(self) -> (r: Self)
        ensures
            r.include_cpu == self.include_cpu,
            r.include_gpu == self.include_gpu,
            r.include_memory == self.include_memory,
            r.include_storage == self.include_storage,
            r.include_network == self.include_network,
            r.include_battery == self.include_battery,
            r.include_thermal == self.include_thermal,
            r.include_pci == self.include_pci,
            r.include_usb == self.include_usb,
            r.include_virtualization,
            r.include_capabilities == self.include_capabilities,
            r.include_power == self.include_power,
    {
        HardwareQueryBuilder {
            include_cpu: self.include_cpu,
            include_gpu: self.include_gpu,
            include_memory: self.include_memory,
            include_storage: self.include_storage,
            include_network: self.include_network,
            include_battery: self.include_battery,
            include_thermal: self.include_thermal,
            include_pci: self.include_pci,
            include_usb: self.include_usb,
            include_virtualization: true,
            include_capabilities: self.include_capabilities,
            include_power: self.include_power,
        }
    }

    /// Include power management information in the query.
    pub fn with_power(self) -> (r: Self)
        ensures
            r.include_cpu == self.include_cpu,
            r.include_gpu == self.include_gpu,
            r.include_memory == self.include_memory,
            r.include_storage == self.include_storage,
            r.include_network == self.include_network,
            r.include_battery == self.include_battery,
            r.include_thermal == self.include_thermal,
            r.include_pci == self.include_pci,
            r.include_usb == self.include_usb,
            r.include_virtualization == self.include_virtualization,
            r.include_capabilities == self.include_capabilities,
            r.include_power,
    {
        HardwareQueryBuilder {
            include_cpu: self.include_cpu,
            include_gpu: self.include_gpu,
            include_memory: self.include_memory,
            include_storage: self.include_storage,
            include_network: self.include_network,
            include_battery: self.include_battery,
            include_thermal: self.include_thermal,
            include_pci: self.include_pci,
            include_usb: self.include_usb,
            include_virtualization: self.include_virtualization,
            include_capabilities: self.include_capabilities,
            include_power: true,
        }
    }

    /// Include all available hardware information.
    pub fn with_all(self) -> (r: Self)
        ensures
            r.include_cpu,
            r.include_gpu,
            r.include_memory,
            r.include_storage,
            r.include_network,
            r.include_battery,
            r.include_thermal,
            r.include_pci,
            r.include_usb,
            r.include_virtualization,
            r.include_capabilities == self.include_capabilities,
            r.include_power,
    {
        HardwareQueryBuilder {
            include_cpu: true,
            include_gpu: true,
            include_memory: true,
            include_storage: true,
            include_network: true,
            include_battery: true,
            include_thermal: true,
            include_pci: true,
            include_usb: true,
            include_virtualization: true,
            include_capabilities: self.include_capabilities,
            include_power: true,
        }
    }

    /// Include basic system information (CPU, memory, storage).
    pub fn with_basic(self) -> (r: Self)
        ensures
            r.include_cpu,
            r.include_gpu == self.include_gpu,
            r.include_memory,
            r.include_storage,
            r.include_network == self.include_network,
            r.include_battery == self.include_battery,
            r.include_thermal == self.include_thermal,
            r.include_pci == self.include_pci,
            r.include_usb == self.include_usb,
            r.include_virtualization == self.include_virtualization,
            r.include_capabilities == self.include_capabilities,
            r.include_power == self.include_power,
    {
        HardwareQueryBuilder {
            include_cpu: true,
            include_gpu: self.include_gpu,
            include_memory: true,
            include_storage: true,
            include_network: self.include_network,
            include_battery: self.include_battery,
            include_thermal: self.include_thermal,
            include_pci: self.include_pci,
            include_usb: self.include_usb,
            include_virtualization: self.include_virtualization,
            include_capabilities: self.include_capabilities,
            include_power: self.include_power,
        }
    }

    /// Include AI/ML relevant information.
    pub fn with_ai_focused(self) -> (r: Self)
        ensures
            r.include_cpu,
            r.include_gpu,
            r.include_memory,
            r.include_storage == self.include_storage,
            r.include_network == self.include_network,
            r.include_battery == self.include_battery,
            r.include_thermal,
            r.include_pci == self.include_pci,
            r.include_usb == self.include_usb,
            r.include_virtualization,
            r.include_capabilities == self.include_capabilities,
            r.include_power,
    {
        HardwareQueryBuilder {
            include_cpu: true,
            include_gpu: true,
            include_memory: true,
            include_storage: self.include_storage,
            include_network: self.include_network,
            include_battery: self.include_battery,
            include_thermal: true,
            include_pci: self.include_pci,
            include_usb: self.include_usb,
            include_virtualization: true,
            include_capabilities: self.include_capabilities,
            include_power: true,
        }
    }

    /// Include gaming-relevant information.
    pub fn with_gaming_focused(self) -> (r: Self)
        ensures
            r.include_cpu,
            r.include_gpu,
            r.include_memory,
            r.include_storage,
            r.include_network == self.include_network,
            r.include_battery == self.include_battery,
            r.include_thermal,
            r.include_pci == self.include_pci,
            r.include_usb == self.include_usb,
            r.include_virtualization == self.include_virtualization,
            r.include_capabilities == self.include_capabilities,
            r.include_power == self.include_power,
    {
        HardwareQueryBuilder {
            include_cpu: true,
            include_gpu: true,
            include_memory: true,
            include_storage: true,
            include_network: self.include_network,
            include_battery: self.include_battery,
            include_thermal: true,
            include_pci: self.include_pci,
            include_usb: self.include_usb,
            include_virtualization: self.include_virtualization,
            include_capabilities: self.include_capabilities,
            include_power: self.include_power,
        }
    }

    /// Include server/enterprise relevant information.
    pub fn with_server_focused(self) -> (r: Self)
        ensures
            r.include_cpu,
            r.include_gpu == self.include_gpu,
            r.include_memory,
            r.include_storage,
            r.include_network,
            r.include_battery == self.include_battery,
            r.include_thermal,
            r.include_pci,
            r.include_usb == self.include_usb,
            r.include_virtualization,
            r.include_capabilities == self.include_capabilities,
            r.include_power,
    {
        HardwareQueryBuilder {
            include_cpu: true,
            include_gpu: self.include_gpu,
            include_memory: true,
            include_storage: true,
            include_network: true,
            include_battery: self.include_battery,
            include_thermal: true,
            include_pci: true,
            include_usb: self.include_usb,
            include_virtualization: true,
            include_capabilities: self.include_capabilities,
            include_power: true,
        }
    }

    /// Filter GPUs by a custom predicate (selection to be applied by a
    /// future query layer; the flags are unchanged).
    pub fn filter_gpus<F: Fn(&GPUInfo) -> bool>(self, _filter: F) -> (r: Self)
        ensures
            r == self,
    {
        self
    }

    /// Filter storage devices by a custom predicate (selection to be
    /// applied by a future query layer; the flags are unchanged).
    pub fn filter_storage<F: Fn(&StorageInfo) -> bool>(self, _filter: F) -> (r: Self)
        ensures
            r == self,
    {
        self
    }

    /// Filter network interfaces by a custom predicate (selection to be
    /// applied by a future query layer; the flags are unchanged).
    pub fn filter_network<F: Fn(&NetworkInfo) -> bool>(self, _filter: F) -> (r: Self)
        ensures
            r == self,
    {
        self
    }

    /// Select the requested components out of a full snapshot: each
    /// requested category is copied, each unrequested one left empty, and
    /// the requested component names are recorded in their fixed order.
    #[verifier::rlimit(80)]
    pub fn select_components(
        &self,
        full: &HardwareInfo,
        timestamp_ms: u64,
        query_time_ms: u64,
    ) -> (r: CustomHardwareInfo)
        ensures
            self.include_cpu <==> r.cpu is Some,
            self.include_cpu ==> cpu_eq(&r.cpu->0, &full.cpu),
            self.include_gpu ==> gpus_eq(r.gpus@, full.gpus@),
            !self.include_gpu ==> r.gpus@.len() == 0,
            self.include_memory <==> r.memory is Some,
            self.include_memory ==> memory_eq(&r.memory->0, &full.memory),
            self.include_storage ==> storages_eq(r.storage_devices@, full.storage_devices@),
            !self.include_storage ==> r.storage_devices@.len() == 0,
            self.include_network ==> networks_eq(r.network_interfaces@, full.network_interfaces@),
            !self.include_network ==> r.network_interfaces@.len() == 0,
            (self.include_battery && full.battery is Some) <==> r.battery is Some,
            self.include_battery && full.battery is Some ==> battery_eq(
                &r.battery->0,
                &full.battery->0,
            ),
            self.include_thermal <==> r.thermal is Some,
            self.include_thermal ==> thermal_eq(&r.thermal->0, &full.thermal),
            self.include_pci ==> pcis_eq(r.pci_devices@, full.pci_devices@),
            !self.include_pci ==> r.pci_devices@.len() == 0,
            self.include_usb ==> usbs_eq(r.usb_devices@, full.usb_devices@),
            !self.include_usb ==> r.usb_devices@.len() == 0,
            self.include_virtualization <==> r.virtualization is Some,
            self.include_virtualization ==> virtualization_eq(
                &r.virtualization->0,
                &full.virtualization,
            ),
            (self.include_power && full.power_profile is Some) <==> r.power_profile is Some,
            self.include_power && full.power_profile is Some ==> power_eq(
                &r.power_profile->0,
                &full.power_profile->0,
            ),
            r.timestamp_ms == timestamp_ms,
            r.query_time_ms == query_time_ms,
            strings_view(r.requested_components@) == spec_requested_components(*self),
    {
        let requested_components: Vec<String> = requested_component_names(self);

        let cpu: Option<CPUInfo> = if self.include_cpu {
            Option::Some(full.cpu.clone())
        } else {
            Option::None
        };
        let gpus: Vec<GPUInfo> = if self.include_gpu {
            let c = full.gpus.clone();
            proof {
                assert forall|i: int| 0 <= i < c@.len() implies gpu_eq(
                    &#[trigger] c@[i],
                    &full.gpus@[i],
                ) by {
                    assert(cloned::<GPUInfo>(full.gpus@[i], c@[i]));
                }
            }
            c
        } else {
            Vec::new()
        };
        let memory: Option<MemoryInfo> = if self.include_memory {
            Option::Some(full.memory.clone())
        } else {
            Option::None
        };
        let storage_devices: Vec<StorageInfo> = if self.include_storage {
            let c = full.storage_devices.clone();
            proof {
                assert forall|i: int| 0 <= i < c@.len() implies crate::storage::storage_eq(
                    &#[trigger] c@[i],
                    &full.storage_devices@[i],
                ) by {
                    assert(cloned::<StorageInfo>(full.storage_devices@[i], c@[i]));
                }
            }
            c
        } else {
            Vec::new()
        };
        let network_interfaces: Vec<NetworkInfo> = if self.include_network {
            let c = full.network_interfaces.clone();
            proof {
                assert forall|i: int| 0 <= i < c@.len() implies crate::network::network_eq(
                    &#[trigger] c@[i],
                    &full.network_interfaces@[i],
                ) by {
                    assert(cloned::<NetworkInfo>(full.network_interfaces@[i], c@[i]));
                }
            }
            c
        } else {
            Vec::new()
        };
        let battery: Option<BatteryInfo> = if self.include_battery {
            match full.battery.as_ref() {
                Option::Some(b) => Option::Some(b.clone()),
                Option::None => Option::None,
            }
        } else {
            Option::None
        };
        let thermal: Option<ThermalInfo> = if self.include_thermal {
            Option::Some(full.thermal.clone())
        } else {
            Option::None
        };
        let pci_devices: Vec<PCIDevice> = if self.include_pci {
            let c = full.pci_devices.clone();
            proof {
                assert forall|i: int| 0 <= i < c@.len() implies crate::pci::pci_eq(
                    &#[trigger] c@[i],
                    &full.pci_devices@[i],
                ) by {
                    assert(cloned::<PCIDevice>(full.pci_devices@[i], c@[i]));
                }
            }
            c
        } else {
            Vec::new()
        };
        let usb_devices: Vec<USBDevice> = if self.include_usb {
            let c = full.usb_devices.clone();
            proof {
                assert forall|i: int| 0 <= i < c@.len() implies crate::usb::usb_eq(
                    &#[trigger] c@[i],
                    &full.usb_devices@[i],
                ) by {
                    assert(cloned::<USBDevice>(full.usb_devices@[i], c@[i]));
                }
            }
            c
        } else {
            Vec::new()
        };
        let virtualization: Option<VirtualizationInfo> = if self.include_virtualization {
            Option::Some(full.virtualization.clone())
        } else {
            Option::None
        };
        let power_profile: Option<PowerProfile> = if self.include_power {
            match full.power_profile.as_ref() {
                Option::Some(p) => Option::Some(p.clone()),
                Option::None => Option::None,
            }
        } else {
            Option::None
        };

        CustomHardwareInfo {
            cpu,
            gpus,
            memory,
            storage_devices,
            network_interfaces,
            battery,
            thermal,
            pci_devices,
            usb_devices,
            virtualization,
            power_profile,
            timestamp_ms,
            query_time_ms,
            requested_components,
        }
    }
}


/// Append `name` to the component list when `cond` holds.
fn push_component(v: &mut Vec<String>, cond: bool, name: &str)
    ensures
        strings_view(final(v)@) == strings_view(old(v)@) + (if cond {
            seq![name@]
        } else {
            Seq::<Seq<char>>::empty()
        }),
{
    if cond {
        v.push(String::from_str(name));
        proof {
            assert(strings_view(v@) =~= strings_view(old(v)@) + seq![name@]);
        }
    } else {
        proof {
            assert(strings_view(v@) =~= strings_view(old(v)@) + Seq::<Seq<char>>::empty());
        }
    }
}

/// The requested component names of a builder, in their fixed order.
#[verifier::rlimit(100)]
fn requested_component_names(b: &HardwareQueryBuilder) -> (r: Vec<String>)
    ensures
        strings_view(r@) == spec_requested_components(*b),
{
    let mut v: Vec<String> = Vec::new();
    proof {
        assert(strings_view(v@) =~= Seq::<Seq<char>>::empty());
    }
    push_component(&mut v, b.include_cpu, "CPU");
    push_component(&mut v, b.include_gpu, "GPU");
    push_component(&mut v, b.include_memory, "Memory");
    push_component(&mut v, b.include_storage, "Storage");
    push_component(&mut v, b.include_network, "Network");
    push_component(&mut v, b.include_battery, "Battery");
    push_component(&mut v, b.include_thermal, "Thermal");
    push_component(&mut v, b.include_pci, "PCI");
    push_component(&mut v, b.include_usb, "USB");
    push_component(&mut v, b.include_virtualization, "Virtualization");
    push_component(&mut v, b.include_power, "Power");
    proof {
        assert(strings_view(v@) =~= spec_requested_components(*b));
    }
    v
}

impl CustomHardwareInfo {
    /// Was a component of this name requested (ignoring ASCII case)?
    pub fn has_component(&self, component: &str) -> (r: bool)
        ensures
            r == exists|i: int|
                0 <= i < self.requested_components@.len() && strutil::eq_ci(
                    #[trigger] self.requested_components@[i]@,
                    component@,
                ),
    {
        let n = self.requested_components.len();
        let mut i: usize = 0;
        while i < n
            invariant
                n == self.requested_components@.len(),
                i <= n,
                forall|k: int|
                    0 <= k < i ==> !strutil::eq_ci(
                        #[trigger] self.requested_components@[k]@,
                        component@,
                    ),
            decreases n - i,
        {
            if strutil::eq_ignore_case(self.requested_components[i].as_str(), component) {
                return true;
            }
            i += 1;
        }
        false
    }

    /// How many components were requested.
    pub fn component_count(&self) -> (r: usize)
        ensures
            r == self.requested_components@.len(),
    {
        self.requested_components.len()
    }
}

/// The parts joined with a comma and a space between neighbours.
pub open spec fn join_comma(parts: Seq<Seq<char>>) -> Seq<char>
    decreases parts.len(),
{
    if parts.len() == 0 {
        Seq::empty()
    } else if parts.len() == 1 {
        parts[0]
    } else {
        join_comma(parts.drop_last()) + ", "@ + parts.last()
    }
}

/// The one-line summary text of a query result.
pub open spec fn spec_query_summary(c: &CustomHardwareInfo) -> Seq<char> {
    "Queried "@ + dec_str(c.requested_components@.len() as int) + " components in "@ + dec_str(
        c.query_time_ms as int,
    ) + "ms: "@ + join_comma(strings_view(c.requested_components@))
}

impl CustomHardwareInfo {
    /// One line summarizing what was queried: the component count, the
    /// query time, and the component names.
    pub fn query_summary(&self) -> (r: String)
        ensures
            r@ == spec_query_summary(self),
    {
        let mut out = String::from_str("Queried ");
        let count = strutil::u64_to_string(self.requested_components.len() as u64);
        out.append(count.as_str());
        out.append(" components in ");
        let ms = strutil::u64_to_string(self.query_time_ms);
        out.append(ms.as_str());
        out.append("ms: ");
        let ghost prefix = out@;
        let n = self.requested_components.len();
        let mut i: usize = 0;
        while i < n
            invariant
                n == self.requested_components@.len(),
                i <= n,
                out@ == prefix + join_comma(strings_view(self.requested_components@).subrange(
                    0,
                    i as int,
                )),
            decreases n - i,
        {
            if i > 0 {
                out.append(", ");
            }
            out.append(self.requested_components[i].as_str());
            proof {
                let views = strings_view(self.requested_components@);
                assert(views.subrange(0, i as int + 1).drop_last() =~= views.subrange(0, i as int));
                assert(views.subrange(0, i as int + 1).last() == views[i as int]);
                if i == 0 {
                    assert(views.subrange(0, 1)[0] == views[0]);
                    assert(join_comma(views.subrange(0, 1)) == views.subrange(0, 1)[0]);
                }
                assert(out@ =~= prefix + join_comma(views.subrange(0, i as int + 1)));
            }
            i += 1;
        }
        proof {
            assert(strings_view(self.requested_components@).subrange(0, n as int) =~= strings_view(
                self.requested_components@,
            ));
            assert(out@ =~= spec_query_summary(self));
        }
        out
    }
}

} // verus!
