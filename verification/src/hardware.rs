//! The aggregate hardware snapshot handed to the monitoring engine and the
//! assessment layer.

use vstd::prelude::*;

use crate::battery::{battery_eq, BatteryInfo};
use crate::cpu::{cpu_eq, CPUInfo};
use crate::fpga::{fpga_eq, FPGAInfo};
use crate::gpu::{gpu_eq, GPUInfo};
use crate::memory::{memory_eq, MemoryInfo};
use crate::network::{network_eq, NetworkInfo};
use crate::npu::{npu_eq, NPUInfo};
use crate::num;
use crate::pci::{pci_eq, PCIDevice};
use crate::power::{power_eq, PowerProfile};
use crate::storage::{storage_eq, StorageInfo};
use crate::thermal::{thermal_eq, ThermalInfo};
use crate::tpu::{tpu_eq, TPUInfo};
use crate::usb::{usb_eq, USBDevice};
use crate::virtualization::{virtualization_eq, VirtualizationInfo};

verus! {

/// Complete hardware snapshot: one immutable capture of every category.
#[derive(Debug)]
pub struct HardwareInfo {
    /// CPU information
    pub cpu: CPUInfo,
    /// GPU devices
    pub gpus: Vec<GPUInfo>,
    /// NPU devices
    pub npus: Vec<NPUInfo>,
    /// TPU devices
    pub tpus: Vec<TPUInfo>,
    /// FPGA devices
    pub fpgas: Vec<FPGAInfo>,
    /// System memory
    pub memory: MemoryInfo,
    /// Storage devices
    pub storage_devices: Vec<StorageInfo>,
    /// Network interfaces
    pub network_interfaces: Vec<NetworkInfo>,
    /// Battery (if present)
    pub battery: Option<BatteryInfo>,
    /// Thermal state
    pub thermal: ThermalInfo,
    /// PCI devices
    pub pci_devices: Vec<PCIDevice>,
    /// USB devices
    pub usb_devices: Vec<USBDevice>,
    /// Virtualization environment
    pub virtualization: VirtualizationInfo,
    /// Power profile (if available)
    pub power_profile: Option<PowerProfile>,
}

/// Pointwise `gpu_eq` over two sequences.
pub open spec fn gpus_eq(a: Seq<GPUInfo>, b: Seq<GPUInfo>) -> bool {
    a.len() == b.len() && forall|i: int| 0 <= i < a.len() ==> gpu_eq(&#[trigger] a[i], &b[i])
}

/// Pointwise `npu_eq` over two sequences.
pub open spec fn npus_eq(a: Seq<NPUInfo>, b: Seq<NPUInfo>) -> bool {
    a.len() == b.len() && forall|i: int| 0 <= i < a.len() ==> npu_eq(&#[trigger] a[i], &b[i])
}

/// Pointwise `tpu_eq` over two sequences.
pub open spec fn tpus_eq(a: Seq<TPUInfo>, b: Seq<TPUInfo>) -> bool {
    a.len() == b.len() && forall|i: int| 0 <= i < a.len() ==> tpu_eq(&#[trigger] a[i], &b[i])
}

/// Pointwise `fpga_eq` over two sequences.
pub open spec fn fpgas_eq(a: Seq<FPGAInfo>, b: Seq<FPGAInfo>) -> bool {
    a.len() == b.len() && forall|i: int| 0 <= i < a.len() ==> fpga_eq(&#[trigger] a[i], &b[i])
}

/// Pointwise `storage_eq` over two sequences.
pub open spec fn storages_eq(a: Seq<StorageInfo>, b: Seq<StorageInfo>) -> bool {
    a.len() == b.len() && forall|i: int| 0 <= i < a.len() ==> storage_eq(&#[trigger] a[i], &b[i])
}

/// Pointwise `network_eq` over two sequences.
pub open spec fn networks_eq(a: Seq<NetworkInfo>, b: Seq<NetworkInfo>) -> bool {
    a.len() == b.len() && forall|i: int| 0 <= i < a.len() ==> network_eq(&#[trigger] a[i], &b[i])
}

/// Pointwise `pci_eq` over two sequences.
pub open spec fn pcis_eq(a: Seq<PCIDevice>, b: Seq<PCIDevice>) -> bool {
    a.len() == b.len() && forall|i: int| 0 <= i < a.len() ==> pci_eq(&#[trigger] a[i], &b[i])
}

/// Pointwise `usb_eq` over two sequences.
pub open spec fn usbs_eq(a: Seq<USBDevice>, b: Seq<USBDevice>) -> bool {
    a.len() == b.len() && forall|i: int| 0 <= i < a.len() ==> usb_eq(&#[trigger] a[i], &b[i])
}

/// Field-by-field equality of two hardware snapshots, over views.
pub open spec fn hw_eq(a: &HardwareInfo, b: &HardwareInfo) -> bool {
    &&& cpu_eq(&a.cpu, &b.cpu)
    &&& gpus_eq(a.gpus@, b.gpus@)
    &&& npus_eq(a.npus@, b.npus@)
    &&& tpus_eq(a.tpus@, b.tpus@)
    &&& fpgas_eq(a.fpgas@, b.fpgas@)
    &&& memory_eq(&a.memory, &b.memory)
    &&& storages_eq(a.storage_devices@, b.storage_devices@)
    &&& networks_eq(a.network_interfaces@, b.network_interfaces@)
    &&& match (&a.battery, &b.battery) {
        (Option::None, Option::None) => true,
        (Option::Some(x), Option::Some(y)) => battery_eq(x, y),
        _ => false,
    }
    &&& thermal_eq(&a.thermal, &b.thermal)
    &&& pcis_eq(a.pci_devices@, b.pci_devices@)
    &&& usbs_eq(a.usb_devices@, b.usb_devices@)
    &&& virtualization_eq(&a.virtualization, &b.virtualization)
    &&& match (&a.power_profile, &b.power_profile) {
        (Option::None, Option::None) => true,
        (Option::Some(x), Option::Some(y)) => power_eq(x, y),
        _ => false,
    }
}

impl Clone for HardwareInfo {
    fn clone(&self) -> (r: Self)
        ensures
            hw_eq(&r, self),
    {
        let gpus = self.gpus.clone();
        let npus = self.npus.clone();
        let tpus = self.tpus.clone();
        let fpgas = self.fpgas.clone();
        let storage_devices = self.storage_devices.clone();
        let network_interfaces = self.network_interfaces.clone();
        let pci_devices = self.pci_devices.clone();
        let usb_devices = self.usb_devices.clone();
        proof {
            assert forall|i: int| 0 <= i < gpus@.len() implies gpu_eq(
                &#[trigger] gpus@[i],
                &self.gpus@[i],
            ) by {
                assert(cloned::<GPUInfo>(self.gpus@[i], gpus@[i]));
            }
            assert forall|i: int| 0 <= i < npus@.len() implies npu_eq(
                &#[trigger] npus@[i],
                &self.npus@[i],
            ) by {
                assert(cloned::<NPUInfo>(self.npus@[i], npus@[i]));
            }
            assert forall|i: int| 0 <= i < tpus@.len() implies tpu_eq(
                &#[trigger] tpus@[i],
                &self.tpus@[i],
            ) by {
                assert(cloned::<TPUInfo>(self.tpus@[i], tpus@[i]));
            }
            assert forall|i: int| 0 <= i < fpgas@.len() implies fpga_eq(
                &#[trigger] fpgas@[i],
                &self.fpgas@[i],
            ) by {
                assert(cloned::<FPGAInfo>(self.fpgas@[i], fpgas@[i]));
            }
            assert forall|i: int| 0 <= i < storage_devices@.len() implies storage_eq(
                &#[trigger] storage_devices@[i],
                &self.storage_devices@[i],
            ) by {
                assert(cloned::<StorageInfo>(self.storage_devices@[i], storage_devices@[i]));
            }
            assert forall|i: int| 0 <= i < network_interfaces@.len() implies network_eq(
                &#[trigger] network_interfaces@[i],
                &self.network_interfaces@[i],
            ) by {
                assert(cloned::<NetworkInfo>(
                    self.network_interfaces@[i],
                    network_interfaces@[i],
                ));
            }
            assert forall|i: int| 0 <= i < pci_devices@.len() implies pci_eq(
                &#[trigger] pci_devices@[i],
                &self.pci_devices@[i],
            ) by {
                assert(cloned::<PCIDevice>(self.pci_devices@[i], pci_devices@[i]));
            }
            assert forall|i: int| 0 <= i < usb_devices@.len() implies usb_eq(
                &#[trigger] usb_devices@[i],
                &self.usb_devices@[i],
            ) by {
                assert(cloned::<USBDevice>(self.usb_devices@[i], usb_devices@[i]));
            }
        }
        let battery = match &self.battery {
            Option::Some(b) => Option::Some(b.clone()),
            Option::None => Option::None,
        };
        let power_profile = match &self.power_profile {
            Option::Some(p) => Option::Some(p.clone()),
            Option::None => Option::None,
        };
        HardwareInfo {
            cpu: self.cpu.clone(),
            gpus,
            npus,
            tpus,
            fpgas,
            memory: self.memory.clone(),
            storage_devices,
            network_interfaces,
            battery,
            thermal: self.thermal.clone(),
            pci_devices,
            usb_devices,
            virtualization: self.virtualization.clone(),
            power_profile,
        }
    }
}

impl HardwareInfo {
    /// Get CPU information.
    pub fn cpu(&self) -> (r: &CPUInfo)
        ensures
            r == &self.cpu,
    {
        &self.cpu
    }

    /// Get GPU devices.
    pub fn gpus(&self) -> (r: &Vec<GPUInfo>)
        ensures
            r == &self.gpus,
    {
        &self.gpus
    }

    /// Get NPU devices.
    pub fn npus(&self) -> (r: &Vec<NPUInfo>)
        ensures
            r == &self.npus,
    {
        &self.npus
    }

    /// Get TPU devices.
    pub fn tpus(&self) -> (r: &Vec<TPUInfo>)
        ensures
            r == &self.tpus,
    {
        &self.tpus
    }

    /// Get FPGA devices.
    pub fn fpgas(&self) -> (r: &Vec<FPGAInfo>)
        ensures
            r == &self.fpgas,
    {
        &self.fpgas
    }

    /// Get system memory information.
    pub fn memory(&self) -> (r: &MemoryInfo)
        ensures
            r == &self.memory,
    {
        &self.memory
    }

    /// Get storage devices.
    pub fn storage_devices(&self) -> (r: &Vec<StorageInfo>)
        ensures
            r == &self.storage_devices,
    {
        &self.storage_devices
    }

    /// Get network interfaces.
    pub fn network_interfaces(&self) -> (r: &Vec<NetworkInfo>)
        ensures
            r == &self.network_interfaces,
    {
        &self.network_interfaces
    }

    /// Get battery information, if present.
    pub fn battery(&self) -> (r: Option<&BatteryInfo>)
        ensures
            r is Some <==> self.battery is Some,
            r is Some ==> self.battery->0 == r->0,
    {
        self.battery.as_ref()
    }

    /// Get thermal information.
    pub fn thermal(&self) -> (r: &ThermalInfo)
        ensures
            r == &self.thermal,
    {
        &self.thermal
    }

    /// Get PCI devices.
    pub fn pci_devices(&self) -> (r: &Vec<PCIDevice>)
        ensures
            r == &self.pci_devices,
    {
        &self.pci_devices
    }

    /// Get USB devices.
    pub fn usb_devices(&self) -> (r: &Vec<USBDevice>)
        ensures
            r == &self.usb_devices,
    {
        &self.usb_devices
    }

    /// Get the virtualization environment.
    pub fn virtualization(&self) -> (r: &VirtualizationInfo)
        ensures
            r == &self.virtualization,
    {
        &self.virtualization
    }

    /// Get the power profile, if available.
    pub fn power_profile(&self) -> (r: Option<&PowerProfile>)
        ensures
            r is Some <==> self.power_profile is Some,
            r is Some ==> self.power_profile->0 == r->0,
    {
        self.power_profile.as_ref()
    }

    /// Are any FPGAs present?
    pub fn has_fpgas(&self) -> (r: bool)
        ensures
            r == (self.fpgas@.len() > 0),
    {
        self.fpgas.len() > 0
    }

    /// Total count of specialized accelerators (NPUs, TPUs and FPGAs),
    /// saturating at `u64::MAX`.
    pub fn accelerator_count(&self) -> (r: u64)
        ensures
            r == num::sat_add_u64(
                num::sat_add_u64(self.npus@.len() as u64, self.tpus@.len() as u64),
                self.fpgas@.len() as u64,
            ),
    {
        let a = num::saturating_add(self.npus.len() as u64, self.tpus.len() as u64);
        num::saturating_add(a, self.fpgas.len() as u64)
    }
}

} // verus!
