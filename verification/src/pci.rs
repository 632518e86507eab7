//! PCI device description and device-class classification.

use vstd::prelude::*;

use crate::strutil;
use crate::strutil::contains_ci;

verus! {

/// PCI device information.
#[derive(Debug)]
pub struct PCIDevice {
    /// PCI device ID (vendor:device)
    pub device_id: String,
    /// PCI vendor name
    pub vendor_name: String,
    /// PCI device name
    pub device_name: String,
    /// PCI bus location
    pub bus_location: String,
    /// PCI device class
    pub device_class: String,
    /// PCI subsystem ID
    pub subsystem_id: Option<String>,
    /// Driver name (if loaded)
    pub driver: Option<String>,
    /// Device revision
    pub revision: Option<String>,
    /// IRQ number
    pub irq: Option<u32>,
    /// Memory regions
    pub memory_regions: Vec<String>,
}

/// Field-by-field equality of two PCI device descriptions, over views.
pub open spec fn pci_eq(a: &PCIDevice, b: &PCIDevice) -> bool {
    &&& a.device_id@ == b.device_id@
    &&& a.vendor_name@ == b.vendor_name@
    &&& a.device_name@ == b.device_name@
    &&& a.bus_location@ == b.bus_location@
    &&& a.device_class@ == b.device_class@
    &&& a.subsystem_id == b.subsystem_id
    &&& a.driver == b.driver
    &&& a.revision == b.revision
    &&& a.irq == b.irq
    &&& a.memory_regions@ == b.memory_regions@
}

impl Clone for PCIDevice {
    fn clone(&self) -> (r: Self)
        ensures
            pci_eq(&r, self),
    {
        let r = PCIDevice {
            device_id: self.device_id.clone(),
            vendor_name: self.vendor_name.clone(),
            device_name: self.device_name.clone(),
            bus_location: self.bus_location.clone(),
            device_class: self.device_class.clone(),
            subsystem_id: self.subsystem_id.clone(),
            driver: self.driver.clone(),
            revision: self.revision.clone(),
            irq: self.irq,
            memory_regions: self.memory_regions.clone(),
        };
        proof {
            assert(r.memory_regions@ =~= self.memory_regions@);
        }
        r
    }
}

impl PCIDevice {
    /// Enumerate PCI devices.  Bus walking is platform work done outside the
    /// library; with no platform reader attached the enumeration is empty.
    pub fn query_all() -> (r: Result<Vec<PCIDevice>, crate::error::HardwareQueryError>)
        ensures
            r matches Ok(v) && v@.len() == 0,
    {
        Ok(Vec::new())
    }

    /// Get device ID.
    pub fn device_id(&self) -> (r: &str)
        ensures
            r@ == self.device_id@,
    {
        self.device_id.as_str()
    }

    /// Get vendor name.
    pub fn vendor_name(&self) -> (r: &str)
        ensures
            r@ == self.vendor_name@,
    {
        self.vendor_name.as_str()
    }

    /// Get device name.
    pub fn device_name(&self) -> (r: &str)
        ensures
            r@ == self.device_name@,
    {
        self.device_name.as_str()
    }

    /// Get device class.
    pub fn device_class(&self) -> (r: &str)
        ensures
            r@ == self.device_class@,
    {
        self.device_class.as_str()
    }

    /// Is the device a graphics card: its class mentions VGA, display, or
    /// graphics (ignoring ASCII case)?
    pub fn is_graphics_device(&self) -> (r: bool)
        ensures
            r == (contains_ci(self.device_class@, "vga"@) || contains_ci(
                self.device_class@,
                "display"@,
            ) || contains_ci(self.device_class@, "graphics"@)),
    {
        strutil::contains_ignore_case(self.device_class.as_str(), "vga")
            || strutil::contains_ignore_case(self.device_class.as_str(), "display")
            || strutil::contains_ignore_case(self.device_class.as_str(), "graphics")
    }

    /// Is the device a network controller: its class mentions network,
    /// ethernet, or wireless (ignoring ASCII case)?
    pub fn is_network_device(&self) -> (r: bool)
        ensures
            r == (contains_ci(self.device_class@, "network"@) || contains_ci(
                self.device_class@,
                "ethernet"@,
            ) || contains_ci(self.device_class@, "wireless"@)),
    {
        strutil::contains_ignore_case(self.device_class.as_str(), "network")
            || strutil::contains_ignore_case(self.device_class.as_str(), "ethernet")
            || strutil::contains_ignore_case(self.device_class.as_str(), "wireless")
    }

    /// Is the device a storage controller: its class mentions storage, SATA,
    /// NVMe, or SCSI (ignoring ASCII case)?
    pub fn is_storage_device(&self) -> (r: bool)
        ensures
            r == (contains_ci(self.device_class@, "storage"@) || contains_ci(
                self.device_class@,
                "sata"@,
            ) || contains_ci(self.device_class@, "nvme"@) || contains_ci(
                self.device_class@,
                "scsi"@,
            )),
    {
        strutil::contains_ignore_case(self.device_class.as_str(), "storage")
            || strutil::contains_ignore_case(self.device_class.as_str(), "sata")
            || strutil::contains_ignore_case(self.device_class.as_str(), "nvme")
            || strutil::contains_ignore_case(self.device_class.as_str(), "scsi")
    }
}

} // verus!
