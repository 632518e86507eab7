//! USB device description and device-class classification.

use vstd::prelude::*;

use crate::strutil;
use crate::strutil::contains_ci;
use crate::strutil::contains_cs;

verus! {

/// USB device information.
#[derive(Debug)]
pub struct USBDevice {
    /// USB vendor ID
    pub vendor_id: String,
    /// USB product ID
    pub product_id: String,
    /// Vendor name
    pub vendor_name: String,
    /// Product name
    pub product_name: String,
    /// USB device class
    pub device_class: String,
    /// USB version (1.0, 1.1, 2.0, 3.0, etc.)
    pub usb_version: String,
    /// Serial number (if available)
    pub serial_number: Option<String>,
    /// Bus number
    pub bus_number: u8,
    /// Device address
    pub device_address: u8,
    /// Port path
    pub port_path: Option<String>,
    /// Driver name (if loaded)
    pub driver: Option<String>,
    /// Is device currently connected
    pub connected: bool,
}

/// Field-by-field equality of two USB device descriptions, over views.
pub open spec fn usb_eq(a: &USBDevice, b: &USBDevice) -> bool {
    &&& a.vendor_id@ == b.vendor_id@
    &&& a.product_id@ == b.product_id@
    &&& a.vendor_name@ == b.vendor_name@
    &&& a.product_name@ == b.product_name@
    &&& a.device_class@ == b.device_class@
    &&& a.usb_version@ == b.usb_version@
    &&& a.serial_number == b.serial_number
    &&& a.bus_number == b.bus_number
    &&& a.device_address == b.device_address
    &&& a.port_path == b.port_path
    &&& a.driver == b.driver
    &&& a.connected == b.connected
}

impl Clone for USBDevice {
    fn clone(&self) -> (r: Self)
        ensures
            usb_eq(&r, self),
    {
        USBDevice {
            vendor_id: self.vendor_id.clone(),
            product_id: self.product_id.clone(),
            vendor_name: self.vendor_name.clone(),
            product_name: self.product_name.clone(),
            device_class: self.device_class.clone(),
            usb_version: self.usb_version.clone(),
            serial_number: self.serial_number.clone(),
            bus_number: self.bus_number,
            device_address: self.device_address,
            port_path: self.port_path.clone(),
            driver: self.driver.clone(),
            connected: self.connected,
        }
    }
}

impl USBDevice {
    /// Enumerate USB devices.  Bus walking is platform work done outside the
    /// library; with no platform reader attached the enumeration is empty.
    pub fn query_all() -> (r: Result<Vec<USBDevice>, crate::error::HardwareQueryError>)
        ensures
            r matches Ok(v) && v@.len() == 0,
    {
        Ok(Vec::new())
    }

    /// Get vendor ID.
    pub fn vendor_id(&self) -> (r: &str)
        ensures
            r@ == self.vendor_id@,
    {
        self.vendor_id.as_str()
    }

    /// Get product ID.
    pub fn product_id(&self) -> (r: &str)
        ensures
            r@ == self.product_id@,
    {
        self.product_id.as_str()
    }

    /// Get vendor name.
    pub fn vendor_name(&self) -> (r: &str)
        ensures
            r@ == self.vendor_name@,
    {
        self.vendor_name.as_str()
    }

    /// Get product name.
    pub fn product_name(&self) -> (r: &str)
        ensures
            r@ == self.product_name@,
    {
        self.product_name.as_str()
    }

    /// Get device class.
    pub fn device_class(&self) -> (r: &str)
        ensures
            r@ == self.device_class@,
    {
        self.device_class.as_str()
    }

    /// Get USB version.
    pub fn usb_version(&self) -> (r: &str)
        ensures
            r@ == self.usb_version@,
    {
        self.usb_version.as_str()
    }

    /// Is the device currently connected?
    pub fn is_connected(&self) -> (r: bool)
        ensures
            r == self.connected,
    {
        self.connected
    }

    /// Is the device a storage device: its class mentions mass storage or
    /// storage (ignoring ASCII case)?
    pub fn is_storage_device(&self) -> (r: bool)
        ensures
            r == (contains_ci(self.device_class@, "mass storage"@) || contains_ci(
                self.device_class@,
                "storage"@,
            )),
    {
        strutil::contains_ignore_case(self.device_class.as_str(), "mass storage")
            || strutil::contains_ignore_case(self.device_class.as_str(), "storage")
    }

    /// Is the device an input device: its class mentions HID, human
    /// interface, or input (ignoring ASCII case)?
    pub fn is_input_device(&self) -> (r: bool)
        ensures
            r == (contains_ci(self.device_class@, "hid"@) || contains_ci(
                self.device_class@,
                "human interface"@,
            ) || contains_ci(self.device_class@, "input"@)),
    {
        strutil::contains_ignore_case(self.device_class.as_str(), "hid")
            || strutil::contains_ignore_case(self.device_class.as_str(), "human interface")
            || strutil::contains_ignore_case(self.device_class.as_str(), "input")
    }

    /// Is the device an audio device: its class mentions audio (ignoring
    /// ASCII case)?
    pub fn is_audio_device(&self) -> (r: bool)
        ensures
            r == contains_ci(self.device_class@, "audio"@),
    {
        strutil::contains_ignore_case(self.device_class.as_str(), "audio")
    }

    /// Is the device a video device: its class mentions video or camera
    /// (ignoring ASCII case)?
    pub fn is_video_device(&self) -> (r: bool)
        ensures
            r == (contains_ci(self.device_class@, "video"@) || contains_ci(
                self.device_class@,
                "camera"@,
            )),
    {
        strutil::contains_ignore_case(self.device_class.as_str(), "video")
            || strutil::contains_ignore_case(self.device_class.as_str(), "camera")
    }

    /// Does the device report USB 3.0 or higher?  The version text counts
    /// when it holds `"3."`, or holds `"3"` while mentioning neither `"2."`
    /// nor `"1."`.
    pub fn is_high_speed(&self) -> (r: bool)
        ensures
            r == (contains_cs(self.usb_version@, "3."@) || (contains_cs(self.usb_version@, "3"@)
                && !contains_cs(self.usb_version@, "2."@) && !contains_cs(
                self.usb_version@,
                "1."@,
            ))),
    {
        strutil::contains_str(self.usb_version.as_str(), "3.") || (strutil::contains_str(
            self.usb_version.as_str(),
            "3",
        ) && !strutil::contains_str(self.usb_version.as_str(), "2.") && !strutil::contains_str(
            self.usb_version.as_str(),
            "1.",
        ))
    }
}

} // verus!
