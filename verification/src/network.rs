//! Network interface description and interface-name classification.

use vstd::prelude::*;
use vstd::string::StringExecFns;

use crate::num;
use crate::strutil;
use crate::strutil::contains_ci;

verus! {

/// Network interface type
#[derive(Debug, Clone, Copy, PartialEq, Eq, Structural)]
pub enum NetworkType {
    Ethernet,
    WiFi,
    Bluetooth,
    Cellular,
    VPN,
    Loopback,
    Unknown,
}

impl NetworkType {
    /// The text this interface type renders as.
    pub open spec fn spec_label(&self) -> Seq<char> {
        match self {
            NetworkType::Ethernet => "Ethernet"@,
            NetworkType::WiFi => "WiFi"@,
            NetworkType::Bluetooth => "Bluetooth"@,
            NetworkType::Cellular => "Cellular"@,
            NetworkType::VPN => "VPN"@,
            NetworkType::Loopback => "Loopback"@,
            NetworkType::Unknown => "Unknown"@,
        }
    }

    /// Render the interface type as text.
    pub fn label(&self) -> (r: String)
        ensures
            r@ == self.spec_label(),
    {
        match self {
            NetworkType::Ethernet => String::from_str("Ethernet"),
            NetworkType::WiFi => String::from_str("WiFi"),
            NetworkType::Bluetooth => String::from_str("Bluetooth"),
            NetworkType::Cellular => String::from_str("Cellular"),
            NetworkType::VPN => String::from_str("VPN"),
            NetworkType::Loopback => String::from_str("Loopback"),
            NetworkType::Unknown => String::from_str("Unknown"),
        }
    }
}

/// Classification of an interface name: the first family whose marker occurs
/// in the name (ignoring ASCII case) wins, checked in the order loopback,
/// Ethernet, WiFi, Bluetooth, cellular, VPN.
pub open spec fn spec_detect_network_type(name: Seq<char>) -> NetworkType {
    if contains_ci(name, "lo"@) || contains_ci(name, "loopback"@) {
        NetworkType::Loopback
    } else if contains_ci(name, "eth"@) || contains_ci(name, "ethernet"@) {
        NetworkType::Ethernet
    } else if contains_ci(name, "wlan"@) || contains_ci(name, "wifi"@) || contains_ci(
        name,
        "wi-fi"@,
    ) {
        NetworkType::WiFi
    } else if contains_ci(name, "bluetooth"@) || contains_ci(name, "bt"@) {
        NetworkType::Bluetooth
    } else if contains_ci(name, "cellular"@) || contains_ci(name, "mobile"@) {
        NetworkType::Cellular
    } else if contains_ci(name, "vpn"@) || contains_ci(name, "tunnel"@) {
        NetworkType::VPN
    } else {
        NetworkType::Unknown
    }
}

/// Network interface information.
#[derive(Debug)]
pub struct NetworkInfo {
    /// Interface name
    pub name: String,
    /// Network type
    pub network_type: NetworkType,
    /// MAC address
    pub mac_address: String,
    /// IP addresses
    pub ip_addresses: Vec<String>,
    /// Interface speed in Mbps (if available)
    pub speed_mbps: Option<u32>,
    /// Is interface up/active
    pub is_up: bool,
    /// Bytes received
    pub bytes_received: u64,
    /// Bytes transmitted
    pub bytes_transmitted: u64,
    /// Packets received
    pub packets_received: u64,
    /// Packets transmitted
    pub packets_transmitted: u64,
    /// Receive errors
    pub receive_errors: u64,
    /// Transmit errors
    pub transmit_errors: u64,
}

/// Field-by-field equality of two interface descriptions, over views.
pub open spec fn network_eq(a: &NetworkInfo, b: &NetworkInfo) -> bool {
    &&& a.name@ == b.name@
    &&& a.network_type == b.network_type
    &&& a.mac_address@ == b.mac_address@
    &&& a.ip_addresses@ == b.ip_addresses@
    &&& a.speed_mbps == b.speed_mbps
    &&& a.is_up == b.is_up
    &&& a.bytes_received == b.bytes_received
    &&& a.bytes_transmitted == b.bytes_transmitted
    &&& a.packets_received == b.packets_received
    &&& a.packets_transmitted == b.packets_transmitted
    &&& a.receive_errors == b.receive_errors
    &&& a.transmit_errors == b.transmit_errors
}

impl Clone for NetworkInfo {
    fn clone(&self) -> (r: Self)
        ensures
            network_eq(&r, self),
    {
        let r = NetworkInfo {
            name: self.name.clone(),
            network_type: self.network_type,
            mac_address: self.mac_address.clone(),
            ip_addresses: self.ip_addresses.clone(),
            speed_mbps: self.speed_mbps,
            is_up: self.is_up,
            bytes_received: self.bytes_received,
            bytes_transmitted: self.bytes_transmitted,
            packets_received: self.packets_received,
            packets_transmitted: self.packets_transmitted,
            receive_errors: self.receive_errors,
            transmit_errors: self.transmit_errors,
        };
        proof {
            assert(r.ip_addresses@ =~= self.ip_addresses@);
        }
        r
    }
}

impl NetworkInfo {
    /// Get interface name.
    pub fn name(&self) -> (r: &str)
        ensures
            r@ == self.name@,
    {
        self.name.as_str()
    }

    /// Get network type.
    pub fn network_type(&self) -> (r: &NetworkType)
        ensures
            r == &self.network_type,
    {
        &self.network_type
    }

    /// Get MAC address.
    pub fn mac_address(&self) -> (r: &str)
        ensures
            r@ == self.mac_address@,
    {
        self.mac_address.as_str()
    }

    /// Get IP addresses.
    pub fn ip_addresses(&self) -> (r: &Vec<String>)
        ensures
            r == &self.ip_addresses,
    {
        &self.ip_addresses
    }

    /// Is the interface active?
    pub fn is_active(&self) -> (r: bool)
        ensures
            r == self.is_up,
    {
        self.is_up
    }

    /// Total bytes transferred in either direction, saturating at `u64::MAX`.
    pub fn total_bytes(&self) -> (r: u64)
        ensures
            r == num::sat_add_u64(self.bytes_received, self.bytes_transmitted),
    {
        num::saturating_add(self.bytes_received, self.bytes_transmitted)
    }

    /// Total packets transferred in either direction, saturating at `u64::MAX`.
    pub fn total_packets(&self) -> (r: u64)
        ensures
            r == num::sat_add_u64(self.packets_received, self.packets_transmitted),
    {
        num::saturating_add(self.packets_received, self.packets_transmitted)
    }

    /// Total errors in either direction, saturating at `u64::MAX`.
    pub fn total_errors(&self) -> (r: u64)
        ensures
            r == num::sat_add_u64(self.receive_errors, self.transmit_errors),
    {
        num::saturating_add(self.receive_errors, self.transmit_errors)
    }

    /// Classify an interface name into a `NetworkType`.
    pub fn detect_network_type(name: &str) -> (r: NetworkType)
        ensures
            r == spec_detect_network_type(name@),
    {
        if strutil::contains_ignore_case(name, "lo") || strutil::contains_ignore_case(
            name,
            "loopback",
        ) {
            NetworkType::Loopback
        } else if strutil::contains_ignore_case(name, "eth") || strutil::contains_ignore_case(
            name,
            "ethernet",
        ) {
            NetworkType::Ethernet
        } else if strutil::contains_ignore_case(name, "wlan") || strutil::contains_ignore_case(
            name,
            "wifi",
        ) || strutil::contains_ignore_case(name, "wi-fi") {
            NetworkType::WiFi
        } else if strutil::contains_ignore_case(name, "bluetooth") || strutil::contains_ignore_case(
            name,
            "bt",
        ) {
            NetworkType::Bluetooth
        } else if strutil::contains_ignore_case(name, "cellular") || strutil::contains_ignore_case(
            name,
            "mobile",
        ) {
            NetworkType::Cellular
        } else if strutil::contains_ignore_case(name, "vpn") || strutil::contains_ignore_case(
            name,
            "tunnel",
        ) {
            NetworkType::VPN
        } else {
            NetworkType::Unknown
        }
    }
}

} // verus!
