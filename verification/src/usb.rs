//! The USB side: how the device presents itself, and what a failed transfer means.
use vstd::prelude::*;

verus! {

/// The room for the configuration descriptor, in bytes.
pub const CONFIG_DESCRIPTOR_LEN: usize = 512;

/// The room for the descriptor of the device's capabilities, in bytes.
pub const BOS_DESCRIPTOR_LEN: usize = 256;

/// The room for a control transfer, in bytes.
pub const CONTROL_BUF_LEN: usize = 64;

/// How the device presents itself to a host.
#[derive(Debug, Clone, Copy, PartialEq, Eq)]
pub struct UsbSettings {
    pub vendor_id: u16,
    pub product_id: u16,
    pub manufacturer: &'static str,
    pub product: &'static str,
    pub serial_number: &'static str,
    pub device_class: u8,
    pub device_sub_class: u8,
    pub device_protocol: u8,
    pub composite_with_iads: bool,
    /// In milliamperes.
    pub max_power: u16,
    pub max_packet_size_0: u8,
}

/// The settings of this device: an audio device that is not composite.
pub fn usb_settings() -> (settings: UsbSettings)
    ensures
        settings.vendor_id == 0x1209,
        settings.product_id == 0x4D44,
        settings.manufacturer@ == "Sandu Tudor Nicolas"@,
        settings.product@ == "Lumentra USB MIDI"@,
        settings.serial_number@ == "LUMENTRA-001"@,
        settings.device_class == 0x01,
        settings.device_sub_class == 0,
        settings.device_protocol == 0,
        !settings.composite_with_iads,
        settings.max_power == 100,
        settings.max_packet_size_0 == 64,
{
    UsbSettings {
        vendor_id: 0x1209,
        product_id: 0x4D44,
        manufacturer: "Sandu Tudor Nicolas",
        product: "Lumentra USB MIDI",
        serial_number: "LUMENTRA-001",
        device_class: 0x01,
        device_sub_class: 0x00,
        device_protocol: 0x00,
        composite_with_iads: false,
        max_power: 100,
        max_packet_size_0: 64,
    }
}

/// Why a packet could not be sent.
#[derive(Debug, Clone, Copy, PartialEq, Eq)]
pub enum EndpointError {
    /// The packet is longer than the endpoint takes.
    BufferOverflow,
    /// There is no host.
    Disabled,
}

/// The host is gone.
#[derive(Debug, Clone, Copy, PartialEq, Eq)]
pub struct Disconnected;

impl Disconnected {
    /// Whether a failure means that the host is gone. A packet that is too long is a fault
    /// of the program: there is no going on after it.
    pub fn from(value: EndpointError) -> (gone: Option<Disconnected>)
        ensures
            gone is Some <==> value is Disabled,
    {
        match value {
            EndpointError::BufferOverflow => None,
            EndpointError::Disabled => Some(Disconnected),
        }
    }
}

} // verus!
