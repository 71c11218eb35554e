use lumentra::usb::{usb_settings, Disconnected, EndpointError};
use lumentra::usb::{BOS_DESCRIPTOR_LEN, CONFIG_DESCRIPTOR_LEN, CONTROL_BUF_LEN};

#[test]
fn settings() {
    let settings = usb_settings();
    assert_eq!((settings.vendor_id, settings.product_id), (0x1209, 0x4D44));
    assert_eq!(settings.manufacturer, "Sandu Tudor Nicolas");
    assert_eq!(settings.product, "Lumentra USB MIDI");
    assert_eq!(settings.serial_number, "LUMENTRA-001");
    assert_eq!(settings.device_class, 0x01);
    assert_eq!((settings.device_sub_class, settings.device_protocol), (0, 0));
    assert!(!settings.composite_with_iads);
    assert_eq!(settings.max_power, 100);
    assert_eq!(settings.max_packet_size_0, 64);
}

#[test]
fn a_disabled_endpoint_means_that_the_host_is_gone() {
    assert_eq!(Disconnected::from(EndpointError::Disabled), Some(Disconnected));
}

#[test]
fn an_overlong_packet_does_not() {
    assert_eq!(Disconnected::from(EndpointError::BufferOverflow), None);
}

#[test]
fn room_for_descriptors_and_transfers() {
    assert_eq!(
        (CONFIG_DESCRIPTOR_LEN, BOS_DESCRIPTOR_LEN, CONTROL_BUF_LEN),
        (512, 256, 64)
    );
}
