use magi96_keyboard::discovery::{
    find_control_interface, format_device_info, InterfaceDescriptor, CONFIG_USAGE_PAGE,
    PRODUCT_ID, VENDOR_ID,
};
use magi96_keyboard::error::DriverError;

#[test]
fn no_vendor_product_match_is_not_found() {
    let devices = vec![
        InterfaceDescriptor::new(0x046D, 0xC52B, CONFIG_USAGE_PAGE),
        InterfaceDescriptor::new(VENDOR_ID, 0x1234, CONFIG_USAGE_PAGE),
    ];
    assert_eq!(find_control_interface(&devices), Err(DriverError::DeviceNotFound));
    assert_eq!(find_control_interface(&[]), Err(DriverError::DeviceNotFound));
}

#[test]
fn wrong_usage_page_is_not_found() {
    let devices = vec![
        InterfaceDescriptor::new(VENDOR_ID, PRODUCT_ID, 0x0001),
        InterfaceDescriptor::new(VENDOR_ID, PRODUCT_ID, 0x000C),
    ];
    assert_eq!(find_control_interface(&devices), Err(DriverError::DeviceNotFound));
}

#[test]
fn control_interface_is_selected() {
    let devices = vec![
        InterfaceDescriptor::new(VENDOR_ID, PRODUCT_ID, 0x0001),
        InterfaceDescriptor::new(0x320F, 0x5088, 0xFF60),
        InterfaceDescriptor::new(VENDOR_ID, PRODUCT_ID, 0x000C),
        InterfaceDescriptor::new(VENDOR_ID, PRODUCT_ID, CONFIG_USAGE_PAGE),
    ];
    assert_eq!(find_control_interface(&devices), Ok(1));
}

#[test]
fn absent_descriptor_strings_read_unknown() {
    assert_eq!(
        format_device_info(None, None, None),
        "Manufacturer: Unknown\nProduct: Unknown\nSerial: Unknown"
    );
}

#[test]
fn present_descriptor_strings_are_shown() {
    assert_eq!(
        format_device_info(Some("IQUNIX"), Some("Magi96"), None),
        "Manufacturer: IQUNIX\nProduct: Magi96\nSerial: Unknown"
    );
    assert_eq!(
        format_device_info(None, Some(""), Some("A1B2")),
        "Manufacturer: Unknown\nProduct: \nSerial: A1B2"
    );
}
