use vstd::prelude::*;

verus! {

/// hidapi's library context, which holds the enumerated interfaces.
#[verifier::external_type_specification]
#[verifier::external_body]
pub struct ExHidApi(hidapi::HidApi);

/// hidapi's handle to an open interface.
#[verifier::external_type_specification]
#[verifier::external_body]
pub struct ExHidDevice(hidapi::HidDevice);

/// hidapi's description of one enumerated interface.
#[verifier::external_type_specification]
#[verifier::external_body]
pub struct ExDeviceInfo(hidapi::DeviceInfo);

/// hidapi's error type.
#[verifier::external_type_specification]
#[verifier::external_body]
pub struct ExHidError(hidapi::HidError);

/// Relies on `hidapi::HidApi::new`: initialises the context and enumerates the
/// interfaces present now; promises nothing of the outcome.
pub assume_specification[ hidapi::HidApi::new ]() -> Result<hidapi::HidApi, hidapi::HidError>;

/// Relies on `hidapi::DeviceInfo::vendor_id`: a stored field, opaque here.
pub assume_specification[ hidapi::DeviceInfo::vendor_id ](d: &hidapi::DeviceInfo) -> u16;

/// Relies on `hidapi::DeviceInfo::product_id`: a stored field, opaque here.
pub assume_specification[ hidapi::DeviceInfo::product_id ](d: &hidapi::DeviceInfo) -> u16;

/// Relies on `hidapi::DeviceInfo::usage_page`: a stored field, opaque here.
pub assume_specification[ hidapi::DeviceInfo::usage_page ](d: &hidapi::DeviceInfo) -> u16;

/// Relies on `hidapi::DeviceInfo::manufacturer_string`: a stored string or none.
pub assume_specification<'a>[ hidapi::DeviceInfo::manufacturer_string ](
    d: &'a hidapi::DeviceInfo,
) -> Option<&'a str>;

/// Relies on `hidapi::DeviceInfo::product_string`: a stored string or none.
pub assume_specification<'a>[ hidapi::DeviceInfo::product_string ](
    d: &'a hidapi::DeviceInfo,
) -> Option<&'a str>;

/// Relies on `hidapi::DeviceInfo::serial_number`: a stored string or none.
pub assume_specification<'a>[ hidapi::DeviceInfo::serial_number ](
    d: &'a hidapi::DeviceInfo,
) -> Option<&'a str>;

/// Relies on `hidapi::DeviceInfo::open_device`: opens the interface that `d`
/// describes; the system decides whether that succeeds.
pub assume_specification[ hidapi::DeviceInfo::open_device ](
    d: &hidapi::DeviceInfo,
    hidapi: &hidapi::HidApi,
) -> Result<hidapi::HidDevice, hidapi::HidError>;

/// Relies on `hidapi::HidDevice::write`: one blocking write of `data`; the
/// count of bytes written, or the system's error.
pub assume_specification[ hidapi::HidDevice::write ](
    d: &hidapi::HidDevice,
    data: &[u8],
) -> Result<usize, hidapi::HidError>;

/// Relies on `hidapi::HidDevice::get_device_info`: the open interface's
/// descriptor, or the system's error.
pub assume_specification[ hidapi::HidDevice::get_device_info ](
    d: &hidapi::HidDevice,
) -> Result<hidapi::DeviceInfo, hidapi::HidError>;

/// Relies on `hidapi::HidApi::device_list`: a copy of each interface found
/// when the context was made, in the context's order.
#[verifier::external_body]
pub(crate) fn device_list(api: &hidapi::HidApi) -> (r: Vec<hidapi::DeviceInfo>) {
    api.device_list().cloned().collect()
}

/// Relies on `hidapi::HidError`'s `Display` impl: the error's message.
#[verifier::external_body]
pub(crate) fn error_message(e: &hidapi::HidError) -> (r: String) {
    e.to_string()
}

} // verus!
