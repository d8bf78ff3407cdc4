use vstd::prelude::*;
use vstd::string::StringExecFns;

use crate::error::DriverError;

verus! {

/// USB vendor ID of the keyboard.
pub const VENDOR_ID: u16 = 0x320F;

/// USB product ID of the keyboard.
pub const PRODUCT_ID: u16 = 0x5088;

/// Vendor-defined usage page of the raw configuration interface.
pub const CONFIG_USAGE_PAGE: u16 = 0xFF60;

/// What discovery reads of one enumerated HID interface.
#[derive(Debug, Clone, Copy, PartialEq, Eq, Structural)]
pub struct InterfaceDescriptor {
    pub vendor_id: u16,
    pub product_id: u16,
    pub usage_page: u16,
}

impl InterfaceDescriptor {
    pub fn new(vendor_id: u16, product_id: u16, usage_page: u16) -> (r: InterfaceDescriptor)
        ensures
            r.vendor_id == vendor_id,
            r.product_id == product_id,
            r.usage_page == usage_page,
    {
        InterfaceDescriptor { vendor_id, product_id, usage_page }
    }
}

/// Whether `d` is the keyboard's configuration interface: the keyboard's vendor
/// and product, and the configuration usage page.
pub open spec fn is_control_interface(d: InterfaceDescriptor) -> bool {
    d.vendor_id == VENDOR_ID && d.product_id == PRODUCT_ID && d.usage_page == CONFIG_USAGE_PAGE
}

/// Picks the configuration interface out of an enumeration: the index of the
/// first one that matches, or `DeviceNotFound` when none does.
pub fn find_control_interface(devices: &[InterfaceDescriptor]) -> (r: Result<usize, DriverError>)
    ensures
        r is Err <==> forall|k: int| 0 <= k < devices@.len() ==> !is_control_interface(
            #[trigger] devices@[k],
        ),
        r is Err ==> r->Err_0 is DeviceNotFound,
        r is Ok ==> {
            let i = r->Ok_0 as int;
            &&& 0 <= i < devices@.len()
            &&& is_control_interface(devices@[i])
            &&& forall|k: int| 0 <= k < i ==> !is_control_interface(#[trigger] devices@[k])
        },
{
    let mut i: usize = 0;
    while i < devices.len()
        invariant
            i <= devices@.len(),
            forall|k: int| 0 <= k < i ==> !is_control_interface(#[trigger] devices@[k]),
        decreases devices@.len() - i,
    {
        let d = devices[i];
        if d.vendor_id == VENDOR_ID && d.product_id == PRODUCT_ID && d.usage_page
            == CONFIG_USAGE_PAGE {
            return Ok(i);
        }
        i = i + 1;
    }
    Err(DriverError::DeviceNotFound)
}

/// A descriptor string, or "Unknown" where the system supplied none.
pub open spec fn or_unknown(s: Option<&str>) -> Seq<char> {
    match s {
        Some(t) => t@,
        None => "Unknown"@,
    }
}

/// The three-line summary of an interface's descriptor strings.
pub open spec fn spec_device_info(
    manufacturer: Option<&str>,
    product: Option<&str>,
    serial: Option<&str>,
) -> Seq<char> {
    "Manufacturer: "@ + or_unknown(manufacturer) + "\nProduct: "@ + or_unknown(product)
        + "\nSerial: "@ + or_unknown(serial)
}

fn append_or_unknown(out: &mut String, s: Option<&str>)
    ensures
        final(out)@ == old(out)@ + or_unknown(s),
{
    match s {
        Some(t) => out.append(t),
        None => out.append("Unknown"),
    }
}

/// Renders manufacturer, product and serial number on three lines, each
/// missing one as "Unknown".
pub fn format_device_info(
    manufacturer: Option<&str>,
    product: Option<&str>,
    serial: Option<&str>,
) -> (r: String)
    ensures
        r@ == spec_device_info(manufacturer, product, serial),
{
    let mut out = String::from_str("Manufacturer: ");
    append_or_unknown(&mut out, manufacturer);
    out.append("\nProduct: ");
    append_or_unknown(&mut out, product);
    out.append("\nSerial: ");
    append_or_unknown(&mut out, serial);
    out
}

} // verus!
