use vstd::prelude::*;

use crate::discovery::{find_control_interface, format_device_info, InterfaceDescriptor};
use crate::error::DriverError;
use crate::hid::{device_list, error_message};
use crate::report::{
    brightness_report, check_written, color_report, effect_report, effect_speed_report,
    MAX_BRIGHTNESS, MAX_EFFECT_SPEED, REPORT_SIZE,
};
use crate::rgb::{HsvColor, RgbEffect};

verus! {

/// An open connection to the keyboard's configuration interface.
pub struct Magi96Driver {
    device: hidapi::HidDevice,
}

/// Whether `e` is an error that opening the keyboard can give.
pub open spec fn is_open_error(e: DriverError) -> bool {
    e is DeviceNotFound || e is OpenFailed
}

/// Whether `e` is an error that writing a report can give.
pub open spec fn is_write_error(e: DriverError) -> bool {
    e is WriteFailed || e is ShortWrite
}

impl Magi96Driver {
    /// Enumerates the HID interfaces, selects the keyboard's configuration
    /// interface and opens it.
    pub fn open() -> (r: Result<Magi96Driver, DriverError>)
        ensures
            r is Err ==> is_open_error(r->Err_0),
    {
        let api = match hidapi::HidApi::new() {
            Ok(api) => api,
            Err(e) => return Err(DriverError::OpenFailed(error_message(&e))),
        };
        let infos = device_list(&api);
        let mut descriptors: Vec<InterfaceDescriptor> = Vec::new();
        let mut i: usize = 0;
        while i < infos.len()
            invariant
                i <= infos@.len(),
                descriptors@.len() == i,
            decreases infos@.len() - i,
        {
            let info = &infos[i];
            descriptors.push(
                InterfaceDescriptor::new(info.vendor_id(), info.product_id(), info.usage_page()),
            );
            i = i + 1;
        }
        let index = find_control_interface(descriptors.as_slice())?;
        match infos[index].open_device(&api) {
            Ok(device) => Ok(Magi96Driver { device }),
            Err(e) => Err(DriverError::OpenFailed(error_message(&e))),
        }
    }

    /// Writes one whole report to the interface.
    fn send_report(&self, report: &Vec<u8>) -> (r: Result<(), DriverError>)
        requires
            report@.len() == REPORT_SIZE,
        ensures
            r is Err ==> is_write_error(r->Err_0),
    {
        match self.device.write(report.as_slice()) {
            Ok(written) => check_written(report.len(), written),
            Err(e) => Err(DriverError::WriteFailed(error_message(&e))),
        }
    }

    /// Sets the backlight brightness, 0 to 9; a higher level is refused before
    /// anything is written.
    pub fn set_brightness(&self, brightness: u8) -> (r: Result<(), DriverError>)
        ensures
            brightness > MAX_BRIGHTNESS ==> r is Err && r->Err_0 is InvalidArgument,
            brightness <= MAX_BRIGHTNESS && r is Err ==> is_write_error(r->Err_0),
    {
        let report = brightness_report(brightness)?;
        self.send_report(&report)
    }

    /// Selects a lighting effect.
    pub fn set_effect(&self, effect: RgbEffect) -> (r: Result<(), DriverError>)
        ensures
            r is Err ==> is_write_error(r->Err_0),
    {
        let report = effect_report(effect);
        self.send_report(&report)
    }

    /// Sets the effect speed, 0 to 4; a higher speed is refused before anything
    /// is written.
    pub fn set_effect_speed(&self, speed: u8) -> (r: Result<(), DriverError>)
        ensures
            speed > MAX_EFFECT_SPEED ==> r is Err && r->Err_0 is InvalidArgument,
            speed <= MAX_EFFECT_SPEED && r is Err ==> is_write_error(r->Err_0),
    {
        let report = effect_speed_report(speed)?;
        self.send_report(&report)
    }

    /// Sets the backlight color.
    pub fn set_color(&self, color: HsvColor) -> (r: Result<(), DriverError>)
        ensures
            r is Err ==> is_write_error(r->Err_0),
    {
        let report = color_report(color);
        self.send_report(&report)
    }

    /// The interface's manufacturer, product and serial number on three lines.
    pub fn get_device_info(&self) -> (r: Result<String, DriverError>)
        ensures
            r is Err ==> r->Err_0 is InfoUnavailable,
    {
        match self.device.get_device_info() {
            Ok(info) => Ok(
                format_device_info(
                    info.manufacturer_string(),
                    info.product_string(),
                    info.serial_number(),
                ),
            ),
            Err(e) => Err(DriverError::InfoUnavailable(error_message(&e))),
        }
    }
}

} // verus!
