use vstd::prelude::*;

use crate::error::DriverError;
use crate::rgb::{HsvColor, RgbEffect};

verus! {

/// Length of every command report, report-ID byte included.
pub const REPORT_SIZE: usize = 32;

/// Byte offsets within a command report.
pub const OFFSET_REPORT_ID: usize = 0;
pub const OFFSET_COMMAND: usize = 1;
pub const OFFSET_CHANNEL: usize = 2;
pub const OFFSET_CONTROL_ID: usize = 3;
pub const OFFSET_PAYLOAD: usize = 4;

/// Room for payload bytes after the header.
pub const MAX_PAYLOAD: usize = 28;

/// Protocol command that sets a lighting value.
pub const COMMAND_SET_VALUE: u8 = 0x07;

/// Channel of the RGB matrix subsystem.
pub const RGB_MATRIX_CHANNEL: u8 = 0x03;

/// Control IDs within the RGB matrix channel.
pub const CONTROL_BRIGHTNESS: u8 = 0x01;
pub const CONTROL_EFFECT: u8 = 0x02;
pub const CONTROL_EFFECT_SPEED: u8 = 0x03;
pub const CONTROL_COLOR: u8 = 0x04;

/// Highest accepted brightness level and effect speed.
pub const MAX_BRIGHTNESS: u8 = 9;
pub const MAX_EFFECT_SPEED: u8 = 4;

/// Byte `i` of the report for `channel`, `control_id` and `payload`: a zero
/// report ID, the set-value command, the channel, the control ID, then the
/// payload cut to fit and zero padding.
pub open spec fn report_byte(channel: u8, control_id: u8, payload: Seq<u8>, i: int) -> u8 {
    if i == OFFSET_REPORT_ID {
        0
    } else if i == OFFSET_COMMAND {
        COMMAND_SET_VALUE
    } else if i == OFFSET_CHANNEL {
        channel
    } else if i == OFFSET_CONTROL_ID {
        control_id
    } else if i - OFFSET_PAYLOAD < payload.len() {
        payload[i - OFFSET_PAYLOAD]
    } else {
        0
    }
}

/// The whole report for `channel`, `control_id` and `payload`.
pub open spec fn spec_report(channel: u8, control_id: u8, payload: Seq<u8>) -> Seq<u8> {
    Seq::new(REPORT_SIZE as nat, |i: int| report_byte(channel, control_id, payload, i))
}

/// Encodes one command report; a payload longer than `MAX_PAYLOAD` is cut.
pub fn build_report(channel: u8, control_id: u8, payload: &[u8]) -> (r: Vec<u8>)
    ensures
        r@ == spec_report(channel, control_id, payload@),
{
    let mut buf: Vec<u8> = Vec::new();
    buf.push(0);
    buf.push(COMMAND_SET_VALUE);
    buf.push(channel);
    buf.push(control_id);
    let mut i: usize = OFFSET_PAYLOAD;
    while i < REPORT_SIZE
        invariant
            OFFSET_PAYLOAD <= i <= REPORT_SIZE,
            buf@.len() == i,
            forall|k: int|
                0 <= k < i ==> #[trigger] buf@[k] == report_byte(
                    channel,
                    control_id,
                    payload@,
                    k,
                ),
        decreases REPORT_SIZE - i,
    {
        let j = i - OFFSET_PAYLOAD;
        if j < payload.len() {
            buf.push(payload[j]);
        } else {
            buf.push(0);
        }
        i = i + 1;
    }
    assert(buf@ =~= spec_report(channel, control_id, payload@));
    buf
}

/// The report that sets brightness `level`, which must be at most
/// `MAX_BRIGHTNESS`.
pub fn brightness_report(level: u8) -> (r: Result<Vec<u8>, DriverError>)
    ensures
        level <= MAX_BRIGHTNESS <==> r is Ok,
        r is Ok ==> r->Ok_0@ == spec_report(RGB_MATRIX_CHANNEL, CONTROL_BRIGHTNESS, seq![level]),
        r is Err ==> r->Err_0 is InvalidArgument,
{
    if level > MAX_BRIGHTNESS {
        return Err(DriverError::InvalidArgument(String::from_str("Brightness must be between 0 and 9")));
    }
    let payload = [level];
    assert(payload@ =~= seq![level]);
    Ok(build_report(RGB_MATRIX_CHANNEL, CONTROL_BRIGHTNESS, &payload))
}

/// The report that sets effect speed `speed`, which must be at most
/// `MAX_EFFECT_SPEED`.
pub fn effect_speed_report(speed: u8) -> (r: Result<Vec<u8>, DriverError>)
    ensures
        speed <= MAX_EFFECT_SPEED <==> r is Ok,
        r is Ok ==> r->Ok_0@ == spec_report(RGB_MATRIX_CHANNEL, CONTROL_EFFECT_SPEED, seq![speed]),
        r is Err ==> r->Err_0 is InvalidArgument,
{
    if speed > MAX_EFFECT_SPEED {
        return Err(DriverError::InvalidArgument(String::from_str("Speed must be between 0 and 4")));
    }
    let payload = [speed];
    assert(payload@ =~= seq![speed]);
    Ok(build_report(RGB_MATRIX_CHANNEL, CONTROL_EFFECT_SPEED, &payload))
}

/// The report that selects `effect`: its code is the payload.
pub fn effect_report(effect: RgbEffect) -> (r: Vec<u8>)
    ensures
        r@ == spec_report(RGB_MATRIX_CHANNEL, CONTROL_EFFECT, seq![effect.spec_code()]),
{
    let payload = [effect.code()];
    assert(payload@ =~= seq![effect.spec_code()]);
    build_report(RGB_MATRIX_CHANNEL, CONTROL_EFFECT, &payload)
}

/// The report that sets `color`: hue, saturation and value in that order.
pub fn color_report(color: HsvColor) -> (r: Vec<u8>)
    ensures
        r@ == spec_report(
            RGB_MATRIX_CHANNEL,
            CONTROL_COLOR,
            seq![color.hue, color.saturation, color.value],
        ),
{
    let payload = [color.hue, color.saturation, color.value];
    assert(payload@ =~= seq![color.hue, color.saturation, color.value]);
    build_report(RGB_MATRIX_CHANNEL, CONTROL_COLOR, &payload)
}

/// Judges the byte count that a write of `expected` bytes reported.
pub fn check_written(expected: usize, written: usize) -> (r: Result<(), DriverError>)
    ensures
        r is Ok <==> written == expected,
        r is Err ==> r->Err_0 == (DriverError::ShortWrite { expected, written }),
{
    if written != expected {
        Err(DriverError::ShortWrite { expected, written })
    } else {
        Ok(())
    }
}

} // verus!
