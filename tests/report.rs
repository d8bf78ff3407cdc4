use magi96_keyboard::error::DriverError;
use magi96_keyboard::report::{
    brightness_report, build_report, check_written, color_report, effect_report,
    effect_speed_report, REPORT_SIZE,
};
use magi96_keyboard::rgb::{HsvColor, RgbEffect};

#[test]
fn color_report_layout() {
    let r = color_report(HsvColor::new(10, 20, 30));
    let mut expected = vec![0x00u8, 0x07, 0x03, 0x04, 10, 20, 30];
    expected.resize(32, 0);
    assert_eq!(r, expected);
    assert_eq!(r.len(), REPORT_SIZE);
}

#[test]
fn brightness_bounds() {
    let top = brightness_report(9).unwrap();
    assert_eq!(&top[..5], &[0x00, 0x07, 0x03, 0x01, 9]);
    assert!(top[5..].iter().all(|b| *b == 0));
    assert_eq!(brightness_report(0).unwrap()[4], 0);
    assert!(matches!(brightness_report(10), Err(DriverError::InvalidArgument(_))));
    assert!(matches!(brightness_report(255), Err(DriverError::InvalidArgument(_))));
}

#[test]
fn effect_speed_bounds() {
    let top = effect_speed_report(4).unwrap();
    assert_eq!(&top[..5], &[0x00, 0x07, 0x03, 0x03, 4]);
    assert_eq!(top.len(), 32);
    assert!(matches!(effect_speed_report(5), Err(DriverError::InvalidArgument(_))));
    assert!(matches!(effect_speed_report(200), Err(DriverError::InvalidArgument(_))));
}

#[test]
fn effect_report_carries_code() {
    let r = effect_report(RgbEffect::CenterSpread);
    assert_eq!(&r[..5], &[0x00, 0x07, 0x03, 0x02, 18]);
    assert!(r[5..].iter().all(|b| *b == 0));
    assert_eq!(effect_report(RgbEffect::Vortex)[4], 3);
}

#[test]
fn long_payload_is_cut_to_fit() {
    let payload: Vec<u8> = (1..=40).collect();
    let r = build_report(0x03, 0x09, &payload);
    assert_eq!(r.len(), 32);
    assert_eq!(&r[..4], &[0x00, 0x07, 0x03, 0x09]);
    assert_eq!(r[4], 1);
    assert_eq!(r[31], 28);
}

#[test]
fn empty_payload_is_all_padding() {
    let r = build_report(0x05, 0x06, &[]);
    assert_eq!(&r[..4], &[0x00, 0x07, 0x05, 0x06]);
    assert!(r[4..].iter().all(|b| *b == 0));
}

#[test]
fn written_count_is_checked() {
    assert_eq!(check_written(32, 32), Ok(()));
    assert_eq!(
        check_written(32, 31),
        Err(DriverError::ShortWrite { expected: 32, written: 31 })
    );
    assert_eq!(
        check_written(32, 0),
        Err(DriverError::ShortWrite { expected: 32, written: 0 })
    );
}
