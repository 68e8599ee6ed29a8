use wpilib::encoder::counter_init;
use wpilib::{hal_result, DigitalInput, Encoder, EncodingType, HalError, IndexingType, UsageReport};

fn live_encoder(reverse: bool, encoding: EncodingType) -> Encoder {
    let a = DigitalInput::from_handle(1);
    let b = DigitalInput::from_handle(2);
    match Encoder::with_direction(a, b, reverse, encoding, 0x0700_0003, 0) {
        Ok(e) => e,
        Err(_) => panic!("construction with status zero must succeed"),
    }
}

#[test]
fn encoding_codes_match_hal() {
    assert_eq!(EncodingType::K1X.code(), 0);
    assert_eq!(EncodingType::K2X.code(), 1);
    assert_eq!(EncodingType::K4X.code(), 2);
}

#[test]
fn encoding_scales_are_nominal() {
    assert_eq!(EncodingType::K1X.scale(), 1);
    assert_eq!(EncodingType::K2X.scale(), 2);
    assert_eq!(EncodingType::K4X.scale(), 4);
}

#[test]
fn default_encoding_is_four_x() {
    assert_eq!(EncodingType::default(), EncodingType::K4X);
}

#[test]
fn indexing_codes_match_hal() {
    assert_eq!(IndexingType::ResetWhileHigh.code(), 0);
    assert_eq!(IndexingType::ResetWhileLow.code(), 1);
    assert_eq!(IndexingType::ResetOnFallingEdge.code(), 2);
    assert_eq!(IndexingType::ResetOnRisingEdge.code(), 3);
}

#[test]
fn status_zero_is_ok() {
    assert_eq!(hal_result(17, 0), Ok(17));
}

#[test]
fn nonzero_status_is_error() {
    assert_eq!(hal_result(17, -1029), Err(HalError(-1029)));
    assert_eq!(hal_result((), 5), Err(HalError(5)));
}

#[test]
fn counter_init_uses_pin_handles_and_zero_offsets() {
    let a = DigitalInput::from_handle(11);
    let b = DigitalInput::from_handle(12);
    let init = counter_init(&a, &b, true, EncodingType::K2X);
    assert_eq!(init.handle_a, 11);
    assert_eq!(init.offset_a, 0);
    assert_eq!(init.handle_b, 12);
    assert_eq!(init.offset_b, 0);
    assert_eq!(init.reverse_direction, 1);
    assert_eq!(init.encoding, 1);
    let fwd = counter_init(&a, &b, false, EncodingType::K4X);
    assert_eq!(fwd.reverse_direction, 0);
    assert_eq!(fwd.encoding, 2);
}

#[test]
fn construction_success_keeps_handle_and_settings() {
    let e = live_encoder(true, EncodingType::K1X);
    assert!(e.is_live());
    assert_eq!(e.handle(), 0x0700_0003);
    assert!(e.reverse_direction());
    assert_eq!(e.encoding(), EncodingType::K1X);
}

#[test]
fn new_counts_forwards() {
    let a = DigitalInput::from_handle(1);
    let b = DigitalInput::from_handle(2);
    let e = Encoder::new(a, b, EncodingType::K4X, 42, 0).ok().unwrap();
    assert!(!e.reverse_direction());
    assert_eq!(e.handle(), 42);
}

#[test]
fn construction_failure_reports_status() {
    let a = DigitalInput::from_handle(1);
    let b = DigitalInput::from_handle(2);
    match Encoder::with_direction(a, b, false, EncodingType::K4X, 0, -1098) {
        Ok(_) => panic!("a non-zero status must not give an encoder"),
        Err(err) => assert_eq!(err, HalError(-1098)),
    }
}

#[test]
fn usage_report_carries_index_and_encoding_code() {
    let e = live_encoder(false, EncodingType::K4X);
    let index = e.fpga_index(3, 0);
    assert_eq!(index, 3);
    assert_eq!(e.usage_report(index), UsageReport { instance: 3, context: 2 });
}

#[test]
fn four_x_scenario_reads() {
    let e = live_encoder(false, EncodingType::K4X);
    assert_eq!(e.encoding_scale(4, 0), Ok(4));
    assert_eq!(e.get_raw(40, 0), Ok(40));
    assert_eq!(e.get(10, 0), Ok(10));
}

#[test]
fn reads_pass_errors_through() {
    let e = live_encoder(false, EncodingType::K2X);
    assert_eq!(e.get(10, -1), Err(HalError(-1)));
    assert_eq!(e.get_raw(40, 7), Err(HalError(7)));
    assert_eq!(e.encoding_scale(2, -44), Err(HalError(-44)));
}

#[test]
fn reset_then_raw_reads_zero() {
    let mut e = live_encoder(false, EncodingType::K4X);
    assert_eq!(e.reset(0), Ok(()));
    assert_eq!(e.get_raw(0, 0), Ok(0));
    assert!(e.is_live());
}

#[test]
fn set_min_rate_status() {
    let mut e = live_encoder(false, EncodingType::K4X);
    assert_eq!(e.set_min_rate(0), Ok(()));
    assert_eq!(e.set_min_rate(-3), Err(HalError(-3)));
    assert!(e.is_live());
}

#[test]
fn release_frees_once() {
    let mut e = live_encoder(false, EncodingType::K4X);
    assert_eq!(e.release(), Some(0x0700_0003));
    assert!(!e.is_live());
    assert_eq!(e.release(), None);
    assert_eq!(e.release(), None);
}

#[test]
fn release_after_failed_call_still_frees_once() {
    let mut e = live_encoder(false, EncodingType::K4X);
    assert_eq!(e.reset(-9), Err(HalError(-9)));
    assert_eq!(e.get(0, -9), Err(HalError(-9)));
    assert_eq!(e.release(), Some(0x0700_0003));
    assert_eq!(e.release(), None);
}
