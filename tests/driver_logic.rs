use rpi_cs_core::api::ErrorMessage;
use rpi_cs_core::calibration::{parse_calib_data, CalibrationData};
use rpi_cs_core::config::{SensorMode, Settings};
use rpi_cs_core::driver::{BusReply, BusRequest, Driver, InitState};
use rpi_cs_core::error::Error;
use rpi_cs_core::sample::RawSample;

fn le(v: i32) -> [u8; 2] {
    let u = (v as i16) as u16;
    [(u & 0xFF) as u8, (u >> 8) as u8]
}

/// Temperature/pressure block of the worked example, with dig_h1 = 75 in its
/// last byte.
fn example_pt() -> [u8; 26] {
    let coeffs: [i32; 12] = [
        27504, 26435, -1000, 36477, -10685, 3024, 2855, 140, -7, 15500, -14600, 6000,
    ];
    let mut pt = [0u8; 26];
    for (i, c) in coeffs.iter().enumerate() {
        let b = if i == 0 || i == 3 {
            let u = *c as u16;
            [(u & 0xFF) as u8, (u >> 8) as u8]
        } else {
            le(*c)
        };
        pt[2 * i] = b[0];
        pt[2 * i + 1] = b[1];
    }
    pt[25] = 75;
    pt
}

/// Humidity block encoding dig_h2 = 362, dig_h3 = 0, dig_h4 = 313,
/// dig_h5 = 50, dig_h6 = 30.
fn example_h() -> [u8; 7] {
    [0x6A, 0x01, 0x00, 0x13, 0x29, 0x03, 0x1E]
}

fn example_calibration() -> CalibrationData {
    parse_calib_data(&example_pt(), &example_h())
}

#[test]
fn parse_worked_example_coefficients() {
    let c = example_calibration();
    assert_eq!(c.dig_t1, 27504);
    assert_eq!(c.dig_t2, 26435);
    assert_eq!(c.dig_t3, -1000);
    assert_eq!(c.dig_p1, 36477);
    assert_eq!(c.dig_p2, -10685);
    assert_eq!(c.dig_p3, 3024);
    assert_eq!(c.dig_p4, 2855);
    assert_eq!(c.dig_p5, 140);
    assert_eq!(c.dig_p6, -7);
    assert_eq!(c.dig_p7, 15500);
    assert_eq!(c.dig_p8, -14600);
    assert_eq!(c.dig_p9, 6000);
    assert_eq!(c.dig_h1, 75);
    assert_eq!(c.dig_h2, 362);
    assert_eq!(c.dig_h3, 0);
    assert_eq!(c.dig_h4, 313);
    assert_eq!(c.dig_h5, 50);
    assert_eq!(c.dig_h6, 30);
    assert_eq!(c.t_fine, 0);
}

#[test]
fn parse_twice_gives_identical_coefficients() {
    let pt = example_pt();
    let h = example_h();
    assert_eq!(parse_calib_data(&pt, &h), parse_calib_data(&pt, &h));
}

#[test]
fn parse_signed_extremes_and_nibbles() {
    let mut pt = [0xFFu8; 26];
    pt[0] = 0x34;
    pt[1] = 0x12;
    pt[2] = 0x00;
    pt[3] = 0x80;
    let h = [0xFF, 0x7F, 0xAB, 0xFF, 0xCD, 0xFF, 0x80];
    let c = parse_calib_data(&pt, &h);
    assert_eq!(c.dig_t1, 0x1234);
    assert_eq!(c.dig_t2, -32768);
    assert_eq!(c.dig_t3, -1);
    assert_eq!(c.dig_p1, 0xFFFF);
    assert_eq!(c.dig_h1, 0xFF);
    assert_eq!(c.dig_h2, 0x7FFF);
    assert_eq!(c.dig_h3, 0xAB);
    assert_eq!(c.dig_h4, 0xFFD);
    assert_eq!(c.dig_h5, 0xFFC);
    assert_eq!(c.dig_h6, -128);
}

#[test]
fn decode_worked_example_sample() {
    let s = RawSample::decode(&[0x5E, 0x2E, 0x00, 0x80, 0x3D, 0x60, 0x7C, 0x30]);
    assert_eq!(s.pressure, 0x5E2E0);
    assert_eq!(s.temperature, 0x803D6);
    assert_eq!(s.humidity, 0x7C30);
}

#[test]
fn decode_largest_sample() {
    let s = RawSample::decode(&[0xFF; 8]);
    assert_eq!(s.pressure, 0xFFFFF);
    assert_eq!(s.temperature, 0xFFFFF);
    assert_eq!(s.humidity, 0xFFFF);
}

#[test]
fn pressure_denominator_positive_for_example() {
    let mut c = example_calibration();
    c.t_fine = 128422;
    assert_eq!(c.check_pressure_denominator(), Ok(()));
}

#[test]
fn pressure_denominator_zero_p1() {
    let mut c = example_calibration();
    c.dig_p1 = 0;
    c.t_fine = 128422;
    assert_eq!(c.check_pressure_denominator(), Err(Error::InvalidData));
}

#[test]
fn pressure_denominator_negative_quadratic() {
    let mut c = example_calibration();
    c.dig_p3 = -32768;
    c.dig_p2 = 0;
    c.t_fine = i32::MAX;
    assert_eq!(c.check_pressure_denominator(), Err(Error::InvalidData));
    c.t_fine = 128000;
    assert_eq!(c.check_pressure_denominator(), Ok(()));
}

#[test]
fn standard_settings_register_values() {
    let s = Settings::standard();
    assert_eq!(s.ctrl_hum(), 1);
    assert_eq!(s.ctrl_meas(), 0x27);
    assert_eq!(s.config(), 0xA0);
    assert_eq!(s.writes(), vec![(0xF2, 1), (0xF4, 0x27), (0xF5, 0xA0)]);
}

#[test]
fn mode_codes() {
    assert_eq!(SensorMode::Sleep.code(), 0);
    assert_eq!(SensorMode::Forced.code(), 1);
    assert_eq!(SensorMode::Normal.code(), 3);
}

fn ready_driver() -> Driver {
    let mut d = Driver::new(Settings::standard(), true);
    d.advance(BusReply::Data(vec![0x60]));
    d.advance(BusReply::Written);
    d.advance(BusReply::Data(example_pt().to_vec()));
    d.advance(BusReply::Data(example_h().to_vec()));
    d.advance(BusReply::Written);
    d.advance(BusReply::Written);
    d.advance(BusReply::Written);
    d
}

#[test]
fn init_sequence_requests() {
    let mut d = Driver::new(Settings::standard(), true);
    assert_eq!(d.request(), Some(BusRequest::Read { register: 0xD0, len: 1 }));
    d.advance(BusReply::Data(vec![0x60]));
    assert_eq!(d.request(), Some(BusRequest::Write { register: 0xE0, value: 0xB6 }));
    d.advance(BusReply::Written);
    assert_eq!(d.request(), Some(BusRequest::Read { register: 0x88, len: 26 }));
    d.advance(BusReply::Data(example_pt().to_vec()));
    assert_eq!(d.request(), Some(BusRequest::Read { register: 0xE1, len: 7 }));
    d.advance(BusReply::Data(example_h().to_vec()));
    assert_eq!(d.request(), Some(BusRequest::Write { register: 0xF2, value: 1 }));
    d.advance(BusReply::Written);
    assert_eq!(d.request(), Some(BusRequest::Write { register: 0xF4, value: 0x27 }));
    d.advance(BusReply::Written);
    assert_eq!(d.request(), Some(BusRequest::Write { register: 0xF5, value: 0xA0 }));
    d.advance(BusReply::Written);
    assert_eq!(d.request(), None);
    match d.state() {
        InitState::Ready { calib } => assert_eq!(calib, example_calibration()),
        other => panic!("not ready: {:?}", other),
    }
}

#[test]
fn chip_mismatch_stops_initialisation() {
    let mut d = Driver::new(Settings::standard(), true);
    d.advance(BusReply::Data(vec![0x58]));
    assert!(matches!(d.state(), InitState::Failed { error: Error::UnsupportedChip }));
    assert_eq!(d.request(), None);
    d.advance(BusReply::Data(example_pt().to_vec()));
    assert!(matches!(d.state(), InitState::Failed { error: Error::UnsupportedChip }));
    assert_eq!(d.measure_request(), Err(Error::NoCalibrationData));
}

#[test]
fn measure_before_calibration_fails() {
    let d = Driver::new(Settings::standard(), true);
    assert_eq!(d.measure_request(), Err(Error::NoCalibrationData));
    let r = d.sample_from(BusReply::Data(vec![0x5E, 0x2E, 0x00, 0x80, 0x3D, 0x60, 0x7C, 0x30]));
    assert_eq!(r, Err(Error::NoCalibrationData));
}

#[test]
fn measure_when_ready() {
    let d = ready_driver();
    assert_eq!(d.measure_request(), Ok(BusRequest::Read { register: 0xF7, len: 8 }));
    let r = d.sample_from(BusReply::Data(vec![0x5E, 0x2E, 0x00, 0x80, 0x3D, 0x60, 0x7C, 0x30]));
    let (s, c) = r.unwrap();
    assert_eq!(s, RawSample { pressure: 0x5E2E0, temperature: 0x803D6, humidity: 0x7C30 });
    assert_eq!(c, example_calibration());
}

#[test]
fn measure_bus_fault_and_short_read() {
    let d = ready_driver();
    assert_eq!(d.sample_from(BusReply::Fault), Err(Error::I2C));
    assert_eq!(d.sample_from(BusReply::Data(vec![1, 2, 3])), Err(Error::InvalidData));
    assert_eq!(d.sample_from(BusReply::Written), Err(Error::InvalidData));
}

#[test]
fn reset_failure_policy() {
    let mut fatal = Driver::new(Settings::standard(), true);
    fatal.advance(BusReply::Data(vec![0x60]));
    fatal.advance(BusReply::Fault);
    assert!(matches!(fatal.state(), InitState::Failed { error: Error::I2C }));

    let mut lenient = Driver::new(Settings::standard(), false);
    lenient.advance(BusReply::Data(vec![0x60]));
    lenient.advance(BusReply::Fault);
    assert!(matches!(lenient.state(), InitState::AwaitTempPressureCalib));
}

#[test]
fn calibration_read_fault_is_bus_error() {
    let mut d = Driver::new(Settings::standard(), true);
    d.advance(BusReply::Data(vec![0x60]));
    d.advance(BusReply::Written);
    d.advance(BusReply::Fault);
    assert!(matches!(d.state(), InitState::Failed { error: Error::I2C }));
    assert_eq!(d.measure_request(), Err(Error::NoCalibrationData));
}

#[test]
fn configuration_fault_is_fatal() {
    let mut d = Driver::new(Settings::standard(), true);
    d.advance(BusReply::Data(vec![0x60]));
    d.advance(BusReply::Written);
    d.advance(BusReply::Data(example_pt().to_vec()));
    d.advance(BusReply::Data(example_h().to_vec()));
    d.advance(BusReply::Written);
    d.advance(BusReply::Fault);
    assert!(matches!(d.state(), InitState::Failed { error: Error::I2C }));
    assert_eq!(d.request(), None);
}

#[test]
fn wrong_length_reply_is_invalid_data() {
    let mut d = Driver::new(Settings::standard(), true);
    d.advance(BusReply::Data(vec![0x60, 0x00]));
    assert!(matches!(d.state(), InitState::Failed { error: Error::InvalidData }));

    let mut d = Driver::new(Settings::standard(), true);
    d.advance(BusReply::Data(vec![0x60]));
    d.advance(BusReply::Written);
    d.advance(BusReply::Data(vec![0; 24]));
    assert!(matches!(d.state(), InitState::Failed { error: Error::InvalidData }));
}

#[test]
fn error_messages() {
    assert_eq!(ErrorMessage::not_found().message, "The requested resource was not found.");
    assert_eq!(
        ErrorMessage::server_error().message,
        "The server encountered an internal error while processing the request"
    );
}
