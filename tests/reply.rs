use mcl_ssg::codec::FRAME_LEN;
use mcl_ssg::reply::{check_response, read_max_freq, read_min_freq, read_power, read_status, read_text, Status};
use mcl_ssg::codec::InterruptCode;
use mcl_ssg::Error;

fn reply(head: &[u8]) -> Vec<u8> {
    let mut f = head.to_vec();
    f.resize(FRAME_LEN, 0);
    f
}

#[test]
fn check_response_matches_opcode() {
    assert_eq!(check_response(105, &reply(&[105])), Ok(()));
    assert_eq!(check_response(105, &reply(&[104])), Err(Error::BadHidRead));
    assert_eq!(check_response(105, &[]), Err(Error::BadHidRead));
}

#[test]
fn status_decode_captured_frame() {
    let r = reply(&[105, 1, 0, 0, 0, 0, 0x03, 0xE8, 0, 0x01, 0x90]);
    let s = read_status(&r).unwrap();
    assert_eq!(s, Status { enabled: true, locked: false, freq: 1000, power: 400 });
}

#[test]
fn status_decode_negative_power_and_wide_freq() {
    let r = reply(&[105, 0, 7, 0x01, 0x65, 0xA0, 0xBC, 0x00, 1, 0x17, 0x70, 0xAA]);
    let s = read_status(&r).unwrap();
    assert!(!s.enabled);
    assert!(s.locked);
    assert_eq!(s.freq, 6_000_000_000);
    assert_eq!(s.power, -6000);
}

#[test]
fn status_with_wrong_opcode_is_refused() {
    let r = reply(&[104, 1, 0, 0, 0, 0, 0x03, 0xE8, 0, 0x01, 0x90]);
    assert_eq!(read_status(&r), Err(Error::BadHidRead));
}

#[test]
fn min_freq_reads_four_bytes() {
    assert_eq!(read_min_freq(&reply(&[42, 0x00, 0x00, 0x00, 0x64])), Ok(100));
    assert_eq!(read_min_freq(&reply(&[42, 0x00, 0x00, 0x00, 0x64, 0xFF, 0xFF])), Ok(100));
    assert_eq!(read_min_freq(&reply(&[42, 0xFF, 0xFF, 0xFF, 0xFF, 0xFF])), Ok(0xFFFF_FFFF));
}

#[test]
fn max_freq_reads_five_bytes() {
    assert_eq!(read_max_freq(&reply(&[43, 0x01, 0x65, 0xA0, 0xBC, 0x00])), Ok(6_000_000_000));
    assert_eq!(read_max_freq(&reply(&[43, 0, 0, 0, 0, 0x64, 0xFF])), Ok(100));
    assert_eq!(read_max_freq(&reply(&[43, 0xFF, 0xFF, 0xFF, 0xFF, 0xFF, 0xFF])), Ok(0xFF_FFFF_FFFF));
}

#[test]
fn freq_replies_with_wrong_opcode() {
    assert_eq!(read_min_freq(&reply(&[43, 0, 0, 0, 0x64])), Err(Error::BadHidRead));
    assert_eq!(read_max_freq(&reply(&[42, 0, 0, 0, 0x64])), Err(Error::BadHidRead));
}

#[test]
fn power_reply_values() {
    let min = reply(&[45, 1, 0x17, 0x70]);
    assert_eq!(read_power(InterruptCode::GeneratorMinimumPower, &min), Ok(-6000));
    let max = reply(&[46, 0, 0x05, 0xDC]);
    assert_eq!(read_power(InterruptCode::GeneratorMaximumPower, &max), Ok(1500));
    assert_eq!(read_power(InterruptCode::GeneratorMaximumPower, &min), Err(Error::BadHidRead));
}

#[test]
fn text_reply_checks_opcode_then_decodes() {
    let r = reply(&[41, b'1', b'2', b'3', 0]);
    assert_eq!(read_text(InterruptCode::DeviceSerialNumber, &r), Ok("123".to_string()));
    assert_eq!(read_text(InterruptCode::DeviceModelName, &r), Err(Error::BadHidRead));
    let unterminated = vec![41u8; FRAME_LEN];
    assert_eq!(read_text(InterruptCode::DeviceSerialNumber, &unterminated), Err(Error::MalformedFrame));
}
