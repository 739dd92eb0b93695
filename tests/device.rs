use mcl_ssg::bootstrap::{starts_with, Bootstrap, Progress, Stage, MODEL_PREFIX};
use mcl_ssg::codec::FRAME_LEN;
use mcl_ssg::device::{MclSsg, Ssg6000};
use mcl_ssg::reply::Status;
use mcl_ssg::Error;

fn reply(head: &[u8]) -> Vec<u8> {
    let mut f = head.to_vec();
    f.resize(FRAME_LEN, 0);
    f
}

fn model_reply(name: &str) -> Vec<u8> {
    let mut head = vec![40u8];
    head.extend_from_slice(name.as_bytes());
    reply(&head)
}

/// Limits: 1 MHz .. 6 GHz, -60.00 dBm .. +15.00 dBm.
fn limit_replies() -> Vec<Vec<u8>> {
    vec![
        reply(&[42, 0x00, 0x0F, 0x42, 0x40]),
        reply(&[43, 0x01, 0x65, 0xA0, 0xBC, 0x00]),
        reply(&[45, 1, 0x17, 0x70]),
        reply(&[46, 0, 0x05, 0xDC]),
    ]
}

fn connect(replies: Vec<Vec<u8>>) -> Result<MclSsg<Ssg6000>, Error> {
    let mut boot = Bootstrap::new();
    for r in replies {
        match boot.advance(&r)? {
            Progress::Next(b) => boot = b,
            Progress::Ready(h) => return Ok(h),
        }
    }
    panic!("bootstrap did not finish");
}

fn handle() -> MclSsg<Ssg6000> {
    let mut replies = vec![model_reply("SSG-6000RC")];
    replies.extend(limit_replies());
    connect(replies).unwrap()
}

#[test]
fn bootstrap_reads_limits() {
    let h = handle();
    assert_eq!(h.get_min_freq(), 1_000_000);
    assert_eq!(h.get_max_freq(), 6_000_000_000);
    assert_eq!(h.get_min_power(), -6000);
    assert_eq!(h.get_max_power(), 1500);
}

#[test]
fn bootstrap_requests_in_order() {
    let mut boot = Bootstrap::new();
    let mut codes = Vec::new();
    let mut replies = vec![model_reply("SSG-6000")];
    replies.extend(limit_replies());
    for r in replies {
        let req = boot.request();
        assert_eq!(req.len(), FRAME_LEN);
        assert!(req[1..].iter().all(|b| *b == 0));
        codes.push(req[0]);
        match boot.advance(&r).unwrap() {
            Progress::Next(b) => boot = b,
            Progress::Ready(_) => break,
        }
    }
    assert_eq!(codes, vec![40, 42, 43, 45, 46]);
}

#[test]
fn bootstrap_wrong_model_stops_before_limits() {
    let boot = Bootstrap::new();
    assert_eq!(boot.stage(), Stage::ModelName);
    match boot.advance(&model_reply("SSG-XG12")) {
        Err(e) => assert_eq!(e, Error::WrongDevice),
        Ok(_) => panic!("accepted another family"),
    }
    match Bootstrap::new().advance(&model_reply("SSG-600")) {
        Err(e) => assert_eq!(e, Error::WrongDevice),
        Ok(_) => panic!("accepted a short name"),
    }
}

#[test]
fn bootstrap_mismatched_reply() {
    let mut replies = vec![model_reply("SSG-6000RC")];
    let mut limits = limit_replies();
    limits[2][0] = 46;
    replies.extend(limits);
    assert_eq!(connect(replies).err(), Some(Error::BadHidRead));
}

#[test]
fn bootstrap_unterminated_model_name() {
    let r = vec![40u8; FRAME_LEN];
    match Bootstrap::new().advance(&r) {
        Err(e) => assert_eq!(e, Error::MalformedFrame),
        Ok(_) => panic!("accepted an unterminated name"),
    }
}

#[test]
fn prefix_check() {
    assert!(starts_with("SSG-6000RC", MODEL_PREFIX));
    assert!(starts_with("SSG-6000", MODEL_PREFIX));
    assert!(!starts_with("SSG-600", MODEL_PREFIX));
    assert!(!starts_with("ZSG-6000", MODEL_PREFIX));
    assert!(starts_with("abc", ""));
}

#[test]
fn model_and_serial_replies() {
    let h = handle();
    assert_eq!(h.model_name_request()[0], 40);
    assert_eq!(h.get_model_name(&model_reply("SSG-6000RC")), Ok("SSG-6000RC".to_string()));
    assert_eq!(h.serial_number_request()[0], 41);
    assert_eq!(h.get_serial_number(&reply(&[41, b'1', b'2', 0])), Ok("12".to_string()));
    assert_eq!(h.get_serial_number(&model_reply("X")), Err(Error::BadHidRead));
}

#[test]
fn status_through_handle() {
    let h = handle();
    assert_eq!(h.status_request()[0], 105);
    let r = reply(&[105, 1, 0, 0, 0, 0, 0x03, 0xE8, 0, 0x01, 0x90]);
    assert_eq!(h.get_status(&r), Ok(Status { enabled: true, locked: false, freq: 1000, power: 400 }));
}

#[test]
fn rf_power_frames() {
    let h = handle();
    let on = h.set_rf_power_on(true);
    assert_eq!(on, reply(&[104, 1]));
    let off = h.set_rf_power_on(false);
    assert_eq!(off, reply(&[104, 0]));
}

#[test]
fn set_frequency_power_trigger_frame() {
    let h = handle();
    let f = h.set_frequency_power_trigger(1_000_000_000, -400, true).unwrap();
    assert_eq!(f, reply(&[103, 0x00, 0x3B, 0x9A, 0xCA, 0x00, 1, 0x01, 0x90, 1]));
    let g = h.set_frequency_power_trigger(6_000_000_000, 1500, false).unwrap();
    assert_eq!(g, reply(&[103, 0x01, 0x65, 0xA0, 0xBC, 0x00, 0, 0x05, 0xDC, 0]));
}

#[test]
fn set_frequency_power_trigger_bounds_inside() {
    let h = handle();
    assert!(h.set_frequency_power_trigger(1_000_000, 0, false).is_ok());
    assert!(h.set_frequency_power_trigger(6_000_000_000, 0, false).is_ok());
    assert!(h.set_frequency_power_trigger(2_000_000, -6000, false).is_ok());
    assert!(h.set_frequency_power_trigger(2_000_000, 1500, false).is_ok());
}

#[test]
fn set_frequency_power_trigger_bounds_outside() {
    let h = handle();
    assert_eq!(h.set_frequency_power_trigger(999_999, 0, false), Err(Error::OutOfRange));
    assert_eq!(h.set_frequency_power_trigger(6_000_000_001, 0, false), Err(Error::OutOfRange));
    assert_eq!(h.set_frequency_power_trigger(2_000_000, -6001, false), Err(Error::OutOfRange));
    assert_eq!(h.set_frequency_power_trigger(2_000_000, 1501, true), Err(Error::OutOfRange));
}
