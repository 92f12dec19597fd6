use tadeusz::{
    handle, ControlArg, ControlError, ControlMessage, GrainParams, GrainStatus, GRAIN_ADDR,
    STATUS_ADDR,
};

const STORE_LEN: usize = 1000;

fn grain_msg(start: i32, length: i32) -> ControlMessage {
    ControlMessage {
        addr: GRAIN_ADDR.to_string(),
        args: vec![ControlArg::Int(start), ControlArg::Int(length)],
    }
}

fn status_msg(token: &str) -> ControlMessage {
    ControlMessage {
        addr: STATUS_ADDR.to_string(),
        args: vec![ControlArg::Text(token.to_string())],
    }
}

#[test]
fn initial_parameters() {
    let p = GrainParams::initial(STORE_LEN);
    assert_eq!(p.status, GrainStatus::XFade);
    assert_eq!(p.start, 0);
    assert_eq!(p.length, STORE_LEN);
}

#[test]
fn status_tokens() {
    assert_eq!(GrainStatus::from_token("Off"), Some(GrainStatus::Off));
    assert_eq!(GrainStatus::from_token("On"), Some(GrainStatus::On));
    assert_eq!(GrainStatus::from_token("XFade"), Some(GrainStatus::XFade));
    assert_eq!(GrainStatus::from_token("off"), None);
    assert_eq!(GrainStatus::from_token("Onn"), None);
    assert_eq!(GrainStatus::from_token(""), None);
}

#[test]
fn set_status_accepts_and_rejects() {
    let mut p = GrainParams::initial(STORE_LEN);
    assert_eq!(p.set_status("Off"), Ok(()));
    assert_eq!(p.status, GrainStatus::Off);
    assert_eq!(p.set_status("Loud"), Err(ControlError::UnknownStatus));
    assert_eq!(p.status, GrainStatus::Off);
}

#[test]
fn set_grain_in_range() {
    let mut p = GrainParams::initial(STORE_LEN);
    assert_eq!(p.set_grain(100, 500, STORE_LEN), Ok(()));
    assert_eq!(p.start, 100);
    assert_eq!(p.length, 500);
    assert_eq!(p.status, GrainStatus::XFade);
}

#[test]
fn set_grain_clamps_start_and_length() {
    let mut p = GrainParams::initial(STORE_LEN);
    assert_eq!(p.set_grain(STORE_LEN as i32 + 1000, 50000, STORE_LEN), Ok(()));
    assert!(p.start < STORE_LEN);
    assert_eq!(p.start, STORE_LEN - 1);
    assert_eq!(p.length, STORE_LEN);
    assert_eq!(p.set_grain(-5, 300, STORE_LEN), Ok(()));
    assert_eq!(p.start, 0);
    assert_eq!(p.length, 300);
}

#[test]
fn set_grain_rejects_short_length_atomically() {
    let mut p = GrainParams::initial(STORE_LEN);
    p.set_grain(200, 400, STORE_LEN).unwrap();
    assert_eq!(p.set_grain(10, 150, STORE_LEN), Err(ControlError::GrainTooShort));
    assert_eq!(p.set_grain(10, -3, STORE_LEN), Err(ControlError::GrainTooShort));
    assert_eq!(p.start, 200);
    assert_eq!(p.length, 400);
    assert_eq!(p.set_grain(10, 151, STORE_LEN), Ok(()));
    assert_eq!(p.length, 151);
}

#[test]
fn set_grain_twice_is_once() {
    for (s, l) in [(100, 500), (5000, 60000), (-1, 200), (7, 20)] {
        let mut once = GrainParams::initial(STORE_LEN);
        let r1 = once.set_grain(s, l, STORE_LEN);
        let mut twice = once;
        let r2 = twice.set_grain(s, l, STORE_LEN);
        assert_eq!(once, twice);
        assert_eq!(r1, r2);
    }
}

#[test]
fn handle_routes_commands() {
    let mut p = GrainParams::initial(STORE_LEN);
    assert_eq!(handle(&mut p, &status_msg("On"), STORE_LEN), Ok(()));
    assert_eq!(p.status, GrainStatus::On);
    assert_eq!(handle(&mut p, &grain_msg(42, 600), STORE_LEN), Ok(()));
    assert_eq!((p.start, p.length), (42, 600));
}

#[test]
fn handle_rejects_bad_commands() {
    let before = GrainParams::initial(STORE_LEN);
    let mut p = before;
    let unknown = ControlMessage { addr: "/tadeusz/speed".to_string(), args: vec![] };
    assert_eq!(handle(&mut p, &unknown, STORE_LEN), Err(ControlError::UnknownRoute));
    let no_arg = ControlMessage { addr: STATUS_ADDR.to_string(), args: vec![] };
    assert_eq!(handle(&mut p, &no_arg, STORE_LEN), Err(ControlError::BadStatusArg));
    let int_status = ControlMessage {
        addr: STATUS_ADDR.to_string(),
        args: vec![ControlArg::Int(1)],
    };
    assert_eq!(handle(&mut p, &int_status, STORE_LEN), Err(ControlError::BadStatusArg));
    assert_eq!(handle(&mut p, &status_msg("Fast"), STORE_LEN), Err(ControlError::UnknownStatus));
    let text_start = ControlMessage {
        addr: GRAIN_ADDR.to_string(),
        args: vec![ControlArg::Text("0".to_string()), ControlArg::Int(300)],
    };
    assert_eq!(handle(&mut p, &text_start, STORE_LEN), Err(ControlError::BadStartArg));
    let one_arg = ControlMessage {
        addr: GRAIN_ADDR.to_string(),
        args: vec![ControlArg::Int(0)],
    };
    assert_eq!(handle(&mut p, &one_arg, STORE_LEN), Err(ControlError::BadLengthArg));
    let other_len = ControlMessage {
        addr: GRAIN_ADDR.to_string(),
        args: vec![ControlArg::Int(0), ControlArg::Other],
    };
    assert_eq!(handle(&mut p, &other_len, STORE_LEN), Err(ControlError::BadLengthArg));
    assert_eq!(handle(&mut p, &grain_msg(0, 100), STORE_LEN), Err(ControlError::GrainTooShort));
    assert_eq!(p, before);
}
