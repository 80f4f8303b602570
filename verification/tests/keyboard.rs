use admin_key::keyboard::{
    map_key, map_key_without_shift, release_report, typing_reports, KeyboardReport,
    KeyboardRequestHandler, OutResponse, ReportId, LEFT_SHIFT,
};

fn press(modifier: u8, code: u8) -> KeyboardReport {
    KeyboardReport { modifier, reserved: 0, leds: 0, keycodes: [code, 0, 0, 0, 0, 0] }
}

#[test]
fn letters_and_digits_map_to_hid_usages() {
    assert_eq!(map_key(&b'a'), press(0, 0x04));
    assert_eq!(map_key(&b'z'), press(0, 0x1D));
    assert_eq!(map_key(&b'1'), press(0, 0x1E));
    assert_eq!(map_key(&b'9'), press(0, 0x26));
    assert_eq!(map_key(&b'0'), press(0, 0x27));
}

#[test]
fn uppercase_letters_hold_shift() {
    assert_eq!(map_key(&b'A'), press(LEFT_SHIFT, 0x04));
    assert_eq!(map_key(&b'Z'), press(0x02, 0x1D));
    for c in b'A'..=b'Z' {
        let upper = map_key(&c);
        let lower = map_key(&(c + 32));
        assert_eq!(upper.keycodes, lower.keycodes);
        assert_eq!(upper.modifier, LEFT_SHIFT);
        assert_eq!(lower.modifier, 0);
    }
}

#[test]
fn other_bytes_press_no_key() {
    assert_eq!(map_key(&b' '), press(0, 0));
    assert_eq!(map_key(&b'_'), press(0, 0));
    assert_eq!(map_key(&0xff), press(0, 0));
}

#[test]
fn without_shift_ignores_uppercase() {
    assert_eq!(map_key_without_shift(&b'a'), press(0, 0x04));
    assert_eq!(map_key_without_shift(&b'A'), press(0, 0));
    assert_eq!(map_key_without_shift(&b'0'), press(0, 0x27));
}

#[test]
fn distinct_keys_for_distinct_characters() {
    let chars: Vec<u8> = (b'a'..=b'z').chain(b'0'..=b'9').collect();
    let mut codes: Vec<u8> = chars.iter().map(|c| map_key(c).keycodes[0]).collect();
    assert!(codes.iter().all(|c| *c != 0));
    codes.sort();
    codes.dedup();
    assert_eq!(codes.len(), 36);
}

#[test]
fn typing_presses_then_releases_each_key() {
    let reports = typing_reports(b"aB1");
    assert_eq!(
        reports,
        vec![
            press(0, 0x04),
            release_report(),
            press(LEFT_SHIFT, 0x05),
            release_report(),
            press(0, 0x1E),
            release_report(),
        ]
    );
    assert!(typing_reports(b"").is_empty());
    assert_eq!(release_report(), press(0, 0));
}

#[test]
fn request_handler_answers() {
    let handler = KeyboardRequestHandler;
    let mut buf = [7u8; 4];
    assert_eq!(handler.get_report(ReportId::In(0), &mut buf), None);
    assert_eq!(buf, [7u8; 4]);
    assert_eq!(handler.set_report(ReportId::Out(1), &[1, 2]), OutResponse::Accepted);
    handler.set_idle_ms(None, 10);
    assert_eq!(handler.get_idle_ms(Some(ReportId::Feature(2))), None);
}
