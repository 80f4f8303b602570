use admin_key::handshake::{
    answer_packet, echo_step, is_key_reply, reply_text, Disconnected, EchoAction, EchoEvent,
    EndpointError, GREETING, GREETING_REPLY,
};
use admin_key::probe::{greeting_message, PortProbe, ProbeAction, ProbeEvent};
use admin_key::text::{decode_utf8_lossy, replace_char, trim};

#[test]
fn key_answers_the_greeting() {
    let reply = answer_packet(GREETING.as_bytes()).unwrap();
    assert_eq!(reply, b"Fuck YOU".to_vec());
    assert_eq!(reply_text(&reply), GREETING_REPLY);
    assert!(is_key_reply(&reply_text(&reply)));
}

#[test]
fn key_ignores_other_packets() {
    assert_eq!(answer_packet(b"Whaaa"), None);
    assert_eq!(answer_packet(b"Whaaat!"), None);
    assert_eq!(answer_packet(b"whaaat"), None);
    assert_eq!(answer_packet(b""), None);
}

#[test]
fn greeting_message_is_the_greeting() {
    assert_eq!(greeting_message(), b"Whaaat".to_vec());
}

#[test]
fn reply_text_trims_and_decodes_lossily() {
    assert_eq!(reply_text(b"  Fuck YOU\r\n"), "Fuck YOU");
    assert_eq!(reply_text(b"\xffok"), "\u{FFFD}ok");
    assert_eq!(reply_text(b" \t "), "");
    // never more characters than bytes read
    assert_eq!(reply_text(&[0xff, 0xff]).chars().count(), 2);
    assert!(reply_text(&[0xff; 64]).chars().count() <= 64);
    assert!(!is_key_reply(&reply_text(b"Fuck you")));
}

#[test]
fn lossy_decoding_replaces_invalid_bytes() {
    assert_eq!(decode_utf8_lossy(b"a\xc3\xa4b"), "aäb");
    assert_eq!(decode_utf8_lossy(b"a\x80b"), "a\u{FFFD}b");
}

#[test]
fn trim_removes_unicode_white_space() {
    assert_eq!(trim("\u{3000} x y \u{85}"), "x y");
    assert_eq!(trim("none"), "none");
    assert_eq!(trim(""), "");
    assert_eq!(trim("\u{200b}x"), "\u{200b}x");
}

#[test]
fn replace_char_replaces_every_occurrence() {
    assert_eq!(replace_char("banana", 'a', 'o'), "bonono");
    assert_eq!(replace_char("", 'a', 'o'), "");
}

#[test]
fn echo_loop_answers_and_stops() {
    match echo_step(EchoEvent::Packet(b"Whaaat".to_vec())) {
        EchoAction::Send(reply) => assert_eq!(reply, b"Fuck YOU".to_vec()),
        _ => panic!("expected an answer"),
    }
    assert!(matches!(echo_step(EchoEvent::Packet(b"hello".to_vec())), EchoAction::Listen));
    assert!(matches!(echo_step(EchoEvent::Sent), EchoAction::Listen));
    assert!(matches!(
        echo_step(EchoEvent::Failed(EndpointError::Disabled)),
        EchoAction::Stop(Disconnected)
    ));
}

#[test]
fn probe_selects_the_port_that_answers() {
    let (mut probe, action) = PortProbe::start(Some(3));
    assert_eq!(action, ProbeAction::Open(0));
    // port 0 does not open
    assert_eq!(probe.step(ProbeEvent::Failed), ProbeAction::Open(1));
    // port 1 opens, takes the greeting, answers something else
    assert_eq!(probe.step(ProbeEvent::Succeeded), ProbeAction::Greet(1));
    assert_eq!(probe.step(ProbeEvent::Succeeded), ProbeAction::Read(1));
    assert_eq!(probe.step(ProbeEvent::Received(b"OK".to_vec())), ProbeAction::Open(2));
    // port 2 is the key
    assert_eq!(probe.step(ProbeEvent::Succeeded), ProbeAction::Greet(2));
    assert_eq!(probe.step(ProbeEvent::Succeeded), ProbeAction::Read(2));
    assert_eq!(probe.step(ProbeEvent::Received(b"Fuck YOU\n".to_vec())), ProbeAction::Select(2));
    assert!(probe.is_finished());
}

#[test]
fn probe_gives_up() {
    let (probe, action) = PortProbe::start(None);
    assert_eq!(action, ProbeAction::GiveUp);
    assert!(probe.is_finished());
    let (_, action) = PortProbe::start(Some(0));
    assert_eq!(action, ProbeAction::GiveUp);
    let (mut probe, _) = PortProbe::start(Some(1));
    assert_eq!(probe.step(ProbeEvent::Succeeded), ProbeAction::Greet(0));
    assert_eq!(probe.step(ProbeEvent::Failed), ProbeAction::GiveUp);
    assert!(probe.is_finished());
}

#[test]
fn probe_ends_within_three_steps_per_port() {
    let ports = 4;
    let (mut probe, _) = PortProbe::start(Some(ports));
    let mut steps = 0;
    while !probe.is_finished() {
        probe.step(ProbeEvent::Succeeded);
        probe.step(ProbeEvent::Succeeded);
        probe.step(ProbeEvent::Received(b"nope".to_vec()));
        steps += 3;
    }
    assert_eq!(steps, 3 * ports);
}
