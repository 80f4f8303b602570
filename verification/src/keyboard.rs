use vstd::prelude::*;

verus! {

/// A USB HID boot keyboard input report: modifier bits, a reserved byte,
/// LED bits and up to six pressed keys.
#[derive(PartialEq, Eq, Clone, Copy, Debug)]
pub struct KeyboardReport {
    pub modifier: u8,
    pub reserved: u8,
    pub leds: u8,
    pub keycodes: [u8; 6],
}

/// The modifier bit for the left shift key.
pub const LEFT_SHIFT: u8 = 0x02;

/// The HID usage of the key that types the lowercase letter or digit `b`,
/// or 0 (no key) for any other byte.
pub open spec fn key_code(b: u8) -> u8 {
    if 0x61 <= b <= 0x7a {
        (0x04 + (b - 0x61)) as u8
    } else if 0x31 <= b <= 0x39 {
        (0x1e + (b - 0x31)) as u8
    } else if b == 0x30 {
        0x27
    } else {
        0
    }
}

pub open spec fn is_ascii_upper(b: u8) -> bool {
    0x41 <= b <= 0x5a
}

/// `b` with an uppercase ASCII letter turned into lowercase.
pub open spec fn ascii_lower(b: u8) -> u8 {
    if is_ascii_upper(b) {
        (b + 0x20) as u8
    } else {
        b
    }
}

/// A report that presses the single key `code` with the given modifiers.
pub open spec fn press(modifier: u8, code: u8) -> KeyboardReport {
    KeyboardReport { modifier, reserved: 0, leds: 0, keycodes: [code, 0, 0, 0, 0, 0] }
}

/// The report that releases every key.
pub open spec fn release() -> KeyboardReport {
    press(0, 0)
}

/// The report that types `b`: uppercase letters are typed with shift held.
pub open spec fn key_report(b: u8) -> KeyboardReport {
    press(if is_ascii_upper(b) { LEFT_SHIFT } else { 0 }, key_code(ascii_lower(b)))
}

/// The key code of a lowercase letter or digit, as a lookup table.
pub fn lookup_key_code(key: u8) -> (code: u8)
    ensures
        code == key_code(key),
{
    match key {
        0x61 => 0x04,  // a
        0x62 => 0x05,  // b
        0x63 => 0x06,  // c
        0x64 => 0x07,  // d
        0x65 => 0x08,  // e
        0x66 => 0x09,  // f
        0x67 => 0x0A,  // g
        0x68 => 0x0B,  // h
        0x69 => 0x0C,  // i
        0x6a => 0x0D,  // j
        0x6b => 0x0E,  // k
        0x6c => 0x0F,  // l
        0x6d => 0x10,  // m
        0x6e => 0x11,  // n
        0x6f => 0x12,  // o
        0x70 => 0x13,  // p
        0x71 => 0x14,  // q
        0x72 => 0x15,  // r
        0x73 => 0x16,  // s
        0x74 => 0x17,  // t
        0x75 => 0x18,  // u
        0x76 => 0x19,  // v
        0x77 => 0x1A,  // w
        0x78 => 0x1B,  // x
        0x79 => 0x1C,  // y
        0x7a => 0x1D,  // z
        0x31 => 0x1E,  // 1
        0x32 => 0x1F,  // 2
        0x33 => 0x20,  // 3
        0x34 => 0x21,  // 4
        0x35 => 0x22,  // 5
        0x36 => 0x23,  // 6
        0x37 => 0x24,  // 7
        0x38 => 0x25,  // 8
        0x39 => 0x26,  // 9
        0x30 => 0x27,  // 0
        _ => 0,
    }
}

/// The report that types `key` on a US layout: letters and digits map to
/// their keys, uppercase letters with shift held, anything else to no key.
pub fn map_key(key: &u8) -> (r: KeyboardReport)
    ensures
        r == key_report(*key),
{
    let upper = 0x41 <= *key && *key <= 0x5a;
    let modifier: u8 = match upper {
        true => LEFT_SHIFT,
        false => 0,
    };
    let lower: u8 = if upper {
        *key + 0x20
    } else {
        *key
    };
    let key: u8 = lookup_key_code(lower);
    KeyboardReport { modifier, reserved: 0, leds: 0, keycodes: [key, 0, 0, 0, 0, 0] }
}

/// The report that types `key` with no modifier: only lowercase letters
/// and digits map to keys.
pub fn map_key_without_shift(key: &u8) -> (r: KeyboardReport)
    ensures
        r == press(0, key_code(*key)),
{
    let key: u8 = lookup_key_code(*key);
    KeyboardReport { modifier: 0, reserved: 0, leds: 0, keycodes: [key, 0, 0, 0, 0, 0] }
}

/// The report that releases every key.
pub fn release_report() -> (r: KeyboardReport)
    ensures
        r == release(),
{
    KeyboardReport { modifier: 0, reserved: 0, leds: 0, keycodes: [0, 0, 0, 0, 0, 0] }
}

/// The reports that type `message`: for each byte, the report pressing its
/// key, then the report releasing every key.
pub fn typing_reports(message: &[u8]) -> (r: Vec<KeyboardReport>)
    requires
        2 * message@.len() <= usize::MAX,
    ensures
        r@.len() == 2 * message@.len(),
        forall|i: int|
            0 <= i < message@.len() ==> #[trigger] r@[2 * i] == key_report(message@[i]) && r@[2
                * i + 1] == release(),
{
    let mut r: Vec<KeyboardReport> = Vec::new();
    let mut i: usize = 0;
    while i < message.len()
        invariant
            i <= message@.len(),
            2 * message@.len() <= usize::MAX,
            r@.len() == 2 * i,
            forall|j: int|
                0 <= j < i ==> #[trigger] r@[2 * j] == key_report(message@[j]) && r@[2 * j + 1]
                    == release(),
        decreases message@.len() - i,
    {
        let press = map_key(&message[i]);
        r.push(press);
        r.push(release_report());
        i = i + 1;
    }
    r
}

/// Shift is the only difference between typing an uppercase letter and its
/// lowercase form; every letter and digit reaches a key, and distinct
/// lowercase letters and digits reach distinct keys.
pub proof fn lemma_key_reports(b: u8, c: u8)
    ensures
        is_ascii_upper(b) ==> key_report(b) == press(LEFT_SHIFT, key_report((b + 0x20) as u8).keycodes[0])
            && key_report((b + 0x20) as u8).modifier == 0,
        (0x61 <= b <= 0x7a || 0x30 <= b <= 0x39 || is_ascii_upper(b)) ==> key_report(b).keycodes[0]
            != 0,
        (0x61 <= b <= 0x7a || 0x30 <= b <= 0x39) && (0x61 <= c <= 0x7a || 0x30 <= c <= 0x39) && b
            != c ==> key_code(b) != key_code(c),
{
}

/// An id of a HID report.
#[derive(PartialEq, Eq, Clone, Copy, Debug)]
pub enum ReportId {
    In(u8),
    Out(u8),
    Feature(u8),
}

/// The answer to a report the host sends.
#[derive(PartialEq, Eq, Clone, Copy, Debug)]
pub enum OutResponse {
    Accepted,
    Rejected,
}

/// Answers the HID class requests of the host for the keyboard: no report
/// to hand out, every report sent accepted, no idle rate.
pub struct KeyboardRequestHandler;

impl KeyboardRequestHandler {
    pub fn get_report(&self, id: ReportId, buf: &mut [u8]) -> (r: Option<usize>)
        ensures
            r is None,
            final(buf)@ == old(buf)@,
    {
        None
    }

    pub fn set_report(&self, id: ReportId, data: &[u8]) -> (r: OutResponse)
        ensures
            r == OutResponse::Accepted,
    {
        OutResponse::Accepted
    }

    pub fn set_idle_ms(&self, id: Option<ReportId>, dur: u32) {
    }

    pub fn get_idle_ms(&self, id: Option<ReportId>) -> (r: Option<u32>)
        ensures
            r is None,
    {
        None
    }
}

/// The key codes are the HID keyboard usages: `a` to `z` are 0x04 to 0x1D
/// in alphabetical order, `1` to `9` are 0x1E to 0x26, `0` is 0x27, and the
/// report for a lowercase letter or digit presses just that key.
pub proof fn lemma_key_codes_are_hid_usages(b: u8)
    ensures
        0x61 <= b <= 0x7a ==> key_code(b) == 0x04 + (b - 0x61),
        0x31 <= b <= 0x39 ==> key_code(b) == 0x1e + (b - 0x31),
        b == 0x30 ==> key_code(b) == 0x27,
        0x61 <= b < 0x7a ==> key_code((b + 1) as u8) == key_code(b) + 1,
        key_code(0x61) == 0x04 && key_code(0x6d) == 0x10 && key_code(0x6e) == 0x11 && key_code(0x7a) == 0x1d,
        (0x61 <= b <= 0x7a || 0x30 <= b <= 0x39) ==> key_report(b) == (KeyboardReport {
            modifier: 0,
            reserved: 0,
            leds: 0,
            keycodes: [key_code(b), 0, 0, 0, 0, 0],
        }),
{
}

} // verus!
