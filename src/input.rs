use vstd::prelude::*;

verus! {

/// A key the front-end read from the host terminal.
#[derive(Clone, Copy, Debug, PartialEq, Eq, Structural)]
pub enum Key {
    Char(char),
    Enter,
    Tab,
    Backspace,
    Esc,
    Up,
    Down,
    Right,
    Left,
    Other,
}

/// The UTF-8 encoding of `c`.
pub open spec fn utf8_bytes(c: char) -> Seq<u8> {
    let cp = c as u32;
    if cp < 0x80 {
        seq![cp as u8]
    } else if cp < 0x800 {
        seq![(0xC0 | (cp >> 6u32)) as u8, (0x80 | (cp & 0x3F)) as u8]
    } else if cp < 0x10000 {
        seq![(0xE0 | (cp >> 12u32)) as u8, (0x80 | ((cp >> 6u32) & 0x3F)) as u8, (0x80 | (cp & 0x3F)) as u8]
    } else {
        seq![
            (0xF0 | (cp >> 18u32)) as u8,
            (0x80 | ((cp >> 12u32) & 0x3F)) as u8,
            (0x80 | ((cp >> 6u32) & 0x3F)) as u8,
            (0x80 | (cp & 0x3F)) as u8,
        ]
    }
}

pub open spec fn is_ascii_letter(c: char) -> bool {
    ('a' as u32 <= c as u32 && c as u32 <= 'z' as u32) || ('A' as u32 <= c as u32 && c as u32 <= 'Z' as u32)
}

/// The bytes sent to the PTY for a key: a character as its UTF-8 bytes,
/// with Control a letter as its control code (Ctrl+C is 0x03); Enter as CR,
/// Tab as HT, Backspace as DEL, Esc as ESC, the arrows as `ESC [ A/B/C/D`.
/// Other keys, and Control with anything but a letter, send nothing.
pub open spec fn key_bytes(key: Key, control: bool) -> Option<Seq<u8>> {
    match key {
        Key::Char(c) => if !control {
            Some(utf8_bytes(c))
        } else if is_ascii_letter(c) {
            Some(seq![((c as u32) & 0x1F) as u8])
        } else {
            None
        },
        Key::Enter => Some(seq![0x0Du8]),
        Key::Tab => Some(seq![0x09u8]),
        Key::Backspace => Some(seq![0x7Fu8]),
        Key::Esc => Some(seq![0x1Bu8]),
        Key::Up => Some(seq![0x1Bu8, 0x5Bu8, 0x41u8]),
        Key::Down => Some(seq![0x1Bu8, 0x5Bu8, 0x42u8]),
        Key::Right => Some(seq![0x1Bu8, 0x5Bu8, 0x43u8]),
        Key::Left => Some(seq![0x1Bu8, 0x5Bu8, 0x44u8]),
        Key::Other => None,
    }
}

fn bytes_of(s: &[u8]) -> (r: Vec<u8>)
    ensures
        r@ == s@,
{
    let mut v: Vec<u8> = Vec::new();
    let mut i: usize = 0;
    while i < s.len()
        invariant
            i <= s@.len(),
            v@ == s@.subrange(0, i as int),
        decreases s@.len() - i,
    {
        v.push(s[i]);
        i = i + 1;
        assert(v@ =~= s@.subrange(0, i as int));
    }
    assert(s@.subrange(0, s@.len() as int) =~= s@);
    v
}

/// The UTF-8 encoding of `c`.
pub fn encode_char(c: char) -> (r: Vec<u8>)
    ensures
        r@ == utf8_bytes(c),
{
    let cp = c as u32;
    let mut v: Vec<u8> = Vec::new();
    if cp < 0x80 {
        v.push(cp as u8);
    } else if cp < 0x800 {
        v.push((0xC0 | (cp >> 6u32)) as u8);
        v.push((0x80 | (cp & 0x3F)) as u8);
    } else if cp < 0x10000 {
        v.push((0xE0 | (cp >> 12u32)) as u8);
        v.push((0x80 | ((cp >> 6u32) & 0x3F)) as u8);
        v.push((0x80 | (cp & 0x3F)) as u8);
    } else {
        v.push((0xF0 | (cp >> 18u32)) as u8);
        v.push((0x80 | ((cp >> 12u32) & 0x3F)) as u8);
        v.push((0x80 | ((cp >> 6u32) & 0x3F)) as u8);
        v.push((0x80 | (cp & 0x3F)) as u8);
    }
    assert(v@ =~= utf8_bytes(c));
    v
}

/// The bytes to send to the PTY for a key, if any.
pub fn encode_key(key: Key, control: bool) -> (r: Option<Vec<u8>>)
    ensures
        r.is_some() == key_bytes(key, control).is_some(),
        r.is_some() ==> r.unwrap()@ == key_bytes(key, control).unwrap(),
{
    match key {
        Key::Char(c) => {
            if !control {
                Some(encode_char(c))
            } else if ('a' <= c && c <= 'z') || ('A' <= c && c <= 'Z') {
                let mut v: Vec<u8> = Vec::new();
                v.push(((c as u32) & 0x1F) as u8);
                assert(v@ =~= seq![((c as u32) & 0x1F) as u8]);
                Some(v)
            } else {
                None
            }
        },
        Key::Enter => Some(bytes_of(&[0x0D])),
        Key::Tab => Some(bytes_of(&[0x09])),
        Key::Backspace => Some(bytes_of(&[0x7F])),
        Key::Esc => Some(bytes_of(&[0x1B])),
        Key::Up => Some(bytes_of(&[0x1B, 0x5B, 0x41])),
        Key::Down => Some(bytes_of(&[0x1B, 0x5B, 0x42])),
        Key::Right => Some(bytes_of(&[0x1B, 0x5B, 0x43])),
        Key::Left => Some(bytes_of(&[0x1B, 0x5B, 0x44])),
        Key::Other => None,
    }
}

} // verus!
