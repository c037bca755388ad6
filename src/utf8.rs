use vstd::prelude::*;

verus! {

/// A Unicode scalar value: not a surrogate, at most U+10FFFF.
pub open spec fn valid_scalar(cp: u32) -> bool {
    cp < 0xD800 || (0xE000 <= cp && cp <= 0x10FFFF)
}

/// The character with code point `cp`.
pub open spec fn char_of(cp: u32) -> char {
    choose|c: char| #[trigger] (c as u32) == cp
}

/// The character with code point `cp`, or U+FFFD when `cp` is no scalar value.
pub open spec fn scalar_or_replacement(cp: u32) -> char {
    if valid_scalar(cp) {
        char_of(cp)
    } else {
        '\u{FFFD}'
    }
}

pub proof fn lemma_char_of(c: char)
    ensures
        char_of(c as u32) == c,
{
    let d = char_of(c as u32);
    assert(d as u32 == c as u32);
}

/// Relies on std's `char::from_u32`: `Some` exactly for scalar values, with
/// the character of that code point.
#[verifier::external_body]
fn char_from_u32(cp: u32) -> (r: Option<char>)
    ensures
        r.is_some() <==> valid_scalar(cp),
        r.is_some() ==> r.unwrap() as u32 == cp,
{
    char::from_u32(cp)
}

/// The character of `cp`, or U+FFFD.
pub fn scalar_or_replacement_exec(cp: u32) -> (r: char)
    ensures
        r == scalar_or_replacement(cp),
{
    match char_from_u32(cp) {
        Some(c) => {
            proof {
                lemma_char_of(c);
            }
            c
        },
        None => '\u{FFFD}',
    }
}

/// UTF-8 decoder state: the bits read so far, the number of continuation
/// bytes still expected, and the range the next one must lie in.
#[derive(Clone, Copy, Debug, PartialEq, Eq, Structural)]
pub struct Utf8Decoder {
    pub cp: u32,
    pub left: u8,
    pub lo: u8,
    pub hi: u8,
}

pub open spec fn idle() -> Utf8Decoder {
    Utf8Decoder { cp: 0, left: 0, lo: 0x80, hi: 0xBF }
}

/// A byte of 0x80 or more with no sequence under way: a lead byte starts
/// one, anything else is a replacement character.
pub open spec fn utf8_lead(b: u8) -> (Utf8Decoder, Option<char>) {
    if 0xC2 <= b && b <= 0xDF {
        (Utf8Decoder { cp: (b & 0x1F) as u32, left: 1, lo: 0x80, hi: 0xBF }, None)
    } else if b == 0xE0 {
        (Utf8Decoder { cp: (b & 0x0F) as u32, left: 2, lo: 0xA0, hi: 0xBF }, None)
    } else if b == 0xED {
        (Utf8Decoder { cp: (b & 0x0F) as u32, left: 2, lo: 0x80, hi: 0x9F }, None)
    } else if 0xE1 <= b && b <= 0xEF {
        (Utf8Decoder { cp: (b & 0x0F) as u32, left: 2, lo: 0x80, hi: 0xBF }, None)
    } else if b == 0xF0 {
        (Utf8Decoder { cp: (b & 0x07) as u32, left: 3, lo: 0x90, hi: 0xBF }, None)
    } else if b == 0xF4 {
        (Utf8Decoder { cp: (b & 0x07) as u32, left: 3, lo: 0x80, hi: 0x8F }, None)
    } else if 0xF1 <= b && b <= 0xF3 {
        (Utf8Decoder { cp: (b & 0x07) as u32, left: 3, lo: 0x80, hi: 0xBF }, None)
    } else {
        (idle(), Some('\u{FFFD}'))
    }
}

/// A continuation byte inside the expected range.
pub open spec fn utf8_cont(u: Utf8Decoder, b: u8) -> (Utf8Decoder, Option<char>) {
    let cp = (u.cp << 6u32) | ((b & 0x3F) as u32);
    if u.left <= 1 {
        (idle(), Some(scalar_or_replacement(cp)))
    } else {
        (Utf8Decoder { cp, left: (u.left - 1) as u8, lo: 0x80, hi: 0xBF }, None)
    }
}

/// A byte fed to a decoder with no sequence under way.
pub open spec fn dec_fresh(b: u8) -> (Utf8Decoder, Seq<char>) {
    if b < 0x80 {
        (idle(), seq![char_of(b as u32)])
    } else {
        let r = utf8_lead(b);
        (r.0, opt_chars(r.1))
    }
}

pub open spec fn opt_chars(o: Option<char>) -> Seq<char> {
    match o {
        Some(c) => seq![c],
        None => Seq::empty(),
    }
}

/// One byte of a UTF-8 decode. A byte that breaks a sequence gives a
/// replacement character and is then read afresh.
pub open spec fn dec_step(u: Utf8Decoder, b: u8) -> (Utf8Decoder, Seq<char>) {
    if u.left > 0 {
        if u.lo <= b && b <= u.hi {
            let r = utf8_cont(u, b);
            (r.0, opt_chars(r.1))
        } else {
            (dec_fresh(b).0, seq!['\u{FFFD}'] + dec_fresh(b).1)
        }
    } else {
        dec_fresh(b)
    }
}

pub open spec fn dec_run(bs: Seq<u8>) -> (Utf8Decoder, Seq<char>)
    decreases bs.len(),
{
    if bs.len() == 0 {
        (idle(), Seq::empty())
    } else {
        let r = dec_run(bs.drop_last());
        let s = dec_step(r.0, bs.last());
        (s.0, r.1 + s.1)
    }
}

/// `bs` decoded as UTF-8, each invalid or unfinished sequence replaced by
/// U+FFFD.
pub open spec fn decode_utf8(bs: Seq<u8>) -> Seq<char> {
    let r = dec_run(bs);
    if r.0.left > 0 {
        r.1.push('\u{FFFD}')
    } else {
        r.1
    }
}

impl Utf8Decoder {
    pub fn new() -> (r: Utf8Decoder)
        ensures
            r == idle(),
    {
        Utf8Decoder { cp: 0, left: 0, lo: 0x80, hi: 0xBF }
    }

    /// Starts a sequence at a byte of 0x80 or more.
    pub fn lead(&mut self, b: u8) -> (r: Option<char>)
        ensures
            (*final(self), r) == utf8_lead(b),
    {
        if 0xC2 <= b && b <= 0xDF {
            *self = Utf8Decoder { cp: (b & 0x1F) as u32, left: 1, lo: 0x80, hi: 0xBF };
            None
        } else if b == 0xE0 {
            *self = Utf8Decoder { cp: (b & 0x0F) as u32, left: 2, lo: 0xA0, hi: 0xBF };
            None
        } else if b == 0xED {
            *self = Utf8Decoder { cp: (b & 0x0F) as u32, left: 2, lo: 0x80, hi: 0x9F };
            None
        } else if 0xE1 <= b && b <= 0xEF {
            *self = Utf8Decoder { cp: (b & 0x0F) as u32, left: 2, lo: 0x80, hi: 0xBF };
            None
        } else if b == 0xF0 {
            *self = Utf8Decoder { cp: (b & 0x07) as u32, left: 3, lo: 0x90, hi: 0xBF };
            None
        } else if b == 0xF4 {
            *self = Utf8Decoder { cp: (b & 0x07) as u32, left: 3, lo: 0x80, hi: 0x8F };
            None
        } else if 0xF1 <= b && b <= 0xF3 {
            *self = Utf8Decoder { cp: (b & 0x07) as u32, left: 3, lo: 0x80, hi: 0xBF };
            None
        } else {
            *self = Utf8Decoder::new();
            Some('\u{FFFD}')
        }
    }

    /// Takes a continuation byte inside the expected range.
    pub fn cont(&mut self, b: u8) -> (r: Option<char>)
        ensures
            (*final(self), r) == utf8_cont(*old(self), b),
    {
        let cp = (self.cp << 6u32) | ((b & 0x3F) as u32);
        if self.left <= 1 {
            *self = Utf8Decoder::new();
            Some(scalar_or_replacement_exec(cp))
        } else {
            *self = Utf8Decoder { cp, left: self.left - 1, lo: 0x80, hi: 0xBF };
            None
        }
    }

    /// One byte of a decode, with the characters it completes pushed to `out`.
    pub fn step(&mut self, b: u8, out: &mut Vec<char>)
        ensures
            *final(self) == dec_step(*old(self), b).0,
            final(out)@ == old(out)@ + dec_step(*old(self), b).1,
    {
        let ghost u = *self;
        let ghost o = out@;
        if self.left > 0 && !(self.lo <= b && b <= self.hi) {
            out.push('\u{FFFD}');
            *self = Utf8Decoder::new();
        }
        let ghost o1 = out@;
        if self.left > 0 {
            let r = self.cont(b);
            if let Some(c) = r {
                out.push(c);
            }
            assert(out@ =~= o + opt_chars(r));
        } else if b < 0x80 {
            *self = Utf8Decoder::new();
            let c = scalar_or_replacement_exec(b as u32);
            out.push(c);
            assert(valid_scalar(b as u32));
            assert(out@ =~= o1 + seq![char_of(b as u32)]);
        } else {
            let r = self.lead(b);
            if let Some(c) = r {
                out.push(c);
            }
            assert(out@ =~= o1 + opt_chars(r));
        }
        assert(out@ =~= o + dec_step(u, b).1);
    }
}

/// Decodes `bs` as UTF-8, replacing each invalid or unfinished sequence
/// with U+FFFD.
pub fn decode_utf8_exec(bs: &[u8]) -> (r: Vec<char>)
    ensures
        r@ == decode_utf8(bs@),
{
    let mut u = Utf8Decoder::new();
    let mut out: Vec<char> = Vec::new();
    let n = bs.len();
    let mut i: usize = 0;
    while i < n
        invariant
            n == bs@.len(),
            i <= n,
            (u, out@) == dec_run(bs@.subrange(0, i as int)),
        decreases n - i,
    {
        assert(bs@.subrange(0, i + 1).drop_last() =~= bs@.subrange(0, i as int));
        u.step(bs[i], &mut out);
        i = i + 1;
    }
    assert(bs@.subrange(0, n as int) =~= bs@);
    if u.left > 0 {
        out.push('\u{FFFD}');
    }
    out
}

/// Relies on std's `FromIterator<char>` for `String`: the string holds the
/// characters in order.
#[verifier::external_body]
pub fn string_from_chars(v: &Vec<char>) -> (r: String)
    ensures
        r@ == v@,
{
    v.iter().collect()
}

} // verus!
