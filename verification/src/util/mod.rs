//! General utility code, used throughout the crate.

pub mod bytes;
pub mod path;
pub mod rgba;
pub mod text;

use vstd::prelude::*;
use vstd::utf8::*;
use crate::util::rgba::{rgba_pixel, make_rgba_pixel};

verus! {

/// Like `image::Rgba<u8>`, but as the PS2 stores it: alpha is halved on the PS2 (0x80 is
/// opaque). Some helpers are also provided to work with 16-bit colors.
#[derive(Clone, Debug)]
pub struct Ps2Rgba {
    pub r: u8,
    pub g: u8,
    pub b: u8,
    pub a: u8,
}

/// The 8-bit alpha matching a PS2 alpha: doubled, and clamped to 255.
pub open spec fn ps2_alpha_to_alpha(a: u8) -> u8 {
    if a * 2 > 255 {
        255
    } else {
        (a * 2) as u8
    }
}

impl Ps2Rgba {
    /// The color stored in the 4 bytes of `b` at `off` (red, green, blue, alpha).
    pub open spec fn spec_from_bytes(b: Seq<u8>, off: int) -> Ps2Rgba {
        Ps2Rgba { r: b[off], g: b[off + 1], b: b[off + 2], a: b[off + 3] }
    }

    /// The channels of the 8-bit RGBA color this PS2 color stands for.
    pub open spec fn spec_rgba_channels(&self) -> Seq<u8> {
        seq![self.r, self.g, self.b, ps2_alpha_to_alpha(self.a)]
    }

    /// The color for an RGB565 16bpp pixel: red in bits 11..16 (5 bits), green in bits
    /// 5..11 (6 bits), blue in bits 0..5 (5 bits), each shifted up to the top of its 8-bit
    /// channel; fully opaque.
    pub open spec fn spec_from_rgb565(value: u16) -> Ps2Rgba {
        Ps2Rgba {
            r: (((value as nat / 2048) % 32) * 8) as u8,
            g: (((value as nat / 32) % 64) * 4) as u8,
            b: (((value as nat) % 32) * 8) as u8,
            a: 255,
        }
    }

    /// The channels of the 8-bit RGBA color (alpha doubled, clamped to 255).
    pub fn to_rgba_channels(&self) -> (r: [u8; 4])
        ensures
            r@ == self.spec_rgba_channels(),
    {
        // avoid multiplication overflow
        let a = if self.a as u32 * 2 > 255 {
            255u8
        } else {
            self.a * 2
        };
        let r = [self.r, self.g, self.b, a];
        assert(r@ =~= self.spec_rgba_channels());
        r
    }

    /// The `image` crate pixel for this color (alpha doubled, clamped to 255).
    pub fn to_rgba(&self) -> (r: image::Rgba<u8>)
        ensures
            r == rgba_pixel(self.spec_rgba_channels()),
    {
        make_rgba_pixel(self.to_rgba_channels())
    }

    /// Create a instance from an rgb565 16bpp pixel (red in the top 5 bits, green in the
    /// middle 6, blue in the low 5).
    pub fn from_rgb565(value: u16) -> (r: Ps2Rgba)
        ensures
            r == Self::spec_from_rgb565(value),
    {
        assert(((value & 0xF800) >> 8) < 256 && ((value & 0xF800) >> 8) == ((value / 2048) % 32)
            * 8) by (bit_vector);
        assert(((value & 0x07E0) >> 3) < 256 && ((value & 0x07E0) >> 3) == ((value / 32) % 64) * 4)
            by (bit_vector);
        assert(((value & 0x001F) << 3) < 256 && ((value & 0x001F) << 3) == (value % 32) * 8)
            by (bit_vector);
        Ps2Rgba {
            r: ((value & 0xF800) >> 8) as u8,
            g: ((value & 0x07E0) >> 3) as u8,
            b: ((value & 0x001F) << 3) as u8,
            a: 255,
        }
    }
}

/// Number of bytes before the first NUL byte of `b` (all of `b` if it holds none).
pub open spec fn c_string_len(b: Seq<u8>) -> nat
    decreases b.len(),
{
    if b.len() == 0 {
        0
    } else if b[0] == 0 {
        0
    } else {
        1 + c_string_len(b.drop_first())
    }
}

/// The bytes of the C string stored in `b`: those before the first NUL byte.
pub open spec fn c_string_bytes(b: Seq<u8>) -> Seq<u8> {
    b.take(c_string_len(b) as int)
}

/// What [make_c_string] gives for `b`.
pub open spec fn spec_make_c_string(b: Seq<u8>) -> Option<Seq<char>> {
    if valid_utf8(c_string_bytes(b)) {
        Some(decode_utf8(c_string_bytes(b)))
    } else {
        None
    }
}

/// `c_string_len(b)` is the index of the first NUL byte of `b`, or its length.
pub proof fn lemma_c_string_len(b: Seq<u8>)
    ensures
        c_string_len(b) <= b.len(),
        forall|j: int| 0 <= j < c_string_len(b) ==> b[j] != 0,
        c_string_len(b) < b.len() ==> b[c_string_len(b) as int] == 0,
    decreases b.len(),
{
    if b.len() > 0 && b[0] != 0 {
        lemma_c_string_len(b.drop_first());
        assert forall|j: int| 0 <= j < c_string_len(b) implies b[j] != 0 by {
            if j > 0 {
                assert(b[j] == b.drop_first()[j - 1]);
            }
        }
    }
}

/// Converts `bytes` to a string if they are valid UTF-8.
///
/// Trusted: calls `std::str::from_utf8`, which succeeds exactly when `bytes` is valid UTF-8;
/// the string it gives then decodes `bytes`.
#[verifier::external_body]
fn utf8_to_string(bytes: &[u8]) -> (r: Option<String>)
    ensures
        r is Some <==> valid_utf8(bytes@),
        r matches Some(s) ==> s@ == decode_utf8(bytes@),
{
    match std::str::from_utf8(bytes) {
        Ok(s) => Some(String::from(s)),
        Err(_) => None,
    }
}

/// Make a Rust [String] from a byte slice that came from a C string/structure: the bytes
/// before the first NUL byte (all of them if there is none), if they are valid UTF-8.
///
/// # Usage
///
/// The byte slice has to be a valid UTF-8 string. (Note that in most cases, ASCII strings
/// are valid UTF-8, so this isn't something you'll particularly have to worry about).
pub fn make_c_string(bytes: &[u8]) -> (r: Option<String>)
    ensures
        r is Some <==> spec_make_c_string(bytes@) is Some,
        r matches Some(s) ==> spec_make_c_string(bytes@) == Some(s@),
{
    let mut i: usize = 0;
    while i < bytes.len() && bytes[i] != 0
        invariant
            i <= bytes@.len(),
            forall|j: int| 0 <= j < i ==> bytes@[j] != 0,
        decreases bytes@.len() - i,
    {
        i = i + 1;
    }
    proof {
        lemma_c_string_len(bytes@);
        let k = c_string_len(bytes@);
        if k < i {
            assert(bytes@[k as int] == 0);
        }
        if i < k {
            assert(bytes@[i as int] != 0);
        }
        assert(i == k);
    }
    let without_nul = vstd::slice::slice_subrange(bytes, 0, i);
    utf8_to_string(without_nul)
}


/// The characters that the ASCII bytes `b` stand for.
pub open spec fn ascii_chars(b: Seq<u8>) -> Seq<char> {
    Seq::new(b.len(), |i: int| b[i] as char)
}

/// A C string of ASCII bytes always converts: to the characters its bytes stand for.
pub proof fn lemma_make_c_string_ascii(b: Seq<u8>)
    requires
        forall|i: int| 0 <= i < c_string_bytes(b).len() ==> #[trigger] c_string_bytes(b)[i] < 0x80,
    ensures
        spec_make_c_string(b) == Some(ascii_chars(c_string_bytes(b))),
{
    let bytes = c_string_bytes(b);
    let chars = ascii_chars(bytes);
    assert forall|i: int| 0 <= i < chars.len() implies '\0' <= #[trigger] chars[i] <= '\u{7f}' by {
        assert(bytes[i] < 0x80);
    }
    vstd::utf8::is_ascii_chars_encode_utf8(chars);
    assert forall|i: int| 0 <= i < chars.len() implies #[trigger] vstd::utf8::encode_utf8(chars)[i]
        == bytes[i] by {
        assert(chars[i] as u8 == vstd::utf8::encode_utf8(chars)[i]);
    }
    assert(vstd::utf8::encode_utf8(chars) =~= bytes);
    vstd::utf8::encode_utf8_valid_utf8(chars);
    vstd::utf8::encode_utf8_decode_utf8(chars);
}


/// Whether no character of `s` is NUL.
pub open spec fn has_no_nul_char(s: Seq<char>) -> bool {
    forall|i: int| 0 <= i < s.len() ==> #[trigger] s[i] != '\0'
}

/// Whether no byte of `b` is NUL.
pub open spec fn has_no_nul_byte(b: Seq<u8>) -> bool {
    forall|i: int| 0 <= i < b.len() ==> #[trigger] b[i] != 0
}

/// A character is NUL exactly when its UTF-8 encoding holds a NUL byte.
proof fn lemma_encode_scalar_nul(c: char)
    ensures
        has_no_nul_byte(encode_scalar(c as u32)) <==> c != '\0',
{
    let v = c as u32;
    if has_width_1_encoding(v) {
        assert(v <= 0x7F ==> (v & 0x7F) == v) by (bit_vector);
        if c == '\0' {
            assert(encode_scalar(v)[0] == 0);
        }
    } else {
        assert(leading_byte_width_2(v) >= 0x80) by (bit_vector);
        assert(leading_byte_width_3(v) >= 0x80) by (bit_vector);
        assert(leading_byte_width_4(v) >= 0x80) by (bit_vector);
        assert(last_continuation_byte(v) >= 0x80) by (bit_vector);
        assert(second_last_continuation_byte(v) >= 0x80) by (bit_vector);
        assert(third_last_continuation_byte(v) >= 0x80) by (bit_vector);
        assert(c != '\0');
    }
}

/// A string holds no NUL character exactly when its UTF-8 encoding holds no NUL byte.
pub proof fn lemma_encode_utf8_nul(s: Seq<char>)
    ensures
        has_no_nul_char(s) <==> has_no_nul_byte(encode_utf8(s)),
    decreases s.len(),
{
    if s.len() > 0 {
        lemma_encode_utf8_nul(s.drop_first());
        lemma_encode_scalar_nul(s[0]);
        let a = encode_scalar(s[0] as u32);
        let r = encode_utf8(s.drop_first());
        assert(encode_utf8(s) == a + r);
        if has_no_nul_char(s) {
            assert forall|i: int| 0 <= i < s.drop_first().len() implies #[trigger] s.drop_first()[i]
                != '\0' by {
                assert(s.drop_first()[i] == s[i + 1]);
            }
            assert forall|j: int| 0 <= j < (a + r).len() implies #[trigger] (a + r)[j] != 0 by {
                if j < a.len() {
                    assert((a + r)[j] == a[j]);
                } else {
                    assert((a + r)[j] == r[j - a.len()]);
                }
            }
        }
        if has_no_nul_byte(a + r) {
            assert forall|j: int| 0 <= j < a.len() implies #[trigger] a[j] != 0 by {
                assert((a + r)[j] == a[j]);
            }
            assert forall|j: int| 0 <= j < r.len() implies #[trigger] r[j] != 0 by {
                assert((a + r)[j + a.len()] == r[j]);
            }
            assert forall|i: int| 0 <= i < s.len() implies #[trigger] s[i] != '\0' by {
                if i > 0 {
                    assert(s[i] == s.drop_first()[i - 1]);
                }
            }
        }
    }
}

/// The bytes before the first NUL of `e + [0] + tail` are `e`, when `e` holds no NUL; and
/// a `b` that holds no NUL is all C string.
proof fn lemma_c_string_bytes_of(e: Seq<u8>, tail: Seq<u8>)
    requires
        has_no_nul_byte(e),
    ensures
        c_string_bytes(e) == e,
        c_string_bytes(e + seq![0u8] + tail) == e,
{
    lemma_c_string_len(e);
    if c_string_len(e) < e.len() {
        assert(e[c_string_len(e) as int] != 0);
    }
    assert(e.take(e.len() as int) =~= e);
    let b = e + seq![0u8] + tail;
    lemma_c_string_len(b);
    let k = c_string_len(b);
    if k < e.len() {
        assert(b[k as int] == e[k as int]);
    }
    if k > e.len() {
        assert(b[e.len() as int] == 0);
    }
    assert(b.take(e.len() as int) =~= e);
}

/// Converting the UTF-8 bytes of a string without NUL gives the string back, whether or not
/// a NUL and more bytes follow it.
pub proof fn lemma_make_c_string_round_trip(s: Seq<char>, tail: Seq<u8>)
    requires
        has_no_nul_char(s),
    ensures
        spec_make_c_string(encode_utf8(s)) == Some(s),
        spec_make_c_string(encode_utf8(s) + seq![0u8] + tail) == Some(s),
{
    lemma_encode_utf8_nul(s);
    lemma_c_string_bytes_of(encode_utf8(s), tail);
    encode_utf8_valid_utf8(s);
    encode_utf8_decode_utf8(s);
}

/// A converted C string holds no NUL, its UTF-8 bytes start the input (so it is no longer
/// than the input), and converting them again gives it back.
pub proof fn lemma_make_c_string_result(b: Seq<u8>)
    requires
        spec_make_c_string(b) is Some,
    ensures
        ({
            let s = spec_make_c_string(b).unwrap();
            &&& has_no_nul_char(s)
            &&& encode_utf8(s) == b.take(encode_utf8(s).len() as int)
            &&& encode_utf8(s).len() <= b.len()
            &&& spec_make_c_string(encode_utf8(s)) == Some(s)
        }),
{
    let bytes = c_string_bytes(b);
    let s = decode_utf8(bytes);
    lemma_c_string_len(b);
    decode_utf8_encode_utf8(bytes);
    assert(encode_utf8(s) == bytes);
    assert forall|j: int| 0 <= j < bytes.len() implies #[trigger] bytes[j] != 0 by {
        assert(bytes[j] == b[j]);
    }
    lemma_encode_utf8_nul(s);
    lemma_make_c_string_round_trip(s, Seq::empty());
}


/// Decoding an RGB565 pixel keeps every one of its bits: the top bits of the three channels
/// put back together give the pixel again, and the color is opaque.
pub proof fn lemma_rgb565_lossless(value: u16)
    ensures
        ({
            let c = Ps2Rgba::spec_from_rgb565(value);
            &&& (c.r / 8) as int * 2048 + (c.g / 4) as int * 32 + (c.b / 8) as int == value as int
            &&& c.r % 8 == 0 && c.g % 4 == 0 && c.b % 8 == 0
            &&& c.a == 255
        }),
{
    let v = value as nat;
    assert(v / 2048 < 32);
    assert((v / 2048) * 2048 + ((v / 32) % 64) * 32 + v % 32 == v);
}

} // verus!
