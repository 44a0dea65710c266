//! CRC-32 of file names, as the game uses to name and look up files.
//!
//! The hash is the CRC-32 (reflected polynomial 0xEDB88320, initial value and final
//! XOR 0xFFFFFFFF) of the UTF-8 bytes of the name, with the ASCII letters folded to lower
//! case first, so names that differ only in ASCII case hash alike.

use vstd::prelude::*;
use vstd::utf8::*;

verus! {

/// One bit step of the reflected CRC-32 division.
pub open spec fn crc32_bit_step(c: u32) -> u32 {
    if c & 1 == 1 {
        (c >> 1) ^ 0xEDB8_8320u32
    } else {
        c >> 1
    }
}

/// `n` bit steps applied to `c`.
pub open spec fn crc32_bits(c: u32, n: nat) -> u32
    decreases n,
{
    if n == 0 {
        c
    } else {
        crc32_bit_step(crc32_bits(c, (n - 1) as nat))
    }
}

/// The running CRC after feeding one more byte.
pub open spec fn crc32_byte(c: u32, b: u8) -> u32 {
    crc32_bits(c ^ (b as u32), 8)
}

/// The running CRC after feeding `s`, starting from `c`.
pub open spec fn crc32_update(c: u32, s: Seq<u8>) -> u32
    decreases s.len(),
{
    if s.len() == 0 {
        c
    } else {
        crc32_byte(crc32_update(c, s.drop_last()), s.last())
    }
}

/// The CRC-32 checksum of `s`.
pub open spec fn crc32(s: Seq<u8>) -> u32 {
    !crc32_update(0xFFFF_FFFFu32, s)
}

/// `b` with an ASCII upper-case letter mapped to lower case.
pub open spec fn ascii_lower_byte(b: u8) -> u8 {
    if 0x41 <= b <= 0x5A {
        (b + 0x20) as u8
    } else {
        b
    }
}

/// `c` with an ASCII upper-case letter mapped to lower case.
pub open spec fn ascii_lower_char(c: char) -> char {
    if 'A' <= c <= 'Z' {
        ((c as u32) + 0x20) as char
    } else {
        c
    }
}

/// The bytes of `s` with ASCII letters folded to lower case.
pub open spec fn lower_bytes(s: Seq<u8>) -> Seq<u8> {
    s.map_values(|b: u8| ascii_lower_byte(b))
}

/// The characters of `s` with ASCII letters folded to lower case.
pub open spec fn lower_chars(s: Seq<char>) -> Seq<char> {
    s.map_values(|c: char| ascii_lower_char(c))
}

/// The hash of the file name `s`.
pub open spec fn spec_hash_string(s: Seq<char>) -> u32 {
    crc32(lower_bytes(encode_utf8(s)))
}

/// The CRC-32 of `bytes` with ASCII letters folded to lower case.
pub fn hash_bytes(bytes: &[u8]) -> (r: u32)
    ensures
        r == crc32(lower_bytes(bytes@)),
{
    let mut crc: u32 = 0xFFFF_FFFF;
    let mut i: usize = 0;
    while i < bytes.len()
        invariant
            i <= bytes@.len(),
            crc == crc32_update(0xFFFF_FFFFu32, lower_bytes(bytes@).take(i as int)),
        decreases bytes@.len() - i,
    {
        let raw = bytes[i];
        let b = if 0x41 <= raw && raw <= 0x5A {
            raw + 0x20
        } else {
            raw
        };
        assert(b == lower_bytes(bytes@)[i as int]);
        let start = crc ^ (b as u32);
        let mut c = start;
        let mut k: usize = 0;
        while k < 8
            invariant
                k <= 8,
                c == crc32_bits(start, k as nat),
            decreases 8 - k,
        {
            c = if c & 1 == 1 {
                (c >> 1) ^ 0xEDB8_8320u32
            } else {
                c >> 1
            };
            k = k + 1;
        }
        proof {
            let l = lower_bytes(bytes@);
            assert(l.take(i + 1).drop_last() =~= l.take(i as int));
            assert(l.take(i + 1).last() == b);
        }
        crc = c;
        i = i + 1;
    }
    assert(lower_bytes(bytes@).take(bytes@.len() as int) =~= lower_bytes(bytes@));
    !crc
}

/// Hash a file name: the CRC-32 of its UTF-8 bytes, ASCII letters folded to lower case.
pub fn hash_string(input: String) -> (r: u32)
    ensures
        r == spec_hash_string(input@),
{
    let s = input.as_str();
    let bytes = s.as_bytes();
    hash_bytes(bytes)
}

/// Folding the bytes of one encoded character is encoding the folded character.
proof fn lemma_lower_encode_scalar(c: char)
    ensures
        lower_bytes(encode_scalar(c as u32)) == encode_scalar(ascii_lower_char(c) as u32),
{
    let v = c as u32;
    let lc = ascii_lower_char(c);
    if has_width_1_encoding(v) {
        assert(v <= 0x7F ==> (v & 0x7F) == v) by (bit_vector);
        if 'A' <= c <= 'Z' {
            assert(lc as u32 == v + 0x20);
            let w = lc as u32;
            assert(w <= 0x7F ==> (w & 0x7F) == w) by (bit_vector);
        }
        assert(lower_bytes(encode_scalar(v)) =~= encode_scalar(lc as u32));
    } else {
        assert(lc == c);
        assert(leading_byte_width_2(v) >= 0x80) by (bit_vector);
        assert(leading_byte_width_3(v) >= 0x80) by (bit_vector);
        assert(leading_byte_width_4(v) >= 0x80) by (bit_vector);
        assert(last_continuation_byte(v) >= 0x80) by (bit_vector);
        assert(second_last_continuation_byte(v) >= 0x80) by (bit_vector);
        assert(third_last_continuation_byte(v) >= 0x80) by (bit_vector);
        assert(lower_bytes(encode_scalar(v)) =~= encode_scalar(v));
    }
}

/// Folding the bytes of an encoded name is encoding the folded name.
proof fn lemma_lower_encode_utf8(s: Seq<char>)
    ensures
        lower_bytes(encode_utf8(s)) == encode_utf8(lower_chars(s)),
    decreases s.len(),
{
    if s.len() > 0 {
        lemma_lower_encode_utf8(s.drop_first());
        lemma_lower_encode_scalar(s[0]);
        assert(lower_chars(s).drop_first() =~= lower_chars(s.drop_first()));
        let a = encode_scalar(s[0] as u32);
        let b = encode_utf8(s.drop_first());
        assert(lower_bytes(a + b) =~= lower_bytes(a) + lower_bytes(b));
    }
}

/// Names that differ only in the case of ASCII letters have the same hash.
pub proof fn lemma_hash_string_case_insensitive(a: Seq<char>, b: Seq<char>)
    requires
        lower_chars(a) == lower_chars(b),
    ensures
        spec_hash_string(a) == spec_hash_string(b),
{
    lemma_lower_encode_utf8(a);
    lemma_lower_encode_utf8(b);
}


/// Feeding `a` then `b` is feeding `a + b`.
pub proof fn lemma_crc32_update_concat(c: u32, a: Seq<u8>, b: Seq<u8>)
    ensures
        crc32_update(c, a + b) == crc32_update(crc32_update(c, a), b),
    decreases b.len(),
{
    if b.len() == 0 {
        assert(a + b =~= a);
    } else {
        lemma_crc32_update_concat(c, a, b.drop_last());
        assert((a + b).drop_last() =~= a + b.drop_last());
        assert((a + b).last() == b.last());
    }
}

/// The UTF-8 encoding of `s + t` is that of `s` followed by that of `t`.
pub proof fn lemma_encode_utf8_concat(s: Seq<char>, t: Seq<char>)
    ensures
        encode_utf8(s + t) == encode_utf8(s) + encode_utf8(t),
    decreases s.len(),
{
    if s.len() == 0 {
        assert(s + t =~= t);
        assert(encode_utf8(s) =~= Seq::<u8>::empty());
        assert(Seq::<u8>::empty() + encode_utf8(t) =~= encode_utf8(t));
    } else {
        lemma_encode_utf8_concat(s.drop_first(), t);
        assert((s + t).drop_first() =~= s.drop_first() + t);
        assert((s + t)[0] == s[0]);
        let a = encode_scalar(s[0] as u32);
        assert(a + (encode_utf8(s.drop_first()) + encode_utf8(t)) =~= (a + encode_utf8(
            s.drop_first(),
        )) + encode_utf8(t));
    }
}

/// The hash of the empty name is 0.
pub proof fn lemma_hash_string_empty()
    ensures
        spec_hash_string(Seq::<char>::empty()) == 0,
{
    assert(encode_utf8(Seq::<char>::empty()) =~= Seq::<u8>::empty());
    assert(lower_bytes(Seq::<u8>::empty()) =~= Seq::<u8>::empty());
    assert(!0xFFFF_FFFFu32 == 0) by (bit_vector);
}

/// Every character of a name counts: the hash of `s + t` is the running CRC-32 that
/// continues from the hash of `s` with the case-folded UTF-8 bytes of `t` (the hash holds
/// the running CRC inverted). So the hash of a name is fed by all of its bytes, however long
/// the name is.
pub proof fn lemma_hash_string_append(s: Seq<char>, t: Seq<char>)
    ensures
        spec_hash_string(s + t) == !crc32_update(!spec_hash_string(s), lower_bytes(encode_utf8(t))),
{
    let es = encode_utf8(s);
    let et = encode_utf8(t);
    lemma_encode_utf8_concat(s, t);
    assert(lower_bytes(es + et) =~= lower_bytes(es) + lower_bytes(et));
    lemma_crc32_update_concat(0xFFFF_FFFFu32, lower_bytes(es), lower_bytes(et));
    let x = crc32_update(0xFFFF_FFFFu32, lower_bytes(es));
    assert(!(!x) == x) by (bit_vector);
}

/// Appending one ASCII character to a name feeds its case-folded byte to the CRC.
pub proof fn lemma_hash_string_push_ascii(s: Seq<char>, c: char)
    requires
        (c as u32) < 0x80,
    ensures
        spec_hash_string(s.push(c)) == !crc32_byte(!spec_hash_string(s), ascii_lower_byte(c as u8)),
{
    lemma_hash_string_append(s, seq![c]);
    assert(s.push(c) =~= s + seq![c]);
    let v = c as u32;
    let b = (v & 0x7F) as u8;
    assert(v < 0x80 ==> (v & 0x7F) == v) by (bit_vector);
    assert(b == c as u8);
    assert(has_width_1_encoding(v));
    assert(encode_scalar(v) =~= seq![b]);
    assert(seq![c].drop_first() =~= Seq::<char>::empty());
    assert(encode_utf8(Seq::<char>::empty()) =~= Seq::<u8>::empty());
    assert(encode_utf8(seq![c]) =~= seq![b]);
    let l = lower_bytes(seq![b]);
    assert(l =~= seq![ascii_lower_byte(b)]);
    assert(l.drop_last() =~= Seq::<u8>::empty());
    let c0 = !spec_hash_string(s);
    assert(crc32_update(c0, l) == crc32_byte(crc32_update(c0, l.drop_last()), l.last()));
    assert(crc32_update(c0, Seq::<u8>::empty()) == c0);
}

} // verus!
