//! Utilities for making .DAT and .MET file names
//!
//! .DAT and .MET filenames are formatted like "{:X}.DAT" in fmt parlance.
//! The name component is the CRC32 of the original filename.
//!
//! The DAT/MET filename can be a max of 13 characters long.

use vstd::prelude::*;
use super::crc32::{hash_string, lemma_hash_string_case_insensitive, lower_chars, spec_hash_string};
use crate::util::text::string_from_chars;

verus! {

/// The upper-case hexadecimal digit for `d` (0..16).
pub open spec fn hex_digit(d: nat) -> char {
    if d == 0 {
        '0'
    } else if d == 1 {
        '1'
    } else if d == 2 {
        '2'
    } else if d == 3 {
        '3'
    } else if d == 4 {
        '4'
    } else if d == 5 {
        '5'
    } else if d == 6 {
        '6'
    } else if d == 7 {
        '7'
    } else if d == 8 {
        '8'
    } else if d == 9 {
        '9'
    } else if d == 10 {
        'A'
    } else if d == 11 {
        'B'
    } else if d == 12 {
        'C'
    } else if d == 13 {
        'D'
    } else if d == 14 {
        'E'
    } else {
        'F'
    }
}

/// The upper-case hexadecimal digit for `d`.
fn hex_digit_char(d: u32) -> (c: char)
    requires
        d < 16,
    ensures
        c == hex_digit(d as nat),
{
    if d == 0 {
        '0'
    } else if d == 1 {
        '1'
    } else if d == 2 {
        '2'
    } else if d == 3 {
        '3'
    } else if d == 4 {
        '4'
    } else if d == 5 {
        '5'
    } else if d == 6 {
        '6'
    } else if d == 7 {
        '7'
    } else if d == 8 {
        '8'
    } else if d == 9 {
        '9'
    } else if d == 10 {
        'A'
    } else if d == 11 {
        'B'
    } else if d == 12 {
        'C'
    } else if d == 13 {
        'D'
    } else if d == 14 {
        'E'
    } else {
        'F'
    }
}

/// `n` in upper-case hexadecimal, without leading zeros (`{:X}`).
pub open spec fn upper_hex(n: nat) -> Seq<char>
    decreases n,
{
    if n < 16 {
        seq![hex_digit(n)]
    } else {
        upper_hex(n / 16) + seq![hex_digit(n % 16)]
    }
}

/// The value of an upper-case hexadecimal digit.
pub open spec fn hex_digit_value(c: char) -> nat {
    if c == '0' {
        0
    } else if c == '1' {
        1
    } else if c == '2' {
        2
    } else if c == '3' {
        3
    } else if c == '4' {
        4
    } else if c == '5' {
        5
    } else if c == '6' {
        6
    } else if c == '7' {
        7
    } else if c == '8' {
        8
    } else if c == '9' {
        9
    } else if c == 'A' {
        10
    } else if c == 'B' {
        11
    } else if c == 'C' {
        12
    } else if c == 'D' {
        13
    } else if c == 'E' {
        14
    } else {
        15
    }
}

/// The value of a string of upper-case hexadecimal digits.
pub open spec fn hex_value(s: Seq<char>) -> nat
    decreases s.len(),
{
    if s.len() == 0 {
        0
    } else {
        hex_value(s.drop_last()) * 16 + hex_digit_value(s.last())
    }
}

/// The name of the `.DAT` file for a file name hash.
pub open spec fn spec_dat_filename_from_hash(hash: u32) -> Seq<char> {
    upper_hex(hash as nat) + seq!['.', 'D', 'A', 'T']
}

/// The name of the `.MET` file for a file name hash.
pub open spec fn spec_met_filename_from_hash(hash: u32) -> Seq<char> {
    upper_hex(hash as nat) + seq!['.', 'M', 'E', 'T']
}

/// Append the upper-case hexadecimal digits of `n` to `out`.
fn push_upper_hex(n: u32, out: &mut Vec<char>)
    ensures
        final(out)@ == old(out)@ + upper_hex(n as nat),
    decreases n,
{
    if n >= 16 {
        push_upper_hex(n / 16, out);
    }
    let d = n % 16;
    let c = hex_digit_char(d);
    out.push(c);
    assert(final(out)@ =~= old(out)@ + upper_hex(n as nat)) by {
        if n >= 16 {
            assert(upper_hex(n as nat) == upper_hex((n / 16) as nat) + seq![hex_digit((n % 16) as nat)]);
        }
    }
}

/// The name `{hash:X}.{e0}{e1}{e2}`.
fn hash_filename(hash: u32, e0: char, e1: char, e2: char) -> (r: String)
    ensures
        r@ == upper_hex(hash as nat) + seq!['.', e0, e1, e2],
{
    let mut chars: Vec<char> = Vec::new();
    push_upper_hex(hash, &mut chars);
    chars.push('.');
    chars.push(e0);
    chars.push(e1);
    chars.push(e2);
    assert(chars@ =~= upper_hex(hash as nat) + seq!['.', e0, e1, e2]);
    string_from_chars(&chars)
}

/// Make a .DAT filename from a file name hash.
pub fn dat_filename_from_hash(hash: u32) -> (r: String)
    ensures
        r@ == spec_dat_filename_from_hash(hash),
{
    hash_filename(hash, 'D', 'A', 'T')
}

/// Make a .MET filename from a file name hash.
pub fn met_filename_from_hash(hash: u32) -> (r: String)
    ensures
        r@ == spec_met_filename_from_hash(hash),
{
    hash_filename(hash, 'M', 'E', 'T')
}

/// Make a .DAT filename from a cleartext filename.
pub fn dat_filename(filename: &str) -> (r: String)
    ensures
        r@ == spec_dat_filename_from_hash(spec_hash_string(filename@)),
{
    dat_filename_from_hash(hash_string(filename.to_owned()))
}

/// Make a .MET filename from a cleartext filename.
pub fn met_filename(filename: &str) -> (r: String)
    ensures
        r@ == spec_met_filename_from_hash(spec_hash_string(filename@)),
{
    met_filename_from_hash(hash_string(filename.to_owned()))
}

/// 16 to the power `k`.
pub open spec fn pow16(k: nat) -> nat
    decreases k,
{
    if k == 0 {
        1
    } else {
        16 * pow16((k - 1) as nat)
    }
}

/// Numbers below `16^k` (`k >= 1`) have at most `k` digits.
proof fn lemma_upper_hex_len(n: nat, k: nat)
    requires
        k >= 1,
        n < pow16(k),
    ensures
        upper_hex(n).len() <= k,
    decreases n,
{
    if n >= 16 {
        let k1 = (k - 1) as nat;
        if k1 == 0 {
            assert(pow16(k) == 16) by {
                reveal_with_fuel(pow16, 2);
            }
        }
        assert(n / 16 < pow16(k1));
        lemma_upper_hex_len(n / 16, k1);
    }
}

/// Reading the digits of `upper_hex(n)` back gives `n`, and every digit is `0`-`9` or
/// `A`-`F`.
pub proof fn lemma_upper_hex(n: nat)
    ensures
        hex_value(upper_hex(n)) == n,
        1 <= upper_hex(n).len(),
        forall|i: int|
            0 <= i < upper_hex(n).len() ==> ('0' <= #[trigger] upper_hex(n)[i] <= '9' || 'A'
                <= upper_hex(n)[i] <= 'F'),
    decreases n,
{
    let s = upper_hex(n);
    assert(hex_digit_value(hex_digit(n % 16)) == n % 16);
    if n < 16 {
        assert(s.drop_last() =~= Seq::<char>::empty());
        assert(hex_value(s) == hex_value(s.drop_last()) * 16 + hex_digit_value(s.last()));
    } else {
        lemma_upper_hex(n / 16);
        assert(s.last() == hex_digit(n % 16));
        assert(hex_value(s) == hex_value(s.drop_last()) * 16 + hex_digit_value(s.last()));
        assert(s.drop_last() =~= upper_hex(n / 16));
        assert(hex_value(s.drop_last()) == n / 16);
        assert forall|i: int| 0 <= i < s.len() implies ('0' <= #[trigger] s[i] <= '9' || 'A' <= s[i]
            <= 'F') by {
            if i < s.len() - 1 {
                assert(s[i] == upper_hex(n / 16)[i]);
            }
        }
    }
}

/// `upper_hex` writes no leading zero: its first digit is `0` only for 0 itself.
proof fn lemma_upper_hex_no_leading_zero(n: nat)
    ensures
        n != 0 ==> upper_hex(n)[0] != '0',
    decreases n,
{
    if n >= 16 {
        lemma_upper_hex_no_leading_zero(n / 16);
        lemma_upper_hex(n / 16);
        assert(upper_hex(n)[0] == upper_hex(n / 16)[0]);
    }
}

/// A `.DAT` or `.MET` name is at most 12 characters long (so within the 13 the game allows):
/// at most 8 hexadecimal digits, then the extension.
pub proof fn lemma_filename_len(hash: u32)
    ensures
        spec_dat_filename_from_hash(hash).len() <= 12,
        spec_met_filename_from_hash(hash).len() <= 12,
{
    assert(pow16(8) == 0x1_0000_0000) by {
        reveal_with_fuel(pow16, 9);
    }
    lemma_upper_hex_len(hash as nat, 8);
}


/// File names that differ only in the case of ASCII letters get the same `.DAT` and `.MET`
/// names, since the name hash folds case.
pub proof fn lemma_filename_case_insensitive(a: Seq<char>, b: Seq<char>)
    requires
        lower_chars(a) == lower_chars(b),
    ensures
        spec_dat_filename_from_hash(spec_hash_string(a)) == spec_dat_filename_from_hash(
            spec_hash_string(b),
        ),
        spec_met_filename_from_hash(spec_hash_string(a)) == spec_met_filename_from_hash(
            spec_hash_string(b),
        ),
{
    lemma_hash_string_case_insensitive(a, b);
}

/// The name part of a `.DAT` or `.MET` name reads back as the hash it was made from, with
/// no leading zero, and the name ends in its extension.
pub proof fn lemma_filename_names_hash(hash: u32)
    ensures
        hex_value(spec_dat_filename_from_hash(hash).take(spec_dat_filename_from_hash(hash).len() - 4))
            == hash,
        hex_value(spec_met_filename_from_hash(hash).take(spec_met_filename_from_hash(hash).len() - 4))
            == hash,
        spec_dat_filename_from_hash(hash).len() >= 5,
        spec_dat_filename_from_hash(hash).skip(spec_dat_filename_from_hash(hash).len() - 4)
            == seq!['.', 'D', 'A', 'T'],
        spec_met_filename_from_hash(hash).skip(spec_met_filename_from_hash(hash).len() - 4)
            == seq!['.', 'M', 'E', 'T'],
        hash != 0 ==> spec_dat_filename_from_hash(hash)[0] != '0',
        hash == 0 ==> spec_dat_filename_from_hash(hash) == seq!['0', '.', 'D', 'A', 'T'],
{
    lemma_upper_hex_no_leading_zero(hash as nat);
    assert(spec_dat_filename_from_hash(hash).skip(spec_dat_filename_from_hash(hash).len() - 4)
        =~= seq!['.', 'D', 'A', 'T']);
    assert(spec_met_filename_from_hash(hash).skip(spec_met_filename_from_hash(hash).len() - 4)
        =~= seq!['.', 'M', 'E', 'T']);
    if hash == 0 {
        assert(spec_dat_filename_from_hash(hash) =~= seq!['0', '.', 'D', 'A', 'T']);
    }
    lemma_upper_hex(hash as nat);
    assert(spec_dat_filename_from_hash(hash).take(spec_dat_filename_from_hash(hash).len() - 4)
        =~= upper_hex(hash as nat));
    assert(spec_met_filename_from_hash(hash).take(spec_met_filename_from_hash(hash).len() - 4)
        =~= upper_hex(hash as nat));
}

} // verus!
