//! Character-level string helpers.

use vstd::prelude::*;

verus! {

/// Builds a `String` holding exactly `chars`.
///
/// Trusted: collects the characters through std's `FromIterator<char>` for `String`,
/// which appends each character in order.
#[verifier::external_body]
pub(crate) fn string_from_chars(chars: &Vec<char>) -> (s: String)
    ensures
        s@ == chars@,
{
    chars.iter().collect()
}

/// The characters of `s`, in order.
pub fn str_to_chars(s: &str) -> (v: Vec<char>)
    ensures
        v@ == s@,
{
    let mut v: Vec<char> = Vec::new();
    for c in iter: s.chars()
        invariant
            v@ == iter.seq().take(iter.index() as int),
    {
        v.push(c);
    }
    v
}


/// `h` with every occurrence of `from` replaced by `to`, matching left to right without
/// overlaps (as `str::replace` does for a non-empty pattern).
pub open spec fn spec_replace(h: Seq<char>, from: Seq<char>, to: Seq<char>) -> Seq<char>
    decreases h.len(),
{
    if h.len() == 0 {
        seq![]
    } else if 0 < from.len() <= h.len() && h.take(from.len() as int) == from {
        to + spec_replace(h.skip(from.len() as int), from, to)
    } else {
        seq![h[0]] + spec_replace(h.skip(1), from, to)
    }
}

/// Whether `from` occurs in `h` at index `i`.
fn matches_at(h: &Vec<char>, i: usize, from: &Vec<char>) -> (r: bool)
    requires
        i + from@.len() <= h@.len(),
    ensures
        r == (h@.subrange(i as int, i + from@.len()) == from@),
{
    let n = h.len();
    let mut k: usize = 0;
    while k < from.len()
        invariant
            n == h@.len(),
            k <= from@.len(),
            i + from@.len() <= h@.len(),
            forall|j: int| 0 <= j < k ==> h@[i + j] == from@[j],
        decreases from@.len() - k,
    {
        if h[i + k] != from[k] {
            assert(h@.subrange(i as int, i + from@.len())[k as int] != from@[k as int]);
            return false;
        }
        k = k + 1;
    }
    assert(h@.subrange(i as int, i + from@.len()) =~= from@);
    true
}

/// `h` with every occurrence of the non-empty `from` replaced by `to`.
pub fn replace(h: &Vec<char>, from: &Vec<char>, to: &Vec<char>) -> (r: Vec<char>)
    requires
        from@.len() > 0,
    ensures
        r@ == spec_replace(h@, from@, to@),
{
    let mut out: Vec<char> = Vec::new();
    let mut i: usize = 0;
    assert(h@.skip(0) =~= h@);
    while i < h.len()
        invariant
            i <= h@.len(),
            from@.len() > 0,
            out@ + spec_replace(h@.skip(i as int), from@, to@) == spec_replace(h@, from@, to@),
        decreases h@.len() - i,
    {
        let rest = Ghost(h@.skip(i as int));
        if from.len() <= h.len() - i && matches_at(h, i, from) {
            assert(rest@.take(from@.len() as int) =~= h@.subrange(i as int, i + from@.len()));
            assert(rest@.skip(from@.len() as int) =~= h@.skip(i + from@.len()));
            let mut k: usize = 0;
            let ghost out0 = out@;
            while k < to.len()
                invariant
                    k <= to@.len(),
                    out@ == out0 + to@.take(k as int),
                decreases to@.len() - k,
            {
                out.push(to[k]);
                k = k + 1;
                assert(out@ =~= out0 + to@.take(k as int));
            }
            assert(to@.take(to@.len() as int) =~= to@);
            assert(out@ + spec_replace(h@.skip(i + from@.len()), from@, to@) =~= out0 + (to@
                + spec_replace(h@.skip(i + from@.len()), from@, to@)));
            i = i + from.len();
        } else {
            proof {
                if from@.len() <= rest@.len() {
                    assert(rest@.take(from@.len() as int) =~= h@.subrange(i as int, i + from@.len()));
                }
            }
            assert(rest@.skip(1) =~= h@.skip(i + 1));
            assert(rest@[0] == h@[i as int]);
            let ghost out0 = out@;
            out.push(h[i]);
            assert(out@ + spec_replace(h@.skip(i + 1), from@, to@) =~= out0 + (seq![h@[i as int]]
                + spec_replace(h@.skip(i + 1), from@, to@)));
            i = i + 1;
        }
    }
    assert(h@.skip(i as int) =~= Seq::<char>::empty());
    assert(out@ + Seq::<char>::empty() =~= out@);
    out
}

} // verus!
