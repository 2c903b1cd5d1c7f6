//! Small general-purpose helpers: order-preserving deduplication, escaping
//! for single-quoted JSON embedding, and a one-or-many vector wrapper.

use vstd::prelude::*;

verus! {

broadcast use vstd::seq_lib::lemma_seq_contains_after_push, vstd::seq_lib::lemma_seq_subrange_elements;

/// `s` with every duplicate removed, keeping the first occurrence of each
/// value in its original position.
pub open spec fn dedup_seq(s: Seq<u64>) -> Seq<u64>
    decreases s.len(),
{
    if s.len() == 0 {
        Seq::empty()
    } else {
        let prev = dedup_seq(s.drop_last());
        if prev.contains(s.last()) {
            prev
        } else {
            prev.push(s.last())
        }
    }
}

/// Deduplication keeps exactly the original values, and the result holds
/// each at most once.
pub proof fn lemma_dedup_seq_sound(s: Seq<u64>)
    ensures
        forall|x: u64| dedup_seq(s).contains(x) <==> s.contains(x),
        forall|i: int, j: int|
            0 <= i < j < dedup_seq(s).len() ==> dedup_seq(s)[i] != dedup_seq(s)[j],
    decreases s.len(),
{
    if s.len() > 0 {
        let prev = dedup_seq(s.drop_last());
        lemma_dedup_seq_sound(s.drop_last());
        assert(s.drop_last() =~= s.subrange(0, s.len() - 1));
        assert forall|x: u64| dedup_seq(s).contains(x) implies s.contains(x) by {
            if x == s.last() {
                assert(s[s.len() - 1] == x);
            } else {
                assert(prev.contains(x));
                assert(s.drop_last().contains(x));
                let k = choose|k: int| 0 <= k < s.drop_last().len() && s.drop_last()[k] == x;
                assert(s[k] == x);
            }
        }
        assert forall|x: u64| s.contains(x) implies dedup_seq(s).contains(x) by {
            let k = choose|k: int| 0 <= k < s.len() && s[k] == x;
            if k < s.len() - 1 {
                assert(s.drop_last()[k] == x);
                assert(s.drop_last().contains(x));
                assert(prev.contains(x));
            } else {
                assert(x == s.last());
                if !prev.contains(s.last()) {
                    assert(dedup_seq(s).last() == x);
                }
            }
        }
    }
}

fn contains_value(v: &Vec<u64>, x: u64) -> (b: bool)
    ensures
        b == v@.contains(x),
{
    let mut i: usize = 0;
    while i < v.len()
        invariant
            i <= v.len(),
            forall|j: int| 0 <= j < i ==> v@[j] != x,
        decreases v.len() - i,
    {
        if v[i] == x {
            return true;
        }
        i += 1;
    }
    proof {
        assert(!v@.contains(x)) by {
            if v@.contains(x) {
                let j = choose|j: int| 0 <= j < v@.len() && v@[j] == x;
                assert(v@[j] != x);
            }
        }
    }
    false
}

/// Removes duplicates from `vec` without sorting it: the first occurrence
/// of each value stays where it was, later occurrences disappear.
pub fn dedup_unsorted(vec: &mut Vec<u64>)
    ensures
        final(vec)@ == dedup_seq(old(vec)@),
{
    let mut out: Vec<u64> = Vec::new();
    let mut i: usize = 0;
    while i < vec.len()
        invariant
            i <= vec.len(),
            out@ == dedup_seq(vec@.take(i as int)),
        decreases vec.len() - i,
    {
        let x: u64 = vec[i];
        proof {
            assert(vec@.take(i as int + 1).drop_last() =~= vec@.take(i as int));
            assert(vec@.take(i as int + 1).last() == x);
        }
        if !contains_value(&out, x) {
            out.push(x);
        }
        i += 1;
    }
    proof {
        assert(vec@.take(vec@.len() as int) =~= vec@);
    }
    *vec = out;
}

pub const BACKSLASH_BYTE: u8 = 92;

pub const SINGLE_QUOTE_BYTE: u8 = 39;

/// `s` with a backslash inserted before every backslash and single-quote
/// byte; all other bytes pass through unchanged. Backslash and single quote
/// are ASCII, so the transformation is UTF-8-safe.
pub open spec fn escape_sq(s: Seq<u8>) -> Seq<u8>
    decreases s.len(),
{
    if s.len() == 0 {
        Seq::empty()
    } else {
        let head = if s[0] == BACKSLASH_BYTE || s[0] == SINGLE_QUOTE_BYTE {
            seq![BACKSLASH_BYTE, s[0]]
        } else {
            seq![s[0]]
        };
        head + escape_sq(s.drop_first())
    }
}

/// Escapes the UTF-8 bytes of a JSON text for embedding between single
/// quotes: prefixes every backslash and single quote with a backslash.
pub fn escape_single_quoted_json(bytes: &Vec<u8>) -> (r: Vec<u8>)
    ensures
        r@ == escape_sq(bytes@),
{
    let mut out: Vec<u8> = Vec::new();
    let mut i: usize = 0;
    proof {
        assert(bytes@.skip(0) =~= bytes@);
        assert(Seq::<u8>::empty() + escape_sq(bytes@) =~= escape_sq(bytes@));
    }
    while i < bytes.len()
        invariant
            i <= bytes.len(),
            escape_sq(bytes@) == out@ + escape_sq(bytes@.skip(i as int)),
        decreases bytes.len() - i,
    {
        let b: u8 = bytes[i];
        proof {
            assert(bytes@.skip(i as int).len() > 0);
            assert(bytes@.skip(i as int)[0] == b);
            assert(bytes@.skip(i as int).drop_first() =~= bytes@.skip(i as int + 1));
        }
        let ghost pre = out@;
        if b == BACKSLASH_BYTE || b == SINGLE_QUOTE_BYTE {
            out.push(BACKSLASH_BYTE);
            out.push(b);
            proof {
                assert(out@ =~= pre + seq![BACKSLASH_BYTE, b]);
            }
        } else {
            out.push(b);
            proof {
                assert(out@ =~= pre + seq![b]);
            }
        }
        proof {
            assert(out@ + escape_sq(bytes@.skip(i as int + 1)) =~= pre + escape_sq(
                bytes@.skip(i as int),
            ));
        }
        i += 1;
    }
    proof {
        assert(bytes@.skip(bytes@.len() as int) =~= Seq::<u8>::empty());
        assert(out@ + Seq::<u8>::empty() =~= out@);
    }
    out
}

/// A vector that can also be built from a single value or a borrowed
/// vector: callers hand over one item or many without ceremony.
pub struct AsVec<T>(pub Vec<T>);

impl<T> AsVec<T> {
    /// Wraps an existing vector.
    pub fn from_vec(v: Vec<T>) -> (r: AsVec<T>)
        ensures
            r.0 == v,
    {
        AsVec(v)
    }

    /// Wraps a single value as a one-element vector.
    pub fn from_item(x: T) -> (r: AsVec<T>)
        ensures
            r.0@ =~= seq![x],
    {
        let mut v: Vec<T> = Vec::new();
        v.push(x);
        AsVec(v)
    }

    /// Unwraps to the underlying vector.
    pub fn into_vec(self) -> (v: Vec<T>)
        ensures
            v == self.0,
    {
        self.0
    }
}

} // verus!
