use vstd::prelude::*;

verus! {

/// The natural number that a big-endian byte string denotes.
pub open spec fn be_val(s: Seq<u8>) -> nat
    decreases s.len(),
{
    if s.len() == 0 {
        0
    } else {
        (be_val(s.drop_last()) * 256 + s.last()) as nat
    }
}

/// A sequence of `len` zero bytes.
pub open spec fn zero_bytes(len: nat) -> Seq<u8> {
    Seq::new(len, |i: int| 0u8)
}

/// The `len`-byte big-endian encoding of a value below `256^len`.
pub open spec fn be_bytes(n: nat, len: nat) -> Seq<u8>
    decreases len,
{
    if len == 0 {
        Seq::empty()
    } else {
        be_bytes(n / 256, (len - 1) as nat).push((n % 256) as u8)
    }
}

/// A byte string denotes zero exactly when every byte is zero.
pub proof fn lemma_be_val_zero(s: Seq<u8>)
    ensures
        (be_val(s) == 0) == (s == zero_bytes(s.len())),
    decreases s.len(),
{
    if s.len() == 0 {
        assert(s =~= zero_bytes(0));
    } else {
        lemma_be_val_zero(s.drop_last());
        if be_val(s) == 0 {
            assert(be_val(s.drop_last()) == 0 && s.last() == 0);
            assert forall|i: int| 0 <= i < s.len() implies s[i] == 0u8 by {
                if i < s.len() - 1 {
                    assert(s.drop_last()[i] == s[i]);
                    assert(zero_bytes((s.len() - 1) as nat)[i] == 0u8);
                } else {
                    assert(s[i] == s.last());
                }
            }
            assert(s =~= zero_bytes(s.len()));
        } else {
            if s == zero_bytes(s.len()) {
                assert(s.drop_last() =~= zero_bytes((s.len() - 1) as nat));
                assert(be_val(s) == 0);
            }
        }
    }
}

/// Byte-wise equality of two byte vectors.
pub fn bytes_eq(a: &Vec<u8>, b: &Vec<u8>) -> (r: bool)
    ensures
        r == (a@ == b@),
{
    if a.len() != b.len() {
        return false;
    }
    let mut i: usize = 0;
    while i < a.len()
        invariant
            i <= a.len(),
            a.len() == b.len(),
            forall|j: int| 0 <= j < i ==> a@[j] == b@[j],
        decreases a.len() - i,
    {
        if a[i] != b[i] {
            return false;
        }
        i += 1;
    }
    proof {
        assert(a@ =~= b@);
    }
    true
}

/// A fresh copy of a byte vector.
pub fn clone_bytes(a: &Vec<u8>) -> (r: Vec<u8>)
    ensures
        r@ == a@,
{
    let mut out: Vec<u8> = Vec::new();
    let mut i: usize = 0;
    while i < a.len()
        invariant
            i <= a.len(),
            out@ == a@.subrange(0, i as int),
        decreases a.len() - i,
    {
        out.push(a[i]);
        proof {
            assert(a@.subrange(0, i as int).push(a@[i as int]) =~= a@.subrange(0, i as int + 1));
        }
        i += 1;
    }
    proof {
        assert(a@.subrange(0, a@.len() as int) =~= a@);
    }
    out
}

/// Whether every byte of a vector is zero.
pub fn all_zero(a: &Vec<u8>) -> (r: bool)
    ensures
        r == (a@ == zero_bytes(a@.len())),
{
    let mut i: usize = 0;
    while i < a.len()
        invariant
            i <= a.len(),
            forall|j: int| 0 <= j < i ==> a@[j] == 0u8,
        decreases a.len() - i,
    {
        if a[i] != 0 {
            proof {
                assert(a@[i as int] != zero_bytes(a@.len())[i as int]);
            }
            return false;
        }
        i += 1;
    }
    proof {
        assert(a@ =~= zero_bytes(a@.len()));
    }
    true
}

/// Appends a copy of `a` to `out`.
pub fn push_bytes(out: &mut Vec<u8>, a: &Vec<u8>)
    ensures
        final(out)@ == old(out)@ + a@,
{
    let mut i: usize = 0;
    while i < a.len()
        invariant
            i <= a.len(),
            out@ == old(out)@ + a@.subrange(0, i as int),
        decreases a.len() - i,
    {
        out.push(a[i]);
        proof {
            assert(old(out)@ + a@.subrange(0, i as int + 1) =~= (old(out)@ + a@.subrange(
                0,
                i as int,
            )).push(a@[i as int]));
        }
        i += 1;
    }
    proof {
        assert(old(out)@ + a@.subrange(0, a@.len() as int) =~= old(out)@ + a@);
    }
}

} // verus!
