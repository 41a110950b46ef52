use vstd::prelude::*;

verus! {

/// Running exclusive-or of every byte in the sequence; the empty sequence
/// folds to zero.
pub open spec fn xor_seq(s: Seq<u8>) -> u8
    decreases s.len(),
{
    if s.len() == 0 {
        0
    } else {
        xor_seq(s.drop_last()) ^ s.last()
    }
}

/// Folds the frame bytes (header, identifier if present, data — without the
/// trailing checksum byte) into the checksum the sender must append.
pub fn compute_checksum(bytes: &Vec<u8>) -> (r: u8)
    ensures
        r == xor_seq(bytes@),
{
    let mut acc: u8 = 0;
    let n = bytes.len();
    let mut i: usize = 0;
    while i < n
        invariant
            i <= n,
            n == bytes@.len(),
            acc == xor_seq(bytes@.take(i as int)),
        decreases n - i,
    {
        proof {
            let t = bytes@.take(i as int + 1);
            assert(t.drop_last() =~= bytes@.take(i as int));
            assert(t.last() == bytes@[i as int]);
        }
        acc = acc ^ bytes[i];
        i += 1;
    }
    proof {
        assert(bytes@.take(n as int) =~= bytes@);
    }
    acc
}

/// Frame integrity: the declared checksum byte is accepted exactly when it
/// equals the exclusive-or of all included frame bytes.
pub fn validate_checksum(bytes: &Vec<u8>, declared: u8) -> (ok: bool)
    ensures
        ok == (xor_seq(bytes@) == declared),
{
    let computed = compute_checksum(bytes);
    computed == declared
}

/// Round-trip law: a frame with its own computed checksum appended folds to
/// zero, so validating the appended byte against the frame always succeeds.
pub proof fn lemma_checksum_round_trip(s: Seq<u8>)
    ensures
        xor_seq(s.push(xor_seq(s))) == 0,
{
    let c = xor_seq(s);
    let whole = s.push(c);
    assert(whole.drop_last() =~= s);
    assert(whole.last() == c);
    assert(c ^ c == 0) by (bit_vector);
}

/// Changing one byte of a sequence changes its fold by exactly the
/// exclusive-or of the old and new byte.
pub proof fn lemma_xor_update(s: Seq<u8>, i: int, v: u8)
    requires
        0 <= i < s.len(),
    ensures
        xor_seq(s.update(i, v)) == xor_seq(s) ^ s[i] ^ v,
    decreases s.len(),
{
    let u = s.update(i, v);
    let p = xor_seq(s.drop_last());
    if i == s.len() - 1 {
        assert(u.drop_last() =~= s.drop_last());
        assert(u.last() == v);
        let x = s[i];
        assert(p ^ v == ((p ^ x) ^ x) ^ v) by (bit_vector);
    } else {
        assert(u.drop_last() =~= s.drop_last().update(i, v));
        assert(u.last() == s.last());
        lemma_xor_update(s.drop_last(), i, v);
        let x = s.drop_last()[i];
        let l = s.last();
        assert(s[i] == x);
        assert(((p ^ x) ^ v) ^ l == ((p ^ l) ^ x) ^ v) by (bit_vector);
    }
}

/// Error-detection law: flipping any set of bits (one bit included) in any
/// single frame byte changes the fold, so the old checksum is rejected.
pub proof fn lemma_checksum_detects_bit_flip(s: Seq<u8>, i: int, flip: u8)
    requires
        0 <= i < s.len(),
        flip != 0,
    ensures
        xor_seq(s.update(i, s[i] ^ flip)) != xor_seq(s),
{
    lemma_xor_update(s, i, s[i] ^ flip);
    let c = xor_seq(s);
    let x = s[i];
    assert(flip != 0 ==> ((c ^ x) ^ (x ^ flip)) != c) by (bit_vector);
}

} // verus!
