use vstd::prelude::*;

verus! {

/// XOR of every byte of `s`, folded from the left.
pub open spec fn xor_all(s: Seq<u8>) -> u8
    decreases s.len(),
{
    if s.len() == 0 {
        0
    } else {
        xor_all(s.drop_last()) ^ s.last()
    }
}

/// Folding a concatenation is folding each part and combining the two.
pub proof fn lemma_xor_all_concat(a: Seq<u8>, b: Seq<u8>)
    ensures
        xor_all(a + b) == xor_all(a) ^ xor_all(b),
    decreases b.len(),
{
    if b.len() == 0 {
        assert(a + b =~= a);
        let x = xor_all(a);
        assert(x ^ 0u8 == x) by (bit_vector);
    } else {
        lemma_xor_all_concat(a, b.drop_last());
        assert((a + b).drop_last() =~= a + b.drop_last());
        let x = xor_all(a);
        let y = xor_all(b.drop_last());
        let l = b.last();
        assert((x ^ y) ^ l == x ^ (y ^ l)) by (bit_vector);
    }
}

/// Changing one byte changes the fold by the old and the new byte.
pub proof fn lemma_xor_all_update(s: Seq<u8>, i: int, v: u8)
    requires
        0 <= i < s.len(),
    ensures
        xor_all(s.update(i, v)) == xor_all(s) ^ s[i] ^ v,
{
    let a = s.take(i);
    let c = s.skip(i + 1);
    assert(s =~= a + seq![s[i]] + c);
    assert(s.update(i, v) =~= a + seq![v] + c);
    lemma_xor_all_concat(a + seq![s[i]], c);
    lemma_xor_all_concat(a, seq![s[i]]);
    lemma_xor_all_concat(a + seq![v], c);
    lemma_xor_all_concat(a, seq![v]);
    assert(seq![s[i]].drop_last() =~= Seq::<u8>::empty());
    assert(seq![v].drop_last() =~= Seq::<u8>::empty());
    let x = xor_all(a);
    let y = xor_all(c);
    let b = s[i];
    assert(seq![b].last() == b);
    assert(seq![v].last() == v);
    assert(xor_all(Seq::<u8>::empty()) == 0);
    assert(xor_all(seq![b]) == 0u8 ^ b);
    assert(xor_all(seq![v]) == 0u8 ^ v);
    assert(xor_all(s) == (x ^ (0u8 ^ b)) ^ y);
    assert(xor_all(s.update(i, v)) == (x ^ (0u8 ^ v)) ^ y);
    assert((x ^ (0u8 ^ v)) ^ y == ((x ^ (0u8 ^ b)) ^ y) ^ b ^ v) by (bit_vector);
}

/// Running XOR checksum used by the request framing and by capsuled answers.
pub struct Checksum {
    current: u8,
}

impl Checksum {
    /// The value accumulated so far.
    pub closed spec fn value(&self) -> u8 {
        self.current
    }

    /// Creates a checksum over no bytes.
    pub fn new() -> (r: Checksum)
        ensures
            r.value() == 0,
    {
        Checksum { current: 0 }
    }

    /// Folds one byte into the checksum.
    pub fn push(&mut self, data: u8)
        ensures
            final(self).value() == old(self).value() ^ data,
    {
        self.current = self.current ^ data;
    }

    /// Folds every byte of `data`, in order, into the checksum.
    pub fn push_slice(&mut self, data: &[u8])
        ensures
            final(self).value() == old(self).value() ^ xor_all(data@),
    {
        let ghost start = self.current;
        let mut i: usize = 0;
        assert(data@.take(0) =~= Seq::<u8>::empty());
        assert(start ^ 0u8 == start) by (bit_vector);
        while i < data.len()
            invariant
                i <= data@.len(),
                self.current == start ^ xor_all(data@.take(i as int)),
            decreases data@.len() - i,
        {
            let ghost acc = xor_all(data@.take(i as int));
            let b = data[i];
            self.current = self.current ^ b;
            assert(data@.take(i as int + 1).drop_last() =~= data@.take(i as int));
            assert((start ^ acc) ^ b == start ^ (acc ^ b)) by (bit_vector);
            i = i + 1;
        }
        assert(data@.take(data@.len() as int) =~= data@);
    }

    /// The checksum of every byte pushed so far.
    pub fn checksum(&self) -> (r: u8)
        ensures
            r == self.value(),
    {
        self.current
    }
}

} // verus!
