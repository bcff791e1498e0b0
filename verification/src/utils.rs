use vstd::prelude::*;

verus! {

/// The block check character of a byte sequence: the XOR of all its bytes,
/// starting from zero.
pub open spec fn bcc(data: Seq<u8>) -> u8
    decreases data.len(),
{
    if data.len() == 0 {
        0u8
    } else {
        bcc(data.drop_last()) ^ data.last()
    }
}

/// Computes the block check character of `data`.
pub fn calculate_bcc(data: &[u8]) -> (result: u8)
    ensures
        result == bcc(data@),
{
    let mut acc: u8 = 0;
    let mut i: usize = 0;
    while i < data.len()
        invariant
            i <= data.len(),
            acc == bcc(data@.take(i as int)),
        decreases data.len() - i,
    {
        proof {
            assert(data@.take(i + 1).drop_last() =~= data@.take(i as int));
        }
        acc = acc ^ data[i];
        i = i + 1;
    }
    proof {
        assert(data@.take(i as int) =~= data@);
    }
    acc
}

/// The checksum of a concatenation is the XOR of the checksums of its
/// parts.
pub proof fn lemma_bcc_concat(a: Seq<u8>, b: Seq<u8>)
    ensures
        bcc(a + b) == bcc(a) ^ bcc(b),
    decreases b.len(),
{
    if b.len() == 0 {
        assert(a + b =~= a);
        let x = bcc(a);
        assert(x ^ 0u8 == x) by (bit_vector);
    } else {
        lemma_bcc_concat(a, b.drop_last());
        assert((a + b).drop_last() =~= a + b.drop_last());
        let x = bcc(a);
        let y = bcc(b.drop_last());
        let z = b.last();
        assert((x ^ y) ^ z == x ^ (y ^ z)) by (bit_vector);
    }
}

/// XOR-ing the checksum back into the data it was computed from gives zero:
/// a sequence followed by its own checksum has checksum zero.
pub proof fn bcc_cancels_itself(data: Seq<u8>)
    ensures
        bcc(data.push(bcc(data))) == 0,
{
    let x = bcc(data);
    assert(data.push(x).drop_last() =~= data);
    assert(x ^ x == 0u8) by (bit_vector);
}

/// The checksum of a single byte is that byte.
pub proof fn lemma_bcc_single(b: u8)
    ensures
        bcc(seq![b]) == b,
{
    assert(seq![b].drop_last() =~= Seq::<u8>::empty());
    assert(bcc(Seq::<u8>::empty()) == 0u8);
    assert(seq![b].last() == b);
    assert(0u8 ^ b == b) by (bit_vector);
}

/// Replacing one byte changes the checksum by the XOR of the old and the new
/// byte.
pub proof fn lemma_bcc_update(data: Seq<u8>, i: int, v: u8)
    requires
        0 <= i < data.len(),
    ensures
        bcc(data.update(i, v)) == bcc(data) ^ data[i] ^ v,
{
    let a = data.take(i);
    let c = data.skip(i + 1);
    assert(data =~= a + seq![data[i]] + c);
    assert(data.update(i, v) =~= a + seq![v] + c);
    lemma_bcc_concat(a, seq![data[i]]);
    lemma_bcc_concat(a + seq![data[i]], c);
    lemma_bcc_concat(a, seq![v]);
    lemma_bcc_concat(a + seq![v], c);
    lemma_bcc_single(data[i]);
    lemma_bcc_single(v);
    let x = bcc(a);
    let y = bcc(c);
    let o = data[i];
    assert(((x ^ v) ^ y) == ((x ^ o) ^ y) ^ o ^ v) by (bit_vector);
}

/// The checksum detects every change of a single byte.
pub proof fn bcc_detects_byte_change(data: Seq<u8>, i: int, v: u8)
    requires
        0 <= i < data.len(),
        v != data[i],
    ensures
        bcc(data.update(i, v)) != bcc(data),
{
    lemma_bcc_update(data, i, v);
    let x = bcc(data);
    let o = data[i];
    assert(o != v ==> (x ^ o ^ v) != x) by (bit_vector);
}

/// The checksum detects every flip of a single bit.
pub proof fn bcc_detects_bit_flip(data: Seq<u8>, i: int, bit: u8)
    requires
        0 <= i < data.len(),
        bit < 8,
    ensures
        bcc(data.update(i, data[i] ^ (1u8 << bit))) != bcc(data),
{
    let o = data[i];
    assert(bit < 8 ==> (o ^ (1u8 << bit)) != o) by (bit_vector);
    bcc_detects_byte_change(data, i, o ^ (1u8 << bit));
}

} // verus!
