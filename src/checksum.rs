//! The frame checksum: the sum of the covered bytes modulo 256.
use vstd::arithmetic::div_mod::lemma_add_mod_noop;
use vstd::prelude::*;

verus! {

/// The sum of all bytes in `bytes`, without any wrap-around.
pub open spec fn byte_sum(bytes: Seq<u8>) -> nat
    decreases bytes.len(),
{
    if bytes.len() == 0 {
        0
    } else {
        byte_sum(bytes.drop_last()) + bytes.last() as nat
    }
}

/// The checksum of `bytes`: their sum modulo 256.
pub open spec fn checksum_of(bytes: Seq<u8>) -> u8 {
    (byte_sum(bytes) % 256) as u8
}

/// `acc` wrapping-added, in order, with every byte of `bytes`.
pub open spec fn wrapping_sum(acc: u8, bytes: Seq<u8>) -> u8
    decreases bytes.len(),
{
    if bytes.len() == 0 {
        acc
    } else {
        wrapping_sum(acc, bytes.drop_last()).wrapping_add(bytes.last())
    }
}

/// Appending a byte to the covered bytes wrapping-adds it to the checksum.
pub proof fn lemma_checksum_push(bytes: Seq<u8>, b: u8)
    ensures
        checksum_of(bytes.push(b)) == checksum_of(bytes).wrapping_add(b),
{
    assert(bytes.push(b).drop_last() =~= bytes);
    lemma_add_mod_noop(byte_sum(bytes) as int, b as int, 256);
    assert(b as int % 256 == b as int);
}

/// The checksum of a single byte is that byte.
pub proof fn lemma_checksum_single(b: u8)
    ensures
        checksum_of(seq![b]) == b,
{
    let s = seq![b];
    assert(s.len() == 1 && s.last() == b);
    assert(s.drop_last() =~= Seq::<u8>::empty());
    assert(byte_sum(Seq::<u8>::empty()) == 0);
}

/// The checksum of a control and an address byte is their wrapping sum.
pub proof fn lemma_checksum_pair(control: u8, address: u8)
    ensures
        checksum_of(seq![control, address]) == control.wrapping_add(address),
{
    lemma_checksum_single(control);
    lemma_checksum_push(seq![control], address);
    assert(seq![control].push(address) =~= seq![control, address]);
}

/// The checksum of any byte sequence is the wrapping sum of its bytes.
pub proof fn lemma_checksum_is_wrapping_sum(bytes: Seq<u8>)
    ensures
        checksum_of(bytes) == wrapping_sum(0, bytes),
    decreases bytes.len(),
{
    if bytes.len() == 0 {
        assert(byte_sum(bytes) == 0);
    } else {
        let init = bytes.drop_last();
        lemma_checksum_is_wrapping_sum(init);
        lemma_checksum_push(init, bytes.last());
        assert(init.push(bytes.last()) =~= bytes);
    }
}

} // verus!
