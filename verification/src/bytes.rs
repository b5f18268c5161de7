//! Byte strings and texts: comparison, copying, and integers in fixed-width form.

use vstd::bytes::lemma_auto_spec_u64_to_from_le_bytes;
use vstd::bytes::spec_u64_from_le_bytes;
use vstd::bytes::spec_u64_to_le_bytes;
use vstd::bytes::u64_from_le_bytes;
use vstd::bytes::u64_to_le_bytes;
use vstd::prelude::*;

verus! {

/// The eight bytes that stand for `x`, least significant first.
pub open spec fn u64_bytes(x: u64) -> Seq<u8> {
    spec_u64_to_le_bytes(x)
}

/// The number that eight bytes stand for, least significant first.
pub open spec fn u64_of_bytes(bytes: Seq<u8>) -> u64
    recommends
        bytes.len() == 8,
{
    spec_u64_from_le_bytes(bytes)
}

/// A number has eight bytes, and reading them back gives the number.
pub proof fn lemma_u64_bytes_round_trip(x: u64)
    ensures
        u64_bytes(x).len() == 8,
        u64_of_bytes(u64_bytes(x)) == x,
{
    lemma_auto_spec_u64_to_from_le_bytes();
}

/// Appends the eight bytes of `x` to `out`.
pub fn push_u64(out: &mut Vec<u8>, x: u64)
    ensures
        final(out)@ == old(out)@ + u64_bytes(x),
{
    let mut eight = u64_to_le_bytes(x);
    out.append(&mut eight);
}

/// Reads the number that the eight bytes from `at` on stand for.
pub fn read_u64(bytes: &[u8], at: usize) -> (x: u64)
    requires
        at + 8 <= bytes@.len(),
    ensures
        x == u64_of_bytes(bytes@.subrange(at as int, at + 8)),
{
    let len = bytes.len();
    assert(at + 8 <= len);
    let eight = copy_range(bytes, at, at + 8);
    u64_from_le_bytes(eight.as_slice())
}

/// Whether two texts are the same.
pub fn same_text(a: &str, b: &str) -> (same: bool)
    ensures
        same == (a@ == b@),
{
    let left = a.to_owned();
    let right = b.to_owned();
    left == right
}

/// Whether two byte strings are the same.
pub fn same_bytes(a: &[u8], b: &[u8]) -> (same: bool)
    ensures
        same == (a@ == b@),
{
    if a.len() != b.len() {
        return false;
    }
    let mut i: usize = 0;
    while i < a.len()
        invariant
            a@.len() == b@.len(),
            i <= a@.len(),
            forall|j: int| 0 <= j < i ==> a@[j] == b@[j],
        decreases a@.len() - i,
    {
        if a[i] != b[i] {
            return false;
        }
        i = i + 1;
    }
    assert(a@ =~= b@);
    true
}

/// Appends a byte string to `out`.
pub fn push_bytes(out: &mut Vec<u8>, bytes: &[u8])
    ensures
        final(out)@ == old(out)@ + bytes@,
{
    let mut i: usize = 0;
    while i < bytes.len()
        invariant
            i <= bytes@.len(),
            out@ == old(out)@ + bytes@.subrange(0, i as int),
        decreases bytes@.len() - i,
    {
        out.push(bytes[i]);
        i = i + 1;
        assert(out@ =~= old(out)@ + bytes@.subrange(0, i as int));
    }
    assert(bytes@.subrange(0, bytes@.len() as int) =~= bytes@);
}

/// A copy of the bytes from `from` up to `to`.
pub fn copy_range(bytes: &[u8], from: usize, to: usize) -> (copy: Vec<u8>)
    requires
        from <= to <= bytes@.len(),
    ensures
        copy@ == bytes@.subrange(from as int, to as int),
{
    let mut copy: Vec<u8> = Vec::new();
    let mut i: usize = from;
    while i < to
        invariant
            from <= i <= to <= bytes@.len(),
            copy@ == bytes@.subrange(from as int, i as int),
        decreases to - i,
    {
        copy.push(bytes[i]);
        i = i + 1;
        assert(copy@ =~= bytes@.subrange(from as int, i as int));
    }
    copy
}

/// The `N` bytes from `at` on.
pub fn read_block<const N: usize>(bytes: &[u8], at: usize) -> (block: [u8; N])
    requires
        at + N <= bytes@.len(),
    ensures
        block@ == bytes@.subrange(at as int, at + N),
{
    let len = bytes.len();
    let mut block: [u8; N] = [0u8; N];
    let mut i: usize = 0;
    while i < N
        invariant
            i <= N,
            at + N <= bytes@.len() == len,
            forall|j: int| 0 <= j < i ==> block@[j] == bytes@[at + j],
        decreases N - i,
    {
        block[i] = bytes[at + i];
        i = i + 1;
    }
    assert(block@ =~= bytes@.subrange(at as int, at + N));
    block
}

/// The 32 bytes from `at` on.
pub fn read_32_bytes(bytes: &[u8], at: usize) -> (block: [u8; 32])
    requires
        at + 32 <= bytes@.len(),
    ensures
        block@ == bytes@.subrange(at as int, at + 32),
{
    read_block::<32>(bytes, at)
}

} // verus!
