//! Byte strings: copies, the placeholder transaction id, and byte order.
use crate::descriptor::byte_string_views;
use vstd::prelude::*;

verus! {

/// The length of a transaction id, in bytes.
pub const TXID_LEN: usize = 32;

/// The placeholder transaction id: `TXID_LEN` zero bytes.
pub open spec fn placeholder_txid_spec() -> Seq<u8> {
    Seq::new(TXID_LEN as nat, |i: int| 0u8)
}

/// An owned copy of `bytes`.
pub fn copy_bytes(bytes: &Vec<u8>) -> (copy: Vec<u8>)
    ensures
        copy@ == bytes@,
{
    bytes.clone()
}

/// Owned copies of the byte strings of `items`, in order.
pub fn copy_byte_strings(items: &Vec<Vec<u8>>) -> (copy: Vec<Vec<u8>>)
    ensures
        byte_string_views(copy@) == byte_string_views(items@),
{
    let mut copy: Vec<Vec<u8>> = Vec::with_capacity(items.len());
    let mut i: usize = 0;
    while i < items.len()
        invariant
            i <= items.len(),
            copy.len() == i,
            forall|k: int| 0 <= k < i ==> (#[trigger] copy@[k])@ == items@[k]@,
        decreases items.len() - i,
    {
        copy.push(copy_bytes(&items[i]));
        i += 1;
    }
    assert(byte_string_views(copy@) =~= byte_string_views(items@));
    copy
}

/// The bytes of `bytes` in the opposite order.
///
/// A transaction id comes out of the builder in its internal byte order. An
/// input that refers to the transaction holds the id the other way round.
pub fn reverse_bytes(bytes: &Vec<u8>) -> (reversed: Vec<u8>)
    ensures
        reversed@ == bytes@.reverse(),
{
    let n: usize = bytes.len();
    let mut reversed: Vec<u8> = Vec::with_capacity(n);
    let mut i: usize = 0;
    while i < n
        invariant
            n == bytes.len(),
            i <= n,
            reversed.len() == i,
            forall|k: int| 0 <= k < i ==> reversed@[k] == bytes@[n - 1 - k],
        decreases n - i,
    {
        reversed.push(bytes[n - 1 - i]);
        i += 1;
    }
    reversed
}

/// A fresh placeholder transaction id.
pub fn placeholder_txid() -> (txid: Vec<u8>)
    ensures
        txid@ == placeholder_txid_spec(),
{
    let mut txid: Vec<u8> = Vec::with_capacity(TXID_LEN);
    let mut i: usize = 0;
    while i < TXID_LEN
        invariant
            i <= TXID_LEN,
            txid.len() == i,
            forall|k: int| 0 <= k < i ==> txid@[k] == 0u8,
        decreases TXID_LEN - i,
    {
        txid.push(0u8);
        i += 1;
    }
    txid
}

} // verus!
