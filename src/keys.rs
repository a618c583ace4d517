//! Checkpoint keys: a 4-byte big-endian encoding of an entity id, so that
//! the byte order of keys is the numeric order of ids.

use vstd::prelude::*;

verus! {

/// The key of an id: its four bytes, most significant first.
pub open spec fn id_key(n: u32) -> Seq<u8> {
    seq![(n >> 24u32) as u8, (n >> 16u32) as u8, (n >> 8u32) as u8, n as u8]
}

/// The id that a 4-byte key stands for.
pub open spec fn key_id(b: Seq<u8>) -> int
    recommends
        b.len() == 4,
{
    b[0] * 0x1000000 + b[1] * 0x10000 + b[2] * 0x100 + b[3]
}

/// Byte-wise lexicographic order, the order in which the store keeps its keys.
pub open spec fn lex_lt(a: Seq<u8>, b: Seq<u8>) -> bool
    decreases a.len(),
{
    if a.len() == 0 {
        b.len() > 0
    } else if b.len() == 0 {
        false
    } else if a[0] != b[0] {
        a[0] < b[0]
    } else {
        lex_lt(a.drop_first(), b.drop_first())
    }
}

/// Encodes an id as a key of the store.
pub fn encode_id(number: u32) -> (r: Vec<u8>)
    ensures
        r@ == id_key(number),
{
    let v: Vec<u8> = vec![
        (number >> 24u32) as u8,
        (number >> 16u32) as u8,
        (number >> 8u32) as u8,
        number as u8,
    ];
    assert(v@ =~= id_key(number));
    v
}

/// Decodes a key of the store into the id it stands for; a key that is not
/// four bytes long stands for none.
pub fn decode_id(key: &[u8]) -> (r: Option<u32>)
    ensures
        key@.len() != 4 ==> r is None,
        key@.len() == 4 ==> r == Some(key_id(key@) as u32) && id_key(r->0) == key@,
{
    if key.len() != 4 {
        return None;
    }
    let b0 = key[0];
    let b1 = key[1];
    let b2 = key[2];
    let b3 = key[3];
    let r: u32 = ((b0 as u32) << 24u32) | ((b1 as u32) << 16u32) | ((b2 as u32) << 8u32) | (b3 as u32);
    assert(r == b0 as u32 * 0x1000000u32 + b1 as u32 * 0x10000u32 + b2 as u32 * 0x100u32 + b3 as u32)
        by (bit_vector)
        requires
            r == ((b0 as u32) << 24u32) | ((b1 as u32) << 16u32) | ((b2 as u32) << 8u32) | (b3 as u32),
    ;
    assert((r >> 24u32) as u8 == b0 && (r >> 16u32) as u8 == b1 && (r >> 8u32) as u8 == b2
        && r as u8 == b3) by (bit_vector)
        requires
            r == ((b0 as u32) << 24u32) | ((b1 as u32) << 16u32) | ((b2 as u32) << 8u32) | (b3 as u32),
    ;
    assert(id_key(r) =~= key@);
    Some(r)
}

/// Decoding a key gives back the id it was made from.
pub proof fn lemma_key_round_trip(n: u32)
    ensures
        key_id(id_key(n)) == n,
{
    let b0 = (n >> 24u32) as u8;
    let b1 = (n >> 16u32) as u8;
    let b2 = (n >> 8u32) as u8;
    let b3 = n as u8;
    assert(n == b0 as u32 * 0x1000000u32 + b1 as u32 * 0x10000u32 + b2 as u32 * 0x100u32 + b3 as u32)
        by (bit_vector)
        requires
            b0 == (n >> 24u32) as u8,
            b1 == (n >> 16u32) as u8,
            b2 == (n >> 8u32) as u8,
            b3 == n as u8,
    ;
}

/// The byte order of two keys is the numeric order of their ids, so the
/// last key of a table is its largest id.
pub proof fn lemma_key_order(n: u32, m: u32)
    ensures
        lex_lt(id_key(n), id_key(m)) <==> n < m,
{
    reveal_with_fuel(lex_lt, 5);
    let a = id_key(n);
    let b = id_key(m);
    assert(a.drop_first() =~= seq![(n >> 16u32) as u8, (n >> 8u32) as u8, n as u8]);
    assert(b.drop_first() =~= seq![(m >> 16u32) as u8, (m >> 8u32) as u8, m as u8]);
    assert(a.drop_first().drop_first() =~= seq![(n >> 8u32) as u8, n as u8]);
    assert(b.drop_first().drop_first() =~= seq![(m >> 8u32) as u8, m as u8]);
    assert(a.drop_first().drop_first().drop_first() =~= seq![n as u8]);
    assert(b.drop_first().drop_first().drop_first() =~= seq![m as u8]);
    assert(a.drop_first().drop_first().drop_first().drop_first() =~= Seq::<u8>::empty());
    assert(b.drop_first().drop_first().drop_first().drop_first() =~= Seq::<u8>::empty());
    assert(n < m <==> (if (n >> 24u32) as u8 != (m >> 24u32) as u8 {
        ((n >> 24u32) as u8) < ((m >> 24u32) as u8)
    } else if (n >> 16u32) as u8 != (m >> 16u32) as u8 {
        ((n >> 16u32) as u8) < ((m >> 16u32) as u8)
    } else if (n >> 8u32) as u8 != (m >> 8u32) as u8 {
        ((n >> 8u32) as u8) < ((m >> 8u32) as u8)
    } else {
        (n as u8) < (m as u8)
    })) by (bit_vector);
}

} // verus!
