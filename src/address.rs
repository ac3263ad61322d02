//! Account addresses and the fixed-width encodings used as derivation seeds.
use vstd::prelude::*;

verus! {

/// A 32-byte account address.
#[derive(Clone, Copy, Debug)]
pub struct Address {
    pub bytes: [u8; 32],
}

impl View for Address {
    type V = Seq<u8>;

    open spec fn view(&self) -> Seq<u8> {
        self.bytes@
    }
}

impl Address {
    pub fn new(bytes: [u8; 32]) -> (r: Address)
        ensures
            r@ == bytes@,
    {
        Address { bytes }
    }

    /// Whether two addresses hold the same bytes.
    pub fn same_as(&self, other: &Address) -> (r: bool)
        ensures
            r == (self@ == other@),
    {
        bytes_equal(&self.bytes, &other.bytes)
    }
}

/// Whether two 32-byte values are equal.
pub fn bytes_equal(a: &[u8; 32], b: &[u8; 32]) -> (r: bool)
    ensures
        r == (a@ == b@),
{
    let mut i: usize = 0;
    while i < 32
        invariant
            0 <= i <= 32,
            a@.len() == 32,
            b@.len() == 32,
            forall|j: int| 0 <= j < i ==> a@[j] == b@[j],
        decreases 32 - i,
    {
        if a[i] != b[i] {
            return false;
        }
        i = i + 1;
    }
    assert(a@ =~= b@);
    true
}

/// The little-endian encoding of a `u64`, least significant byte first.
pub open spec fn le_bytes_of(x: u64) -> Seq<u8> {
    seq![
        (x & 0xff) as u8,
        ((x >> 8u64) & 0xff) as u8,
        ((x >> 16u64) & 0xff) as u8,
        ((x >> 24u64) & 0xff) as u8,
        ((x >> 32u64) & 0xff) as u8,
        ((x >> 40u64) & 0xff) as u8,
        ((x >> 48u64) & 0xff) as u8,
        ((x >> 56u64) & 0xff) as u8,
    ]
}

/// Encodes `x` in eight bytes, least significant first.
pub fn le_bytes(x: u64) -> (r: Vec<u8>)
    ensures
        r@ == le_bytes_of(x),
{
    let r: Vec<u8> = vec![
        (x & 0xff) as u8,
        ((x >> 8u64) & 0xff) as u8,
        ((x >> 16u64) & 0xff) as u8,
        ((x >> 24u64) & 0xff) as u8,
        ((x >> 32u64) & 0xff) as u8,
        ((x >> 40u64) & 0xff) as u8,
        ((x >> 48u64) & 0xff) as u8,
        ((x >> 56u64) & 0xff) as u8,
    ];
    assert(r@ =~= le_bytes_of(x));
    r
}

/// Distinct integers have distinct little-endian encodings.
pub proof fn lemma_le_bytes_injective(x: u64, y: u64)
    ensures
        (le_bytes_of(x) == le_bytes_of(y)) <==> x == y,
{
    if le_bytes_of(x) == le_bytes_of(y) {
        assert(le_bytes_of(x)[0] == le_bytes_of(y)[0]);
        assert(le_bytes_of(x)[1] == le_bytes_of(y)[1]);
        assert(le_bytes_of(x)[2] == le_bytes_of(y)[2]);
        assert(le_bytes_of(x)[3] == le_bytes_of(y)[3]);
        assert(le_bytes_of(x)[4] == le_bytes_of(y)[4]);
        assert(le_bytes_of(x)[5] == le_bytes_of(y)[5]);
        assert(le_bytes_of(x)[6] == le_bytes_of(y)[6]);
        assert(le_bytes_of(x)[7] == le_bytes_of(y)[7]);
        assert(x == y) by (bit_vector)
            requires
                (x & 0xff) as u8 == (y & 0xff) as u8,
                ((x >> 8u64) & 0xff) as u8 == ((y >> 8u64) & 0xff) as u8,
                ((x >> 16u64) & 0xff) as u8 == ((y >> 16u64) & 0xff) as u8,
                ((x >> 24u64) & 0xff) as u8 == ((y >> 24u64) & 0xff) as u8,
                ((x >> 32u64) & 0xff) as u8 == ((y >> 32u64) & 0xff) as u8,
                ((x >> 40u64) & 0xff) as u8 == ((y >> 40u64) & 0xff) as u8,
                ((x >> 48u64) & 0xff) as u8 == ((y >> 48u64) & 0xff) as u8,
                ((x >> 56u64) & 0xff) as u8 == ((y >> 56u64) & 0xff) as u8,
        ;
    }
}

} // verus!
