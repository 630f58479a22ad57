use vstd::prelude::*;

verus! {

/// Bit `i` of an LSB-first packed bitmap: bit `i % 8` of byte `i / 8`.
pub open spec fn spec_bit(bytes: Seq<u8>, i: int) -> bool
    recommends
        0 <= i < bytes.len() * 8,
{
    (bytes[i / 8] >> ((i % 8) as u8)) & 1u8 == 1u8
}

/// Packs a sequence of row-validity flags into an LSB-first bitmap, one bit
/// per row, 1 meaning valid; unused bits of the final byte stay 0.
pub fn pack_bits(bits: &Vec<bool>) -> (r: Vec<u8>)
    ensures
        r@.len() == (bits@.len() + 7) / 8,
        forall|i: int| 0 <= i < bits@.len() ==> spec_bit(r@, i) == bits@[i],
{
    let n = bits.len();
    let n_bytes = n / 8 + if n % 8 == 0 { 0 } else { 1 };
    let mut bytes: Vec<u8> = Vec::new();
    let mut j: usize = 0;
    while j < n_bytes
        invariant
            bytes@.len() == j,
            j <= n_bytes,
            forall|k: int| 0 <= k < j ==> bytes@[k] == 0u8,
        decreases n_bytes - j,
    {
        bytes.push(0u8);
        j += 1;
    }
    assert(bytes@.len() == (bits@.len() + 7) / 8);
    assert forall|i: int| 0 <= i < bits@.len() implies !spec_bit(bytes@, i) by {
        assert(bytes@[i / 8] == 0u8);
        let k = (i % 8) as u8;
        assert(((0u8 >> k) & 1u8) == 0u8) by (bit_vector);
    }
    let mut i: usize = 0;
    while i < n
        invariant
            n == bits@.len(),
            bytes@.len() == (n + 7) / 8,
            i <= n,
            forall|k: int| 0 <= k < i ==> spec_bit(bytes@, k) == bits@[k],
            forall|k: int| i <= k < n ==> !spec_bit(bytes@, k),
        decreases n - i,
    {
        if bits[i] {
            let b = bytes[i / 8];
            let shift = (i % 8) as u8;
            let ghost old_bytes = bytes@;
            bytes.set(i / 8, b | (1u8 << shift));
            proof {
                assert forall|k: int| 0 <= k < n implies spec_bit(bytes@, k) == (
                    if k == i { true } else { spec_bit(old_bytes, k) }
                ) by {
                    if k / 8 == i as int / 8 {
                        let kk = (k % 8) as u8;
                        let sh = shift;
                        assert(kk < 8 && sh < 8);
                        assert(forall|x: u8, s: u8, t: u8|
                            s < 8 && t < 8 ==> (((x | (1u8 << s)) >> t) & 1u8) == (
                                if s == t { 1u8 } else { (x >> t) & 1u8 }
                            )) by (bit_vector);
                        assert(k == i as int <==> kk == sh);
                    }
                }
            }
        }
        i += 1;
    }
    bytes
}

/// A borrowed-style window into a packed validity bitmap: the bit for row
/// `i` is bit `offset + i` of `data`.
#[derive(Debug, Clone, PartialEq)]
pub struct BitsWithOffset {
    pub data: Vec<u8>,
    pub offset: usize,
}

impl BitsWithOffset {
    /// Whether row `idx` is marked valid.
    pub fn is_set(&self, idx: usize) -> (r: bool)
        requires
            self.offset + idx <= usize::MAX,
            self.offset + idx < self.data@.len() * 8,
        ensures
            r == spec_bit(self.data@, self.offset + idx),
    {
        let pos = self.offset + idx;
        let b = self.data[pos / 8];
        let shift = (pos % 8) as u8;
        let r = (b >> shift) & 1u8 == 1u8;
        proof {
            assert(r == spec_bit(self.data@, self.offset + idx));
        }
        r
    }
}

} // verus!
