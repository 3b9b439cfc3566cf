use vstd::prelude::*;

verus! {

/// The big-endian reading of sixteen bytes as one 128-bit value.
pub open spec fn be16(
    b0: u8, b1: u8, b2: u8, b3: u8, b4: u8, b5: u8, b6: u8, b7: u8,
    b8: u8, b9: u8, b10: u8, b11: u8, b12: u8, b13: u8, b14: u8, b15: u8,
) -> u128 {
    ((b0 as u128) << 120u128) | ((b1 as u128) << 112u128) | ((b2 as u128) << 104u128)
        | ((b3 as u128) << 96u128) | ((b4 as u128) << 88u128) | ((b5 as u128) << 80u128)
        | ((b6 as u128) << 72u128) | ((b7 as u128) << 64u128) | ((b8 as u128) << 56u128)
        | ((b9 as u128) << 48u128) | ((b10 as u128) << 40u128) | ((b11 as u128) << 32u128)
        | ((b12 as u128) << 24u128) | ((b13 as u128) << 16u128) | ((b14 as u128) << 8u128)
        | (b15 as u128)
}

/// The 128-bit value whose high half is `hi` and whose low half is `lo`.
pub open spec fn join64(hi: u64, lo: u64) -> u128 {
    ((hi as u128) << 64u128) | (lo as u128)
}

/// The high 64 bits of `v`.
pub open spec fn hi64(v: u128) -> u64 {
    (v >> 64u128) as u64
}

/// The low 64 bits of `v`.
pub open spec fn lo64(v: u128) -> u64 {
    v as u64
}

/// The `i`-th big-endian 32-bit word of `v`, the first (`i == 0`) being the most
/// significant.
pub open spec fn word_of(v: u128, i: int) -> u32 {
    (v >> (96 - 32 * i) as u32) as u32
}

/// `v` rotated left by `n` bits; as with `u128::rotate_left`, only `n % 128` counts.
pub open spec fn rotl128(v: u128, n: u32) -> u128 {
    let k = (n % 128) as u128;
    if k == 0 {
        v
    } else {
        (v << k) | (v >> (128 - k) as u128)
    }
}

/// `v` with its two 64-bit halves exchanged.
pub open spec fn swap128(v: u128) -> u128 {
    (v >> 64u128) | (v << 64u128)
}

/// Sixteen bytes, read as a 128-bit big-endian integer or as four big-endian
/// 32-bit words, whatever the byte order of the host.
#[derive(Debug, Default, Copy, Clone, PartialEq, Eq)]
pub struct Block {
    pub bytes: [u8; 16],
}

impl Block {
    /// The block's bytes as one big-endian 128-bit value.
    pub open spec fn value(&self) -> u128 {
        let b = self.bytes@;
        be16(
            b[0], b[1], b[2], b[3], b[4], b[5], b[6], b[7],
            b[8], b[9], b[10], b[11], b[12], b[13], b[14], b[15],
        )
    }

    /// Reads the block's bytes as one big-endian 128-bit value.
    pub fn to_u128(&self) -> (r: u128)
        ensures
            r == self.value(),
    {
        ((self.bytes[0] as u128) << 120u128) | ((self.bytes[1] as u128) << 112u128)
            | ((self.bytes[2] as u128) << 104u128) | ((self.bytes[3] as u128) << 96u128)
            | ((self.bytes[4] as u128) << 88u128) | ((self.bytes[5] as u128) << 80u128)
            | ((self.bytes[6] as u128) << 72u128) | ((self.bytes[7] as u128) << 64u128)
            | ((self.bytes[8] as u128) << 56u128) | ((self.bytes[9] as u128) << 48u128)
            | ((self.bytes[10] as u128) << 40u128) | ((self.bytes[11] as u128) << 32u128)
            | ((self.bytes[12] as u128) << 24u128) | ((self.bytes[13] as u128) << 16u128)
            | ((self.bytes[14] as u128) << 8u128) | (self.bytes[15] as u128)
    }

    /// The block whose big-endian value is `v`.
    pub fn from_u128(v: u128) -> (r: Block)
        ensures
            r.value() == v,
    {
        proof {
            lemma_be16_of_parts(v);
        }
        Block {
            bytes: [
                (v >> 120u128) as u8, (v >> 112u128) as u8, (v >> 104u128) as u8,
                (v >> 96u128) as u8, (v >> 88u128) as u8, (v >> 80u128) as u8,
                (v >> 72u128) as u8, (v >> 64u128) as u8, (v >> 56u128) as u8,
                (v >> 48u128) as u8, (v >> 40u128) as u8, (v >> 32u128) as u8,
                (v >> 24u128) as u8, (v >> 16u128) as u8, (v >> 8u128) as u8, v as u8,
            ],
        }
    }
    /// Reads the high 64 bits of the value.
    pub fn high_half(&self) -> (r: u64)
        ensures
            r == hi64(self.value()),
    {
        (self.to_u128() >> 64u128) as u64
    }

    /// Reads the low 64 bits of the value.
    pub fn low_half(&self) -> (r: u64)
        ensures
            r == lo64(self.value()),
    {
        self.to_u128() as u64
    }

    /// Reads the `i`-th big-endian 32-bit word, the first being the most significant.
    pub fn word(&self, i: usize) -> (r: u32)
        requires
            i < 4,
        ensures
            r == word_of(self.value(), i as int),
    {
        let shift: u32 = 96 - 32 * (i as u32);
        (self.to_u128() >> shift) as u32
    }

    /// The block whose value has `hi` as its high half and `lo` as its low half.
    pub fn from_halves(hi: u64, lo: u64) -> (r: Block)
        ensures
            r.value() == join64(hi, lo),
    {
        Block::from_u128(((hi as u128) << 64u128) | (lo as u128))
    }

    /// The bitwise exclusive or of two blocks.
    pub fn xor(&self, rhs: &Block) -> (r: Block)
        ensures
            r.value() == self.value() ^ rhs.value(),
    {
        Block::from_u128(self.to_u128() ^ rhs.to_u128())
    }

    /// Replaces the block by its exclusive or with `rhs`.
    pub fn xor_assign(&mut self, rhs: &Block)
        ensures
            final(self).value() == old(self).value() ^ rhs.value(),
    {
        *self = Block::from_u128(self.to_u128() ^ rhs.to_u128());
    }

    /// Exchanges the first eight bytes and the last eight bytes.
    pub fn swap_halves(&mut self)
        ensures
            final(self).value() == swap128(old(self).value()),
    {
        let t = self.to_u128();
        *self = Block::from_u128((t >> 64u128) | (t << 64u128));
    }

    /// Rotates the big-endian value left by `n` bits (by `n % 128`, as `u128::rotate_left`).
    pub fn bit_rotate_left(&mut self, n: u32)
        ensures
            final(self).value() == rotl128(old(self).value(), n),
    {
        let v = self.to_u128();
        let k: u32 = n % 128;
        let r = if k == 0 {
            v
        } else {
            (v << k) | (v >> (128 - k))
        };
        *self = Block::from_u128(r);
    }
}

impl From<[u8; 16]> for Block {
    fn from(bytes: [u8; 16]) -> Block {
        Block { bytes }
    }
}

impl vstd::std_specs::convert::FromSpecImpl<[u8; 16]> for Block {
    open spec fn obeys_from_spec() -> bool {
        true
    }

    open spec fn from_spec(v: [u8; 16]) -> Block {
        Block { bytes: v }
    }
}

impl From<Block> for [u8; 16] {
    fn from(block: Block) -> [u8; 16] {
        block.bytes
    }
}

impl vstd::std_specs::convert::FromSpecImpl<Block> for [u8; 16] {
    open spec fn obeys_from_spec() -> bool {
        true
    }

    open spec fn from_spec(v: Block) -> [u8; 16] {
        v.bytes
    }
}

/// A block is determined by its value: two blocks with one value are equal.
pub proof fn lemma_value_injective(a: Block, b: Block)
    requires
        a.value() == b.value(),
    ensures
        a == b,
{
    broadcast use vstd::array::group_array_axioms;
    let x = a.bytes@;
    let y = b.bytes@;
    lemma_be16_bytes(
        x[0], x[1], x[2], x[3], x[4], x[5], x[6], x[7],
        x[8], x[9], x[10], x[11], x[12], x[13], x[14], x[15],
    );
    lemma_be16_bytes(
        y[0], y[1], y[2], y[3], y[4], y[5], y[6], y[7],
        y[8], y[9], y[10], y[11], y[12], y[13], y[14], y[15],
    );
    assert(x =~= y);
    assert(a.bytes == b.bytes);
}

/// Rotating left by `n` and then by `(128 - n) mod 128` gives back the value, and
/// rotating by 0 or by 128 leaves it unchanged.
pub proof fn lemma_rotate_inverse(b: Block, n: u32)
    ensures
        rotl128(rotl128(b.value(), n), ((128 - n % 128) % 128) as u32) == b.value(),
        rotl128(b.value(), 0) == b.value(),
        rotl128(b.value(), 128) == b.value(),
{
    lemma_rotl128_inverse(b.value(), n);
}

/// Swapping the halves twice gives back the value.
pub proof fn lemma_swap_halves_twice(b: Block)
    ensures
        swap128(swap128(b.value())) == b.value(),
{
    lemma_swap128_twice(b.value());
}

/// A block's exclusive or with itself is the zero block, and exclusive or is
/// commutative and associative.
pub proof fn lemma_xor_laws(a: Block, b: Block, c: Block)
    ensures
        a.value() ^ a.value() == 0,
        a.value() ^ b.value() == b.value() ^ a.value(),
        (a.value() ^ b.value()) ^ c.value() == a.value() ^ (b.value() ^ c.value()),
{
    lemma_xor128(a.value(), b.value(), c.value());
}

/// The zero block is the block whose bytes are all zero.
pub proof fn lemma_zero_value(b: Block)
    ensures
        b.value() == 0 <==> b.bytes@ == seq![0u8; 16],
{
    broadcast use vstd::array::group_array_axioms;
    let x = b.bytes@;
    lemma_be16_bytes(
        x[0], x[1], x[2], x[3], x[4], x[5], x[6], x[7],
        x[8], x[9], x[10], x[11], x[12], x[13], x[14], x[15],
    );
    lemma_or16_zero(
        x[0], x[1], x[2], x[3], x[4], x[5], x[6], x[7],
        x[8], x[9], x[10], x[11], x[12], x[13], x[14], x[15],
    );
    if b.value() == 0 {
        assert(x =~= seq![0u8; 16]);
    }
}

proof fn lemma_rotl128_inverse(v: u128, n: u32)
    ensures
        rotl128(rotl128(v, n), ((128 - n % 128) % 128) as u32) == v,
        rotl128(v, 0) == v,
        rotl128(v, 128) == v,
{
    let k = (n % 128) as u128;
    if k != 0 {
        lemma_rotl_pair(v, k);
    }
}

#[verifier::rlimit(100)]
proof fn lemma_rotl_pair(v: u128, k: u128)
    by (bit_vector)
    requires
        0 < k < 128,
    ensures
        ({
            let r = (v << k) | (v >> (128 - k) as u128);
            (r << (128 - k) as u128) | (r >> k)
        }) == v,
{
}

proof fn lemma_or16_zero(
    b0: u8, b1: u8, b2: u8, b3: u8, b4: u8, b5: u8, b6: u8, b7: u8,
    b8: u8, b9: u8, b10: u8, b11: u8, b12: u8, b13: u8, b14: u8, b15: u8,
)
    by (bit_vector)
    ensures
        (b0 | b1 | b2 | b3 | b4 | b5 | b6 | b7 | b8 | b9 | b10 | b11 | b12 | b13 | b14 | b15) == 0
            <==> (b0 == 0 && b1 == 0 && b2 == 0 && b3 == 0 && b4 == 0 && b5 == 0 && b6 == 0
            && b7 == 0 && b8 == 0 && b9 == 0 && b10 == 0 && b11 == 0 && b12 == 0 && b13 == 0
            && b14 == 0 && b15 == 0),
{
}

pub(crate) proof fn lemma_swap128_twice(v: u128)
    by (bit_vector)
    ensures
        swap128(swap128(v)) == v,
{
}

proof fn lemma_xor128(a: u128, b: u128, c: u128)
    by (bit_vector)
    ensures
        a ^ a == 0,
        a ^ b == b ^ a,
        (a ^ b) ^ c == a ^ (b ^ c),
{
}

proof fn lemma_be16_bytes(
    b0: u8, b1: u8, b2: u8, b3: u8, b4: u8, b5: u8, b6: u8, b7: u8,
    b8: u8, b9: u8, b10: u8, b11: u8, b12: u8, b13: u8, b14: u8, b15: u8,
)
    by (bit_vector)
    ensures
        ({
            let v = be16(b0, b1, b2, b3, b4, b5, b6, b7, b8, b9, b10, b11, b12, b13, b14, b15);
            &&& (v >> 120u128) as u8 == b0
            &&& (v >> 112u128) as u8 == b1
            &&& (v >> 104u128) as u8 == b2
            &&& (v >> 96u128) as u8 == b3
            &&& (v >> 88u128) as u8 == b4
            &&& (v >> 80u128) as u8 == b5
            &&& (v >> 72u128) as u8 == b6
            &&& (v >> 64u128) as u8 == b7
            &&& (v >> 56u128) as u8 == b8
            &&& (v >> 48u128) as u8 == b9
            &&& (v >> 40u128) as u8 == b10
            &&& (v >> 32u128) as u8 == b11
            &&& (v >> 24u128) as u8 == b12
            &&& (v >> 16u128) as u8 == b13
            &&& (v >> 8u128) as u8 == b14
            &&& v as u8 == b15
            &&& (v == 0 <==> (b0 | b1 | b2 | b3 | b4 | b5 | b6 | b7 | b8 | b9 | b10 | b11 | b12
                | b13 | b14 | b15) == 0)
        }),
{
}

proof fn lemma_be16_of_parts(v: u128)
    by (bit_vector)
    ensures
        be16(
            (v >> 120u128) as u8, (v >> 112u128) as u8, (v >> 104u128) as u8,
            (v >> 96u128) as u8, (v >> 88u128) as u8, (v >> 80u128) as u8,
            (v >> 72u128) as u8, (v >> 64u128) as u8, (v >> 56u128) as u8,
            (v >> 48u128) as u8, (v >> 40u128) as u8, (v >> 32u128) as u8,
            (v >> 24u128) as u8, (v >> 16u128) as u8, (v >> 8u128) as u8, v as u8,
        ) == v,
{
}

} // verus!
