use vstd::prelude::*;

verus! {

/// The number of bytes a chunk of eight bits occupies at chunk index `c`
/// of a buffer of `len` bits: eight, or whatever the tail holds.
pub open spec fn spec_chunk_len(len: int, c: int) -> int {
    if len - 8 * c >= 8 {
        8
    } else {
        len - 8 * c
    }
}

/// The byte packed from the first `k` bits of the chunk starting at
/// `base`: bit `j` of the chunk lands at position `7 - j`, so a partial
/// tail chunk fills the high bits.
pub open spec fn spec_pack_byte(s: Seq<u8>, base: int, k: int) -> u8
    decreases k,
{
    if k <= 0 {
        0u8
    } else {
        spec_pack_byte(s, base, k - 1) | (s[base + k - 1] << ((8 - k) as u8))
    }
}

/// The word packed from the first `k` bytes of `s`, each byte shifted so
/// the first byte lands highest: byte `idx` is shifted by `len - 1 - idx`.
pub open spec fn spec_pack_word(s: Seq<u8>, k: int) -> u64
    decreases k,
{
    if k <= 0 {
        0u64
    } else {
        spec_pack_word(s, k - 1) | ((s[k - 1] as u64) << ((s.len() - k) as u64))
    }
}

/// Bit packing and unpacking over byte buffers.
pub trait YttriaVectorBitwise: View<V = Seq<u8>> {
    /// Pack each run of eight bits into one byte, first bit highest; a
    /// partial tail run fills the high bits of its byte.
    fn packbits(&self) -> (r: Vec<u8>)
        requires
            self@.len() <= usize::MAX - 8,
        ensures
            r@.len() == (self@.len() + 7) / 8,
            forall|c: int|
                0 <= c < r@.len() ==> r@[c] == spec_pack_byte(
                    self@,
                    8 * c,
                    spec_chunk_len(self@.len() as int, c),
                ),
    ;

    /// Spread each byte into its eight bits, highest first.
    fn unpackbits(&self) -> (r: Vec<u8>)
        requires
            self@.len() <= usize::MAX / 8,
        ensures
            r@.len() == 8 * self@.len(),
            forall|i: int|
                0 <= i < self@.len() ==> r@[8 * i] == (self@[i] >> 7u8) & 1u8 && r@[8 * i + 1] == (
                self@[i] >> 6u8) & 1u8 && r@[8 * i + 2] == (self@[i] >> 5u8) & 1u8 && r@[8 * i + 3]
                    == (self@[i] >> 4u8) & 1u8 && r@[8 * i + 4] == (self@[i] >> 3u8) & 1u8 && r@[8
                    * i + 5] == (self@[i] >> 2u8) & 1u8 && r@[8 * i + 6] == (self@[i] >> 1u8) & 1u8
                    && r@[8 * i + 7] == self@[i] & 1u8,
    ;

    /// Pack the buffer of bits into one word, last bit lowest.
    fn pack_into(&self) -> (r: u64)
        requires
            self@.len() <= 64,
        ensures
            r == spec_pack_word(self@, self@.len() as int),
    ;
}

impl YttriaVectorBitwise for Vec<u8> {
    fn packbits(&self) -> (r: Vec<u8>) {
        let n = self.len();
        let mut out: Vec<u8> = Vec::new();
        let mut base: usize = 0;
        while base < n
            invariant
                n == self@.len(),
                n <= usize::MAX - 8,
                base % 8 == 0,
                base == 8 * out@.len(),
                base <= n + 7,
                forall|c: int|
                    0 <= c < out@.len() ==> out@[c] == spec_pack_byte(
                        self@,
                        8 * c,
                        spec_chunk_len(n as int, c),
                    ),
            decreases (if base < n { n as int - base as int } else { 0 }),
        {
            let csize = if n - base >= 8 {
                8
            } else {
                n - base
            };
            let mut b: u8 = 0;
            let mut j: usize = 0;
            while j < csize
                invariant
                    n == self@.len(),
                    base + csize <= n,
                    csize == spec_chunk_len(n as int, (base / 8) as int),
                    csize <= 8,
                    j <= csize,
                    base % 8 == 0,
                    b == spec_pack_byte(self@, base as int, j as int),
                decreases csize - j,
            {
                b = b | (self[base + j] << ((7 - j) as u8));
                j = j + 1;
            }
            out.push(b);
            base = base + 8;
        }
        out
    }

    fn unpackbits(&self) -> (r: Vec<u8>) {
        let n = self.len();
        let mut out: Vec<u8> = Vec::new();
        for i in 0..n
            invariant
                n == self@.len(),
                n <= usize::MAX / 8,
                out@.len() == 8 * i,
                forall|k: int|
                    0 <= k < i ==> out@[8 * k] == (self@[k] >> 7u8) & 1u8 && out@[8 * k + 1] == (
                    self@[k] >> 6u8) & 1u8 && out@[8 * k + 2] == (self@[k] >> 5u8) & 1u8 && out@[8
                        * k + 3] == (self@[k] >> 4u8) & 1u8 && out@[8 * k + 4] == (self@[k] >> 3u8)
                        & 1u8 && out@[8 * k + 5] == (self@[k] >> 2u8) & 1u8 && out@[8 * k + 6] == (
                    self@[k] >> 1u8) & 1u8 && out@[8 * k + 7] == self@[k] & 1u8,
        {
            let x = self[i];
            out.push((x >> 7u8) & 1u8);
            out.push((x >> 6u8) & 1u8);
            out.push((x >> 5u8) & 1u8);
            out.push((x >> 4u8) & 1u8);
            out.push((x >> 3u8) & 1u8);
            out.push((x >> 2u8) & 1u8);
            out.push((x >> 1u8) & 1u8);
            out.push(x & 1u8);
        }
        out
    }

    fn pack_into(&self) -> (r: u64) {
        let n = self.len();
        let mut sum: u64 = 0;
        for idx in 0..n
            invariant
                n == self@.len(),
                n <= 64,
                sum == spec_pack_word(self@, idx as int),
        {
            sum = sum | ((self[idx] as u64) << ((n - 1 - idx) as u64));
        }
        sum
    }
}

} // verus!
