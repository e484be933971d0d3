//! The packed bitset that carries line values to and from the kernel.
//!
//! Position `i` of a value sequence is bit `i` of a 64-bit word. A masked
//! set carries a second word whose bit `i` says whether position `i` holds
//! a value at all.

use crate::error::Error;
use vstd::prelude::*;

verus! {

/// An offset of a line within a chip.
pub type LineId = u32;

/// A position within a request.
pub type BitId = u8;

/// The most values one request can address.
pub const MAX_VALUES: usize = 64;

/// The number of positions in a packed word.
pub const MAX_BITS: BitId = 64;

/// Whether bit `i` of `word` is set. Positions outside the word hold nothing.
pub open spec fn bit(word: u64, i: int) -> bool {
    0 <= i < 64 && (word >> (i as u64)) & 1 == 1
}

/// The word whose bit `i` is `values[i]`, and whose other bits are clear.
pub open spec fn encode_spec(values: Seq<bool>) -> u64
    decreases values.len(),
{
    if values.len() == 0 {
        0
    } else {
        let rest = encode_spec(values.drop_last());
        if values.last() && values.len() <= 64 {
            rest | (1u64 << ((values.len() - 1) as u64))
        } else {
            rest
        }
    }
}

/// The first `length` bits of `raw_bits`, lowest first.
pub open spec fn decode_spec(raw_bits: u64, length: nat) -> Seq<bool> {
    Seq::new(length, |i: int| bit(raw_bits, i))
}

proof fn lemma_or_shift(x: u64, i: u64, j: u64)
    by (bit_vector)
    requires
        i < 64,
        j < 64,
    ensures
        ((x | (1u64 << i)) >> j) & 1 == 1 <==> ((x >> j) & 1 == 1 || i == j),
{
}

proof fn lemma_clear_shift(x: u64, i: u64, j: u64)
    by (bit_vector)
    requires
        i < 64,
        j < 64,
    ensures
        ((x & !(1u64 << i)) >> j) & 1 == 1 <==> ((x >> j) & 1 == 1 && i != j),
{
}

proof fn lemma_zero_shift(j: u64)
    by (bit_vector)
    requires
        j < 64,
    ensures
        (0u64 >> j) & 1 == 0,
{
}

proof fn lemma_low_shift(x: u64, n: u64, j: u64)
    by (bit_vector)
    requires
        n < 64,
        j < 64,
    ensures
        ((x & (((1u64 << n) - 1) as u64)) >> j) & 1 == 1 <==> ((x >> j) & 1 == 1 && j < n),
{
}

proof fn lemma_merge_shift(state: u64, bits: u64, mask: u64, j: u64)
    by (bit_vector)
    requires
        j < 64,
    ensures
        (((state & !mask) | (bits & mask)) >> j) & 1 == 1 <==> (if (mask >> j) & 1 == 1 {
            (bits >> j) & 1 == 1
        } else {
            (state >> j) & 1 == 1
        }),
{
}

/// Setting bit `i` changes bit `i` and no other.
pub proof fn lemma_bit_set(word: u64, i: int, j: int)
    requires
        0 <= i < 64,
    ensures
        bit(word | (1u64 << (i as u64)), j) == (bit(word, j) || i == j),
{
    if 0 <= j < 64 {
        lemma_or_shift(word, i as u64, j as u64);
    }
}

/// Clearing bit `i` changes bit `i` and no other.
pub proof fn lemma_bit_clear(word: u64, i: int, j: int)
    requires
        0 <= i < 64,
    ensures
        bit(word & !(1u64 << (i as u64)), j) == (bit(word, j) && i != j),
{
    if 0 <= j < 64 {
        lemma_clear_shift(word, i as u64, j as u64);
    }
}

/// Bit `i` of an encoded word is `values[i]`; the bits past the end are clear.
pub proof fn lemma_encode_bit(values: Seq<bool>, i: int)
    requires
        values.len() <= 64,
    ensures
        bit(encode_spec(values), i) == (0 <= i < values.len() && values[i]),
    decreases values.len(),
{
    if values.len() == 0 {
        if 0 <= i < 64 {
            lemma_zero_shift(i as u64);
        }
    } else {
        let rest = values.drop_last();
        lemma_encode_bit(rest, i);
        if values.last() {
            lemma_bit_set(encode_spec(rest), values.len() - 1, i);
        }
    }
}

/// Decoding what was encoded gives the values back, for every sequence
/// that fits in a word.
pub proof fn lemma_decode_encode(values: Seq<bool>)
    requires
        values.len() <= 64,
    ensures
        decode_spec(encode_spec(values), values.len()) == values,
{
    assert forall|i: int| 0 <= i < values.len() implies bit(encode_spec(values), i)
        == values[i] by {
        lemma_encode_bit(values, i);
    }
    assert(decode_spec(encode_spec(values), values.len()) =~= values);
}

/// Encoding what was decoded gives back the low `length` bits of the word.
pub proof fn lemma_encode_decode(raw_bits: u64, length: nat, i: int)
    requires
        length <= 64,
    ensures
        bit(encode_spec(decode_spec(raw_bits, length)), i) == (i < length && bit(raw_bits, i)),
{
    lemma_encode_bit(decode_spec(raw_bits, length), i);
}

/// Packs a sequence of values into a word, position `i` into bit `i`.
///
/// Fails with [`Error::TooManyValues`] exactly when the sequence is longer
/// than a word has bits.
pub fn encode(values: &[bool]) -> (r: Result<u64, Error>)
    ensures
        values@.len() > 64 <==> r is Err,
        r is Err ==> r == Err::<u64, Error>(Error::TooManyValues),
        r matches Ok(bits) ==> bits == encode_spec(values@),
        r matches Ok(bits) ==> forall|i: int|
            #[trigger] bit(bits, i) == (0 <= i < values@.len() && values@[i]),
{
    let n: usize = values.len();
    if n > MAX_VALUES {
        return Err(Error::TooManyValues);
    }
    let mut bits: u64 = 0;
    let mut i: usize = 0;
    while i < n
        invariant
            n == values@.len(),
            i <= n <= 64,
            bits == encode_spec(values@.take(i as int)),
        decreases n - i,
    {
        proof {
            assert(values@.take(i + 1).drop_last() =~= values@.take(i as int));
        }
        if values[i] {
            bits = bits | (1u64 << (i as u64));
        }
        i += 1;
    }
    proof {
        assert(values@.take(n as int) =~= values@);
        assert forall|i: int| #[trigger]
            bit(bits, i) == (0 <= i < values@.len() && values@[i]) by {
            lemma_encode_bit(values@, i);
        }
    }
    Ok(bits)
}

/// Unpacks the first `length` bits of a word, lowest bit first.
///
/// Fails with [`Error::TooManyValues`] exactly when `length` is more than a
/// word has bits.
pub fn decode(raw_bits: u64, length: usize) -> (r: Result<Vec<bool>, Error>)
    ensures
        length > 64 <==> r is Err,
        r is Err ==> r == Err::<Vec<bool>, Error>(Error::TooManyValues),
        r matches Ok(values) ==> values@ == decode_spec(raw_bits, length as nat),
{
    if length > MAX_VALUES {
        return Err(Error::TooManyValues);
    }
    let mut values: Vec<bool> = Vec::new();
    let mut i: usize = 0;
    while i < length
        invariant
            i <= length <= 64,
            values@ == decode_spec(raw_bits, i as nat),
        decreases length - i,
    {
        let value = (raw_bits >> (i as u64)) & 1 == 1;
        values.push(value);
        proof {
            assert(values@ =~= decode_spec(raw_bits, (i + 1) as nat));
        }
        i += 1;
    }
    Ok(values)
}

/// The word whose lowest `n` bits are set and whose other bits are clear.
pub open spec fn low_mask_spec(n: nat) -> u64 {
    if n >= 64 {
        u64::MAX
    } else {
        ((1u64 << (n as u64)) - 1) as u64
    }
}

proof fn lemma_shift_positive(n: u64)
    by (bit_vector)
    requires
        n < 64,
    ensures
        (1u64 << n) >= 1,
{
}

proof fn lemma_full_shift(j: u64)
    by (bit_vector)
    requires
        j < 64,
    ensures
        (0xffff_ffff_ffff_ffffu64 >> j) & 1 == 1,
{
}

proof fn lemma_and_shift(x: u64, y: u64, j: u64)
    by (bit_vector)
    requires
        j < 64,
    ensures
        ((x & y) >> j) & 1 == 1 <==> ((x >> j) & 1 == 1 && (y >> j) & 1 == 1),
{
}

/// Bit `j` of a low mask is set exactly when `j` is below its width.
pub proof fn lemma_low_mask_bit(n: nat, j: int)
    requires
        n <= 64,
    ensures
        bit(low_mask_spec(n), j) == (0 <= j < n),
{
    if 0 <= j < 64 {
        if n >= 64 {
            lemma_full_shift(j as u64);
        } else {
            lemma_full_shift(j as u64);
            lemma_low_shift(u64::MAX, n as u64, j as u64);
            let m = low_mask_spec(n);
            assert(u64::MAX & m == m) by (bit_vector);
        }
    }
}

/// The word whose lowest `n` bits are set: every bit, where `n` is the
/// width of the word or more.
pub fn low_mask(n: usize) -> (mask: u64)
    ensures
        mask == low_mask_spec(n as nat),
{
    if n >= 64 {
        u64::MAX
    } else {
        proof {
            lemma_shift_positive(n as u64);
        }
        (1u64 << (n as u64)) - 1
    }
}

/// A set of values in which each position may or may not hold a value.
///
/// Bit `i` of `mask` says whether position `i` holds a value; bit `i` of
/// `bits` is that value.
#[derive(Clone, Copy, Debug, PartialEq, Eq, Structural)]
pub struct Values {
    pub bits: u64,
    pub mask: u64,
}

impl Values {
    /// What position `i` holds.
    pub open spec fn get_spec(self, i: int) -> Option<bool> {
        if bit(self.mask, i) {
            Some(bit(self.bits, i))
        } else {
            None
        }
    }

    /// The set with position `id` replaced by `val`; unchanged where `id`
    /// is outside the word.
    pub open spec fn set_spec(self, id: BitId, val: Option<bool>) -> Values {
        if id >= 64 {
            self
        } else {
            let flag = 1u64 << (id as u64);
            match val {
                Some(true) => Values { bits: self.bits | flag, mask: self.mask | flag },
                Some(false) => Values { bits: self.bits & !flag, mask: self.mask | flag },
                None => Values { bits: self.bits & !flag, mask: self.mask & !flag },
            }
        }
    }

    /// The set with every position from `len` up emptied.
    pub open spec fn truncate_spec(self, len: BitId) -> Values {
        Values {
            bits: self.bits & low_mask_spec(len as nat),
            mask: self.mask & low_mask_spec(len as nat),
        }
    }

    /// The line state after this set was written over `state`: a position
    /// that holds a value takes it, every other position keeps its bit.
    pub open spec fn apply_spec(self, state: u64) -> u64 {
        (state & !self.mask) | (self.bits & self.mask)
    }

    /// The set in which no position holds a value.
    pub fn new() -> (values: Values)
        ensures
            values == (Values { bits: 0, mask: 0 }),
    {
        Values { bits: 0, mask: 0 }
    }

    /// The value at position `id`, if the position holds one.
    pub fn get(&self, id: BitId) -> (val: Option<bool>)
        ensures
            val == self.get_spec(id as int),
    {
        if id >= MAX_BITS {
            return None;
        }
        let flag: u64 = 1u64 << (id as u64);
        proof {
            let m = self.mask;
            let b = self.bits;
            let k = id as u64;
            assert((m & (1u64 << k) != 0) <==> ((m >> k) & 1 == 1)) by (bit_vector)
                requires
                    k < 64,
            ;
            assert((b & (1u64 << k) != 0) <==> ((b >> k) & 1 == 1)) by (bit_vector)
                requires
                    k < 64,
            ;
        }
        if self.mask & flag == 0 {
            return None;
        }
        Some(self.bits & flag != 0)
    }

    /// Replaces what position `id` holds. A position outside the word is
    /// ignored.
    pub fn set(&mut self, id: BitId, val: Option<bool>)
        ensures
            *final(self) == old(self).set_spec(id, val),
    {
        if id >= MAX_BITS {
            return ;
        }
        let flag: u64 = 1u64 << (id as u64);
        match val {
            Some(true) => {
                self.mask = self.mask | flag;
                self.bits = self.bits | flag;
            },
            Some(false) => {
                self.mask = self.mask | flag;
                self.bits = self.bits & !flag;
            },
            None => {
                self.mask = self.mask & !flag;
                self.bits = self.bits & !flag;
            },
        }
    }

    /// Empties every position from `len` up.
    pub fn truncate(&mut self, len: BitId)
        ensures
            *final(self) == old(self).truncate_spec(len),
    {
        if len < MAX_BITS {
            let keep = low_mask(len as usize);
            self.bits = self.bits & keep;
            self.mask = self.mask & keep;
        } else {
            proof {
                let b = self.bits;
                let m = self.mask;
                assert(b & u64::MAX == b) by (bit_vector);
                assert(m & u64::MAX == m) by (bit_vector);
            }
        }
    }

    /// The line state that results from writing this set over `state`.
    pub fn apply(&self, state: u64) -> (next: u64)
        ensures
            next == self.apply_spec(state),
    {
        (state & !self.mask) | (self.bits & self.mask)
    }

    /// After `set`, position `id` holds `val` and every other position
    /// holds what it held before.
    pub proof fn lemma_set_get(self, id: BitId, val: Option<bool>, j: int)
        ensures
            self.set_spec(id, val).get_spec(j) == (if j == id && id < 64 {
                val
            } else {
                self.get_spec(j)
            }),
    {
        if id < 64 {
            lemma_bit_set(self.bits, id as int, j);
            lemma_bit_set(self.mask, id as int, j);
            lemma_bit_clear(self.bits, id as int, j);
            lemma_bit_clear(self.mask, id as int, j);
        }
    }

    /// After `truncate`, a position below `len` holds what it held before
    /// and every other position is empty.
    pub proof fn lemma_truncate_get(self, len: BitId, j: int)
        ensures
            self.truncate_spec(len).get_spec(j) == (if j < len {
                self.get_spec(j)
            } else {
                None
            }),
    {
        if 0 <= j < 64 {
            let n: nat = if len >= 64 { 64 } else { len as nat };
            assert(low_mask_spec(len as nat) == low_mask_spec(n));
            lemma_low_mask_bit(n, j);
            lemma_and_shift(self.bits, low_mask_spec(n), j as u64);
            lemma_and_shift(self.mask, low_mask_spec(n), j as u64);
        }
    }

    /// A masked write changes exactly the positions that hold a value: each
    /// of them takes its value, and every other line keeps its state.
    pub proof fn lemma_apply_bit(self, state: u64, j: int)
        ensures
            bit(self.apply_spec(state), j) == (match self.get_spec(j) {
                Some(value) => value,
                None => bit(state, j),
            }),
    {
        if 0 <= j < 64 {
            lemma_merge_shift(state, self.bits, self.mask, j as u64);
        }
    }
}

/// The sequence that says of each position whether it holds a value.
pub open spec fn present(values: Seq<Option<bool>>) -> Seq<bool> {
    Seq::new(values.len(), |i: int| values[i] is Some)
}

/// The sequence that says of each position whether it holds `true`.
pub open spec fn raised(values: Seq<Option<bool>>) -> Seq<bool> {
    Seq::new(values.len(), |i: int| values[i] == Some(true))
}

/// The masked set that holds `values[i]` at each position `i`.
pub open spec fn encode_masked_spec(values: Seq<Option<bool>>) -> Values {
    Values { bits: encode_spec(raised(values)), mask: encode_spec(present(values)) }
}

/// Position `i` of an encoded masked set holds `values[i]`; the positions
/// past the end are empty.
pub proof fn lemma_encode_masked_get(values: Seq<Option<bool>>, i: int)
    requires
        values.len() <= 64,
    ensures
        encode_masked_spec(values).get_spec(i) == (if 0 <= i < values.len() {
            values[i]
        } else {
            None
        }),
{
    lemma_encode_bit(raised(values), i);
    lemma_encode_bit(present(values), i);
}

/// Packs a sequence in which a position may be left out into the value
/// word and the presence word.
///
/// Fails with [`Error::TooManyValues`] exactly when the sequence is longer
/// than a word has bits.
pub fn encode_masked(values: &[Option<bool>]) -> (r: Result<Values, Error>)
    ensures
        values@.len() > 64 <==> r is Err,
        r is Err ==> r == Err::<Values, Error>(Error::TooManyValues),
        r matches Ok(packed) ==> packed == encode_masked_spec(values@),
        r matches Ok(packed) ==> forall|i: int|
            #[trigger] packed.get_spec(i) == (if 0 <= i < values@.len() {
                values@[i]
            } else {
                None
            }),
{
    let n: usize = values.len();
    if n > MAX_VALUES {
        return Err(Error::TooManyValues);
    }
    let mut bits: u64 = 0;
    let mut mask: u64 = 0;
    let mut i: usize = 0;
    while i < n
        invariant
            n == values@.len(),
            i <= n <= 64,
            bits == encode_spec(raised(values@.take(i as int))),
            mask == encode_spec(present(values@.take(i as int))),
        decreases n - i,
    {
        proof {
            assert(raised(values@.take(i + 1)).drop_last() =~= raised(values@.take(i as int)));
            assert(present(values@.take(i + 1)).drop_last() =~= present(values@.take(i as int)));
        }
        match values[i] {
            Some(true) => {
                mask = mask | (1u64 << (i as u64));
                bits = bits | (1u64 << (i as u64));
            },
            Some(false) => {
                mask = mask | (1u64 << (i as u64));
            },
            None => {},
        }
        i += 1;
    }
    let packed = Values { bits, mask };
    proof {
        assert(values@.take(n as int) =~= values@);
        assert forall|i: int| #[trigger]
            packed.get_spec(i) == (if 0 <= i < values@.len() {
                values@[i]
            } else {
                None
            }) by {
            lemma_encode_masked_get(values@, i);
        }
    }
    Ok(packed)
}

/// Packs a sequence of values into a masked set in which every position
/// of the sequence holds its value.
///
/// Fails with [`Error::TooManyValues`] exactly when the sequence is longer
/// than a word has bits.
pub fn encode_full(values: &[bool]) -> (r: Result<Values, Error>)
    ensures
        values@.len() > 64 <==> r is Err,
        r is Err ==> r == Err::<Values, Error>(Error::TooManyValues),
        r matches Ok(packed) ==> packed == (Values {
            bits: encode_spec(values@),
            mask: low_mask_spec(values@.len()),
        }),
{
    match encode(values) {
        Ok(bits) => Ok(Values { bits, mask: low_mask(values.len()) }),
        Err(e) => Err(e),
    }
}

} // verus!
