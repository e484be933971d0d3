//! What is known of a granted line request, and the value words that go to
//! and come from the kernel for it.

use crate::error::Error;
use crate::event::{as_event_spec, parse_event, raw_event_spec, Event};
use crate::options::{Input, Output};
use crate::values::{
    decode_spec, encode_full, encode_masked, encode_masked_spec, encode_spec, lemma_encode_masked_get,
    low_mask_spec, bit, BitId, LineId, Values, MAX_VALUES,
};
use core::marker::PhantomData;
use vstd::prelude::*;

verus! {

/// The position of `offset` among `lines`: the last one, where the offset
/// is named more than once.
pub open spec fn position_spec(lines: Seq<LineId>, offset: LineId) -> Option<int>
    decreases lines.len(),
{
    if lines.len() == 0 {
        None
    } else if lines.last() == offset {
        Some(lines.len() - 1)
    } else {
        position_spec(lines.drop_last(), offset)
    }
}

/// A position that was found holds the offset; where none was found, no
/// position holds it.
pub proof fn lemma_position(lines: Seq<LineId>, offset: LineId)
    ensures
        match position_spec(lines, offset) {
            Some(i) => 0 <= i < lines.len() && lines[i] == offset,
            None => !lines.contains(offset),
        },
    decreases lines.len(),
{
    if lines.len() > 0 && lines.last() != offset {
        lemma_position(lines.drop_last(), offset);
        if position_spec(lines, offset) is None {
            assert forall|i: int| 0 <= i < lines.len() implies lines[i] != offset by {
                if i < lines.len() - 1 {
                    assert(lines.drop_last()[i] == lines[i]);
                }
            }
        }
    }
}

/// What a set of values read for a request looks like.
pub ghost struct ValuesInfoView {
    pub chip_name: Seq<u8>,
    pub consumer: Seq<u8>,
    pub lines: Seq<LineId>,
}

/// The description of a granted request: the chip, the consumer label and
/// the line offsets. Position `i` of every value sequence of the request
/// belongs to the line `lines[i]`.
///
/// It never names more lines than one request can address.
pub struct ValuesInfo {
    chip_name: Vec<u8>,
    consumer: Vec<u8>,
    lines: Vec<LineId>,
}

impl View for ValuesInfo {
    type V = ValuesInfoView;

    closed spec fn view(&self) -> ValuesInfoView {
        ValuesInfoView {
            chip_name: self.chip_name@,
            consumer: self.consumer@,
            lines: self.lines@,
        }
    }
}

impl ValuesInfo {
    #[verifier::type_invariant]
    spec fn line_count_fits(self) -> bool {
        self.lines@.len() <= 64
    }

    /// Describes a request for `lines` of the chip `chip_name`.
    ///
    /// Fails with [`Error::TooManyValues`] exactly when there are more
    /// lines than one request can address.
    pub fn new(chip_name: &[u8], consumer: &[u8], lines: &[LineId]) -> (r: Result<
        ValuesInfo,
        Error,
    >)
        ensures
            lines@.len() > 64 <==> r is Err,
            r matches Err(e) ==> e == Error::TooManyValues,
            r matches Ok(info) ==> info@ == (ValuesInfoView {
                chip_name: chip_name@,
                consumer: consumer@,
                lines: lines@,
            }),
    {
        if lines.len() > MAX_VALUES {
            return Err(Error::TooManyValues);
        }
        Ok(
            ValuesInfo {
                chip_name: vstd::slice::slice_to_vec(chip_name),
                consumer: vstd::slice::slice_to_vec(consumer),
                lines: vstd::slice::slice_to_vec(lines),
            },
        )
    }

    pub fn chip_name(&self) -> (name: &[u8])
        ensures
            name@ == self@.chip_name,
    {
        self.chip_name.as_slice()
    }

    pub fn consumer(&self) -> (consumer: &[u8])
        ensures
            consumer@ == self@.consumer,
    {
        self.consumer.as_slice()
    }

    /// The line offsets, in the order of the positions.
    pub fn lines(&self) -> (lines: &[LineId])
        ensures
            lines@ == self@.lines,
            lines@.len() <= 64,
    {
        proof {
            use_type_invariant(self);
        }
        self.lines.as_slice()
    }

    /// The position of the line `offset` in the request, if it is part of
    /// it.
    pub fn index(&self, offset: LineId) -> (position: Option<BitId>)
        ensures
            position_spec(self@.lines, offset) is None <==> position is None,
            position matches Some(i) ==> position_spec(self@.lines, offset) == Some(i as int),
    {
        proof {
            use_type_invariant(self);
        }
        let mut i: usize = self.lines.len();
        proof {
            assert(self.lines@.take(i as int) =~= self.lines@);
        }
        while i > 0
            invariant
                i <= self.lines@.len() <= 64,
                position_spec(self.lines@, offset) == position_spec(
                    self.lines@.take(i as int),
                    offset,
                ),
            decreases i,
        {
            proof {
                assert(self.lines@.take(i as int).drop_last() =~= self.lines@.take(i - 1));
            }
            if self.lines[i - 1] == offset {
                return Some((i - 1) as BitId);
            }
            i -= 1;
        }
        None
    }
}

/// A granted request for lines in direction `D`.
///
/// Lines of either direction can be read; only outputs can be set, and
/// only inputs report edges.
pub struct Lines<D> {
    dir: PhantomData<D>,
    info: ValuesInfo,
}

impl<D> View for Lines<D> {
    type V = ValuesInfoView;

    closed spec fn view(&self) -> ValuesInfoView {
        self.info@
    }
}

impl<D> Lines<D> {
    pub(crate) fn new(info: ValuesInfo) -> (lines: Lines<D>)
        ensures
            lines@ == info@,
    {
        Lines { dir: PhantomData, info }
    }

    /// The description of the request.
    pub fn info(&self) -> (info: &ValuesInfo)
        ensures
            info@ == self@,
    {
        &self.info
    }

    /// The word pair that asks the kernel for the value of every line of
    /// the request; the value word carries what `buffer` holds.
    ///
    /// Fails with [`Error::LengthMismatch`] exactly when `buffer` does not
    /// have one position for each line.
    pub fn values_request(&self, buffer: &[bool]) -> (r: Result<Values, Error>)
        ensures
            buffer@.len() != self@.lines.len() <==> r is Err,
            r matches Err(e) ==> e == Error::LengthMismatch,
            r matches Ok(values) ==> values == (Values {
                bits: encode_spec(buffer@),
                mask: low_mask_spec(buffer@.len()),
            }),
    {
        let count: usize = self.info.lines().len();
        if buffer.len() != count {
            return Err(Error::LengthMismatch);
        }
        match encode_full(buffer) {
            Ok(values) => Ok(values),
            Err(_) => Err(Error::LengthMismatch),
        }
    }

    /// Stores the values that the kernel reported into `buffer` and hands
    /// the buffer back: position `i` takes bit `i` of `raw_bits`.
    ///
    /// Fails with [`Error::LengthMismatch`] exactly when `buffer` does not
    /// have one position for each line.
    pub fn get_values(&self, raw_bits: u64, buffer: Vec<bool>) -> (r: Result<Vec<bool>, Error>)
        ensures
            buffer@.len() != self@.lines.len() <==> r is Err,
            r matches Err(e) ==> e == Error::LengthMismatch,
            r matches Ok(values) ==> values@ == decode_spec(raw_bits, self@.lines.len()),
    {
        let count: usize = self.info.lines().len();
        if buffer.len() != count {
            return Err(Error::LengthMismatch);
        }
        let mut buffer = buffer;
        let mut i: usize = 0;
        while i < count
            invariant
                i <= count <= 64,
                buffer@.len() == count,
                forall|k: int| 0 <= k < i ==> buffer@[k] == bit(raw_bits, k),
            decreases count - i,
        {
            buffer.set(i, (raw_bits >> (i as u64)) & 1 == 1);
            i += 1;
        }
        proof {
            assert(buffer@ =~= decode_spec(raw_bits, count as nat));
        }
        Ok(buffer)
    }
}

impl Lines<Input> {
    /// Reads one event of the request from the bytes of one read.
    ///
    /// Fails with [`Error::UnexpectedSize`] exactly when `record` does not
    /// have the size of one record; then with [`Error::UnknownLine`] when
    /// the line of the record is not part of the request, else with
    /// [`Error::UnknownEdge`] when the edge is neither rising nor falling.
    pub fn read_event(&self, record: &[u8]) -> (r: Result<Event, Error>)
        ensures
            record@.len() != 48 ==> r == Err::<Event, Error>(Error::UnexpectedSize),
            record@.len() == 48 ==> r == as_event_spec(raw_event_spec(record@), self@.lines),
    {
        match parse_event(record) {
            Ok(raw) => raw.as_event(&self.info),
            Err(e) => Err(e),
        }
    }
}

impl Lines<Output> {
    /// The word pair that sets every line of the request to its value in
    /// `values`.
    ///
    /// Fails with [`Error::LengthMismatch`] exactly when `values` does not
    /// have one position for each line.
    pub fn set_values(&self, values: &[bool]) -> (r: Result<Values, Error>)
        ensures
            values@.len() != self@.lines.len() <==> r is Err,
            r matches Err(e) ==> e == Error::LengthMismatch,
            r matches Ok(packed) ==> packed == (Values {
                bits: encode_spec(values@),
                mask: low_mask_spec(values@.len()),
            }),
    {
        self.values_request(values)
    }

    /// The word pair that sets the lines whose position in `values` holds
    /// a value, and leaves the other lines as they are.
    ///
    /// Fails with [`Error::LengthMismatch`] exactly when `values` does not
    /// have one position for each line.
    pub fn set_values_masked(&self, values: &[Option<bool>]) -> (r: Result<Values, Error>)
        ensures
            values@.len() != self@.lines.len() <==> r is Err,
            r matches Err(e) ==> e == Error::LengthMismatch,
            r matches Ok(packed) ==> packed == encode_masked_spec(values@),
    {
        let count: usize = self.info.lines().len();
        if values.len() != count {
            return Err(Error::LengthMismatch);
        }
        match encode_masked(values) {
            Ok(packed) => Ok(packed),
            Err(_) => Err(Error::LengthMismatch),
        }
    }
}

/// A masked update changes the state of exactly the lines whose position
/// holds a value: each of them takes its value, and every other line keeps
/// the state it had.
pub proof fn lemma_masked_update(values: Seq<Option<bool>>, state: u64, j: int)
    requires
        values.len() <= 64,
    ensures
        bit(encode_masked_spec(values).apply_spec(state), j) == (if 0 <= j < values.len()
            && values[j] is Some {
            values[j] == Some(true)
        } else {
            bit(state, j)
        }),
{
    lemma_encode_masked_get(values, j);
    encode_masked_spec(values).lemma_apply_bit(state, j);
}

} // verus!
