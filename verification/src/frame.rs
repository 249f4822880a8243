//! Length-prefixed frames: a machine word with the size of the payload, then the payload.

use crate::little_endian::{
    law_decode_encoded_word, law_decoded_digit, law_encode_decoded_word, law_encoded_digit,
    le_bytes, le_value, lemma_le_bytes_len, lemma_le_value_bound, lemma_word_range,
    word_from_le_bytes, word_len, word_to_le_bytes,
};
use vstd::arithmetic::power::pow;
use vstd::prelude::*;
use vstd::slice::{slice_subrange, slice_to_vec};

verus! {

/// What a container holds: the size that the frame announces, and the bytes that came with it.
#[verifier::ext_equal]
pub struct Frame {
    pub size: nat,
    pub data: Seq<u8>,
}

impl Frame {
    /// The size fits in a machine word, and there are no more bytes than it announces.
    ///
    /// There may be fewer: a stream that ends inside a payload yields what it had.
    pub open spec fn wf(self) -> bool {
        &&& self.size <= usize::MAX
        &&& self.data.len() <= self.size
    }

    /// All the announced bytes are there.
    pub open spec fn complete(self) -> bool {
        &&& self.size <= usize::MAX
        &&& self.data.len() == self.size
    }

    /// The frame as it is sent.
    pub open spec fn bytes(self) -> Seq<u8> {
        le_bytes(self.size, word_len()) + self.data
    }
}

/// The frame that holds all of `data`.
pub open spec fn frame_of(data: Seq<u8>) -> Frame {
    Frame { size: data.len(), data }
}

/// The size that a byte sequence announces in its first word.
pub open spec fn announced_size(bytes: Seq<u8>) -> nat {
    le_value(bytes.take(word_len() as int))
}

/// How many payload bytes a stream that delivers `stream` and then ends gives to its first frame.
pub open spec fn payload_len(stream: Seq<u8>) -> nat {
    let rest = (stream.len() - word_len()) as nat;
    if announced_size(stream) <= rest {
        announced_size(stream)
    } else {
        rest
    }
}

/// The first frame of a stream that delivers `stream` and then ends, and what follows it.
pub open spec fn read_frame(stream: Seq<u8>) -> Option<(Frame, Seq<u8>)> {
    if stream.len() < word_len() {
        None
    } else {
        let end = (word_len() + payload_len(stream)) as int;
        Some(
            (
                Frame {
                    size: announced_size(stream),
                    data: stream.subrange(word_len() as int, end),
                },
                stream.skip(end),
            ),
        )
    }
}

/// The frame at the beginning of `bytes`, all of whose payload is there.
pub open spec fn unpack(bytes: Seq<u8>) -> Option<Frame> {
    if bytes.len() < word_len() {
        None
    } else {
        Some(
            Frame {
                size: announced_size(bytes),
                data: bytes.subrange(
                    word_len() as int,
                    (word_len() + announced_size(bytes)) as int,
                ),
            },
        )
    }
}

/// How many bytes a frame lacks of which `delivered` has arrived: before its size is known, those
/// of the size; after that, those of the payload.
pub open spec fn missing(delivered: Seq<u8>) -> nat {
    if delivered.len() < word_len() {
        (word_len() - delivered.len()) as nat
    } else {
        (announced_size(delivered) - payload_len(delivered)) as nat
    }
}

/// The bytes of several frames, one after the other.
pub open spec fn wire(frames: Seq<Frame>) -> Seq<u8>
    decreases frames.len(),
{
    if frames.len() == 0 {
        Seq::empty()
    } else {
        frames[0].bytes() + wire(frames.drop_first())
    }
}

/// The first `count` frames of a stream, and what follows them.
pub open spec fn read_frames(stream: Seq<u8>, count: nat) -> Option<(Seq<Frame>, Seq<u8>)>
    decreases count,
{
    if count == 0 {
        Some((Seq::empty(), stream))
    } else {
        match read_frame(stream) {
            Some((first, rest)) => match read_frames(rest, (count - 1) as nat) {
                Some((others, end)) => Some((seq![first] + others, end)),
                None => None,
            },
            None => None,
        }
    }
}

/// The first word of a frame's bytes announces the frame's size.
proof fn lemma_announced(frame: Frame, rest: Seq<u8>)
    requires
        frame.size <= usize::MAX,
    ensures
        (frame.bytes() + rest).take(word_len() as int) == le_bytes(frame.size, word_len()),
        announced_size(frame.bytes() + rest) == frame.size,
        frame.bytes().len() == word_len() + frame.data.len(),
{
    lemma_word_range();
    lemma_le_bytes_len(frame.size, word_len());
    law_decode_encoded_word(frame.size, word_len());
    assert((frame.bytes() + rest).take(word_len() as int) =~= le_bytes(frame.size, word_len()));
}

/// A frame that was sent is read back unchanged, and what follows it is left in the stream.
///
/// A frame with less data than it announces must be the last thing in its stream: the reader
/// would take what follows for the missing data.
pub proof fn law_read_back(frame: Frame, rest: Seq<u8>)
    requires
        frame.wf(),
        frame.complete() || rest.len() == 0,
    ensures
        read_frame(frame.bytes() + rest) == Some((frame, rest)),
{
    let stream = frame.bytes() + rest;
    let end = (word_len() + frame.data.len()) as int;
    lemma_announced(frame, rest);
    assert(stream.subrange(word_len() as int, end) =~= frame.data);
    assert(stream.skip(end) =~= rest);
}

/// Frames that were sent one after the other are read back in the same order.
pub proof fn law_read_back_in_order(frames: Seq<Frame>, rest: Seq<u8>)
    requires
        forall|i: int| 0 <= i < frames.len() ==> (#[trigger] frames[i]).wf(),
        forall|i: int|
            0 <= i < frames.len() ==> (#[trigger] frames[i]).complete() || (i == frames.len() - 1
                && rest.len() == 0),
    ensures
        read_frames(wire(frames) + rest, frames.len()) == Some((frames, rest)),
    decreases frames.len(),
{
    if frames.len() == 0 {
        assert(wire(frames) + rest =~= rest);
        assert(frames =~= Seq::empty());
    } else {
        let others = frames.drop_first();
        assert(wire(frames) + rest =~= frames[0].bytes() + (wire(others) + rest));
        if !frames[0].complete() {
            assert(wire(others) + rest =~= Seq::empty());
        }
        law_read_back(frames[0], wire(others) + rest);
        law_read_back_in_order(others, rest);
        assert(seq![frames[0]] + others =~= frames);
    }
}

/// Packing a whole frame into one vector and unpacking it gives the frame back, whatever follows it
/// in the vector.
pub proof fn law_unpack_packed(frame: Frame, rest: Seq<u8>)
    requires
        frame.complete(),
    ensures
        word_len() + announced_size(frame.bytes() + rest) == frame.bytes().len(),
        unpack(frame.bytes() + rest) == Some(frame),
{
    lemma_announced(frame, rest);
    assert((frame.bytes() + rest).subrange(word_len() as int, frame.bytes().len() as int)
        =~= frame.data);
}

/// The size that `bytes` announces fits in a machine word, and is written as their first word.
proof fn lemma_head(bytes: Seq<u8>)
    requires
        bytes.len() >= word_len(),
    ensures
        announced_size(bytes) <= usize::MAX,
        le_bytes(announced_size(bytes), word_len()) == bytes.take(word_len() as int),
{
    let head = bytes.take(word_len() as int);
    lemma_word_range();
    lemma_le_value_bound(head);
    law_encode_decoded_word(head);
}

/// A frame that was read is sent again as the bytes that it was read from: together with what was
/// left in the stream they are the stream.
pub proof fn law_send_again(stream: Seq<u8>, frame: Frame, rest: Seq<u8>)
    requires
        read_frame(stream) == Some((frame, rest)),
    ensures
        frame.wf(),
        frame.complete() || rest.len() == 0,
        frame.bytes() + rest == stream,
{
    lemma_head(stream);
    lemma_le_bytes_len(frame.size, word_len());
    assert(frame.bytes() + rest =~= stream);
}

/// A frame that was unpacked is packed again into the bytes that it was unpacked from.
pub proof fn law_pack_unpacked(bytes: Seq<u8>, frame: Frame)
    requires
        unpack(bytes) == Some(frame),
        word_len() + announced_size(bytes) <= bytes.len(),
    ensures
        frame.complete(),
        frame.bytes() == bytes.take((word_len() + frame.size) as int),
{
    lemma_head(bytes);
    lemma_le_bytes_len(frame.size, word_len());
    assert(frame.bytes() =~= bytes.take((word_len() + frame.size) as int));
}

/// The bytes of a whole frame do not begin with those of another: a reader knows where a frame
/// ends.
pub proof fn law_frames_are_prefix_free(a: Frame, b: Frame)
    requires
        a.complete(),
        b.complete(),
        a.bytes().is_prefix_of(b.bytes()),
    ensures
        a == b,
{
    let rest = b.bytes().skip(a.bytes().len() as int);
    assert(a.bytes() + rest =~= b.bytes() + Seq::<u8>::empty());
    law_read_back(a, rest);
    law_read_back(b, Seq::empty());
}

/// A stream that ends early loses the end of the payload but keeps the announced size; one that
/// ends inside the size has no frame.
pub proof fn law_read_truncated(frame: Frame, kept: nat)
    requires
        frame.wf(),
        kept <= frame.bytes().len(),
    ensures
        kept < word_len() ==> read_frame(frame.bytes().take(kept as int)) is None,
        kept >= word_len() ==> read_frame(frame.bytes().take(kept as int)) == Some(
            (
                Frame { size: frame.size, data: frame.data.take(kept - word_len()) },
                Seq::<u8>::empty(),
            ),
        ),
{
    lemma_announced(frame, Seq::empty());
    assert(frame.bytes() + Seq::<u8>::empty() =~= frame.bytes());
    let stream = frame.bytes().take(kept as int);
    if kept >= word_len() {
        assert(stream.take(word_len() as int) =~= frame.bytes().take(word_len() as int));
        assert(stream.subrange(word_len() as int, kept as int) =~= frame.data.take(
            kept - word_len(),
        ));
        assert(stream.skip(kept as int) =~= Seq::empty());
    }
}

/// Asking a stream first for the size and then for the rest takes exactly one frame from it.
pub proof fn law_asks_for_one_frame(frame: Frame)
    requires
        frame.wf(),
    ensures
        missing(Seq::empty()) == word_len(),
        missing(frame.bytes().take(word_len() as int)) == frame.size,
        missing(frame.bytes()) == frame.size - frame.data.len(),
        frame.bytes().len() == word_len() + frame.data.len(),
{
    lemma_announced(frame, Seq::empty());
    lemma_word_range();
    assert(frame.bytes() + Seq::<u8>::empty() =~= frame.bytes());
    let head = frame.bytes().take(word_len() as int);
    assert(head.take(word_len() as int) =~= head);
}

/// Different containers have different bytes.
pub proof fn law_bytes_tell_apart(a: Frame, b: Frame)
    requires
        a.wf(),
        b.wf(),
        a.bytes() == b.bytes(),
    ensures
        a == b,
{
    lemma_announced(a, Seq::empty());
    lemma_announced(b, Seq::empty());
    assert(a.data =~= a.bytes().skip(word_len() as int));
    assert(b.data =~= b.bytes().skip(word_len() as int));
}

/// A container for some data announces the length of the data and holds all of it. A container is
/// valid when its size fits in a machine word and covers its data, and whole when it has all the
/// data that it announces.
pub proof fn law_container_holds_all(data: Seq<u8>, frame: Frame)
    ensures
        frame_of(data).size == data.len(),
        frame_of(data).data == data,
        frame.wf() <==> frame.size <= usize::MAX && frame.data.len() <= frame.size,
        frame.complete() <==> frame.size <= usize::MAX && frame.data.len() == frame.size,
{
}

/// A frame is sent as its size in base 256, one digit to a byte and the lowest first, followed by
/// its data byte for byte.
pub proof fn law_frame_layout(frame: Frame, i: nat)
    requires
        frame.size <= usize::MAX,
    ensures
        frame.bytes().len() == word_len() + frame.data.len(),
        i < word_len() ==> frame.bytes()[i as int] == (frame.size as int / pow(256, i)) % 256,
        word_len() <= i < frame.bytes().len() ==> frame.bytes()[i as int] == frame.data[i
            - word_len()],
{
    lemma_le_bytes_len(frame.size, word_len());
    if i < word_len() {
        law_encoded_digit(frame.size, word_len(), i);
    }
}

/// The size that bytes announce is made of the first word's bytes as its digits in base 256, the
/// lowest first.
pub proof fn law_announced_digits(bytes: Seq<u8>, i: nat)
    requires
        i < word_len() <= bytes.len(),
    ensures
        (announced_size(bytes) as int / pow(256, i)) % 256 == bytes[i as int],
        announced_size(bytes) <= usize::MAX,
{
    lemma_head(bytes);
    law_decoded_digit(bytes.take(word_len() as int), i);
}

/// Reading takes a size, whose digits are the bytes of the first word, then as many bytes as the
/// size says or the stream still has, and leaves everything after them in the stream. Only a stream
/// that is too short for a size has no frame.
pub proof fn law_reading(stream: Seq<u8>, i: nat)
    ensures
        read_frame(stream) is None <==> stream.len() < word_len(),
        read_frame(stream) matches Some((frame, rest)) ==> {
            let left = stream.len() - word_len();
            &&& frame.size <= usize::MAX
            &&& i < word_len() ==> (frame.size as int / pow(256, i)) % 256 == stream[i as int]
            &&& frame.size <= left ==> frame.data.len() == frame.size
            &&& frame.size >= left ==> frame.data.len() == left
            &&& i < frame.data.len() ==> frame.data[i as int] == stream[(word_len() + i) as int]
            &&& rest.len() == left - frame.data.len()
            &&& i < rest.len() ==> rest[i as int] == stream[(word_len() + frame.data.len() + i) as int]
        },
{
    if stream.len() >= word_len() {
        lemma_head(stream);
        if i < word_len() {
            law_announced_digits(stream, i);
        }
    }
}

/// Unpacking takes a size, whose digits are the bytes of the first word, and then as many bytes as
/// the size says. Only bytes that are too few for a size hold no frame.
pub proof fn law_unpacking(bytes: Seq<u8>, i: nat)
    requires
        bytes.len() >= word_len() ==> word_len() + announced_size(bytes) <= bytes.len(),
    ensures
        unpack(bytes) is None <==> bytes.len() < word_len(),
        unpack(bytes) matches Some(frame) ==> {
            &&& frame.size <= usize::MAX
            &&& i < word_len() ==> (frame.size as int / pow(256, i)) % 256 == bytes[i as int]
            &&& frame.data.len() == frame.size
            &&& i < frame.size ==> frame.data[i as int] == bytes[(word_len() + i) as int]
        },
{
    if bytes.len() >= word_len() {
        lemma_head(bytes);
        if i < word_len() {
            law_announced_digits(bytes, i);
        }
    }
}

/// As many bytes are asked for as are lacking: first those that make up the size, and then those
/// that make up the payload that it announces.
pub proof fn law_asks_for_what_is_lacking(delivered: Seq<u8>)
    ensures
        delivered.len() < word_len() ==> delivered.len() + missing(delivered) == word_len(),
        word_len() <= delivered.len() < word_len() + announced_size(delivered) ==> delivered.len()
            + missing(delivered) == word_len() + announced_size(delivered),
        delivered.len() >= word_len() + announced_size(delivered) ==> missing(delivered) == 0,
{
}

/// Why no frame could be read.
#[derive(Debug, Clone, Copy, PartialEq, Eq, Structural)]
pub enum FrameError {
    /// The stream ended before the size was complete.
    UnexpectedEof,
}

/// A payload with the size that announces it.
#[derive(Debug)]
pub struct SerializedDataContainer {
    size: usize,
    data: Vec<u8>,
}

impl View for SerializedDataContainer {
    type V = Frame;

    closed spec fn view(&self) -> Frame {
        Frame { size: self.size as nat, data: self.data@ }
    }
}

impl SerializedDataContainer {
    /// A container for a copy of `v`.
    pub fn new(v: &[u8]) -> (res: Self)
        ensures
            res@ == frame_of(v@),
            res@.complete(),
    {
        let data: Vec<u8> = slice_to_vec(v);
        Self { size: v.len(), data }
    }

    /// The frame as it is sent: the size as a little-endian machine word, then the payload.
    pub fn to_one_vec(&self) -> (res: Vec<u8>)
        ensures
            res@ == self@.bytes(),
    {
        let mut ret: Vec<u8> = Vec::new();
        let mut size: Vec<u8> = word_to_le_bytes(self.size);
        let mut data: Vec<u8> = self.data.clone();
        assert(data@ =~= self.data@);
        ret.append(&mut size);
        ret.append(&mut data);
        ret
    }

    /// How many bytes must still be asked of a stream that has delivered `delivered` of a frame:
    /// first the rest of the size, then the rest of the payload.
    pub fn bytes_wanted(delivered: &[u8]) -> (wanted: usize)
        ensures
            wanted == missing(delivered@),
    {
        let word: usize = core::mem::size_of::<usize>();
        if delivered.len() < word {
            word - delivered.len()
        } else {
            let size: usize = word_from_le_bytes(slice_subrange(delivered, 0, word));
            let rest: usize = delivered.len() - word;
            if size <= rest {
                0
            } else {
                size - rest
            }
        }
    }

    /// Takes the first frame from what a stream delivers before it ends.
    ///
    /// A stream that ends inside the size has no frame. A stream that ends inside the payload has
    /// a frame with the payload's beginning.
    pub fn from_reader(reader: &mut &[u8]) -> (res: Result<Self, FrameError>)
        ensures
            match read_frame((*old(reader))@) {
                Some((frame, rest)) => {
                    &&& res matches Ok(container) && container@ == frame
                    &&& (*final(reader))@ == rest
                },
                None => {
                    &&& res matches Err(FrameError::UnexpectedEof)
                    &&& (*final(reader))@ == Seq::<u8>::empty()
                },
            },
            res matches Ok(container) ==> container@.wf(),
    {
        let word: usize = core::mem::size_of::<usize>();
        let stream: &[u8] = *reader;
        let len: usize = stream.len();
        if len < word {
            *reader = slice_subrange(stream, len, len);
            Err(FrameError::UnexpectedEof)
        } else {
            let size: usize = word_from_le_bytes(slice_subrange(stream, 0, word));
            let rest: usize = len - word;
            let taken: usize = if size <= rest {
                size
            } else {
                rest
            };
            let data: Vec<u8> = slice_to_vec(slice_subrange(stream, word, word + taken));
            *reader = slice_subrange(stream, word + taken, len);
            Ok(Self { size, data })
        }
    }

    /// The container that `v` begins with; `None` when `v` is too short for a size.
    pub fn from_one_vec(v: Vec<u8>) -> (res: Option<Self>)
        requires
            v@.len() >= word_len() ==> word_len() + announced_size(v@) <= v@.len(),
        ensures
            match unpack(v@) {
                Some(frame) => {
                    &&& res matches Some(container)
                    &&& container@ == frame
                    &&& container@.complete()
                },
                None => res is None,
            },
    {
        let word: usize = core::mem::size_of::<usize>();
        if v.len() >= word {
            let bytes: &[u8] = v.as_slice();
            let size: usize = word_from_le_bytes(slice_subrange(bytes, 0, word));
            let data: Vec<u8> = slice_to_vec(slice_subrange(bytes, word, word + size));
            Some(Self { size, data })
        } else {
            None
        }
    }

    /// The container for what an encoder made of a value; `None` when the encoder failed.
    pub fn from_serializable_data(serialized: Option<Vec<u8>>) -> (res: Option<Self>)
        ensures
            res is Some <==> serialized is Some,
            res matches Some(container) ==> {
                &&& container@ == frame_of(serialized->0@)
                &&& container@.complete()
            },
    {
        match serialized {
            Some(data) => {
                let size: usize = data.len();
                Some(Self { size, data })
            },
            None => None,
        }
    }

    /// The payload, for a decoder to make a value of.
    pub fn to_serializable_data(&self) -> (res: &[u8])
        ensures
            res@ == self@.data,
    {
        self.data.as_slice()
    }
}

} // verus!
