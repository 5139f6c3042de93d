//! An element to transmit: the words that the message RAM is to hold of a frame.

use vstd::prelude::*;
use crate::can::can_node::FrameMode;
use crate::can::frame::DataLenghtCode;
use crate::can::frame::Frame;
use crate::can::frame::MessageId;
use crate::can::frame::MessageIdLenght;
use crate::can::internals::byte_at;
use crate::can::internals::control_word;
use crate::can::internals::data_word;
use crate::can::internals::data_words;
use crate::can::internals::element_words;
use crate::can::internals::id_word;
use crate::can::internals::BRS_BIT;
use crate::can::internals::DLC_SHIFT;
use crate::can::internals::FDF_BIT;
use crate::can::internals::STANDARD_ID_SHIFT;
use crate::can::internals::XTD_BIT;

verus! {

/// The element of a frame that is to be sent.
#[derive(Debug)]
pub struct Tx {
    inner: Vec<u32>,
}

impl View for Tx {
    type V = Seq<u32>;

    closed spec fn view(&self) -> Seq<u32> {
        self.inner@
    }
}

/// Byte `i` of `data`, and 0 behind its end.
fn byte_or_zero(data: &Vec<u8>, i: usize) -> (b: u8)
    ensures
        b == byte_at(data@, i as int),
{
    if i < data.len() {
        data[i]
    } else {
        0
    }
}

impl Tx {
    /// Word 0 of the element of a frame with identifier `id`.
    pub fn message_id_word(id: MessageId) -> (word: u32)
        ensures
            word == id_word(id),
    {
        match id.length {
            MessageIdLenght::Standard => (id.data & 0x7ff) << STANDARD_ID_SHIFT,
            MessageIdLenght::Extended => (id.data & 0x1fff_ffff) | (1u32 << XTD_BIT),
        }
    }

    /// Word 1 of the element of a frame of length `length` and format `mode`.
    pub fn control_word(length: DataLenghtCode, mode: FrameMode) -> (word: u32)
        ensures
            word == control_word(length, mode),
    {
        let brs: u32 = match mode {
            FrameMode::FdLongAndFast => 1u32 << BRS_BIT,
            _ => 0,
        };
        let fdf: u32 = match mode {
            FrameMode::Standard => 0,
            _ => 1u32 << FDF_BIT,
        };
        ((length.to_code() as u32) << DLC_SHIFT) | brs | fdf
    }

    /// The element of `frame`.
    pub fn new(frame: &Frame) -> (tx: Tx)
        ensures
            tx@ == element_words(frame@),
            tx@.len() == 2 + data_words(frame@.data.len() as int),
    {
        let data = frame.data();
        let mut inner: Vec<u32> = Vec::new();
        inner.push(Tx::message_id_word(frame.id()));
        inner.push(Tx::control_word(frame.length(), frame.mode()));
        let count: usize = (data.len() + 3) / 4;
        let mut w: usize = 0;
        while w < count
            invariant
                0 <= w <= count,
                data@.len() <= 64,
                count == data_words(data@.len() as int),
                inner@.len() == 2 + w,
                inner@[0] == id_word(frame@.id),
                inner@[1] == control_word(frame@.length, frame@.mode),
                forall|k: int| 0 <= k < w ==> inner@[2 + k] == data_word(data@, k),
            decreases count - w,
        {
            let b0 = byte_or_zero(data, 4 * w);
            let b1 = byte_or_zero(data, 4 * w + 1);
            let b2 = byte_or_zero(data, 4 * w + 2);
            let b3 = byte_or_zero(data, 4 * w + 3);
            inner.push((b0 as u32) | ((b1 as u32) << 8) | ((b2 as u32) << 16) | ((b3 as u32) << 24));
            w = w + 1;
        }
        assert(inner@ =~= element_words(frame@));
        Tx { inner }
    }

    /// The words of the element, from word 0.
    pub fn words(&self) -> (words: &Vec<u32>)
        ensures
            words@ == self@,
    {
        &self.inner
    }
}

} // verus!
