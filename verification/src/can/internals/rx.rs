//! A received element: the words that were read from the message RAM, and
//! what they say.

use vstd::prelude::*;
use crate::bits::field_of;
use crate::bits::get_bit;
use crate::bits::get_field;
use crate::can::can_node::FrameMode;
use crate::can::frame::DataLenghtCode;
use crate::can::frame::Frame;
use crate::can::frame::MessageId;
use crate::can::frame::MessageIdLenght;
use crate::can::internals::element_frame;
use crate::can::internals::word_at;
use crate::can::internals::word_byte;
use crate::can::internals::word_id;
use crate::can::internals::word_length;
use crate::can::internals::word_mode;
use crate::can::internals::words_payload;
use crate::can::internals::BRS_BIT;
use crate::can::internals::DLC_SHIFT;
use crate::can::internals::FDF_BIT;
use crate::can::internals::STANDARD_ID_SHIFT;
use crate::can::internals::XTD_BIT;

verus! {

/// An element as it was read from a receive buffer or FIFO.
#[derive(Debug)]
pub struct Rx {
    inner: Vec<u32>,
}

impl View for Rx {
    type V = Seq<u32>;

    closed spec fn view(&self) -> Seq<u32> {
        self.inner@
    }
}

impl Rx {
    /// The element whose words are `words`, from word 0. Words that are
    /// missing count as 0.
    pub fn new(words: Vec<u32>) -> (rx: Rx)
        ensures
            rx@ == words@,
    {
        Rx { inner: words }
    }

    /// Word `i` of the element.
    fn word(&self, i: usize) -> (word: u32)
        ensures
            word == word_at(self@, i as int),
    {
        if i < self.inner.len() {
            self.inner[i]
        } else {
            0
        }
    }

    /// The identifier: for a standard one, the identifier field shifted down
    /// by 18 bits, for an extended one the whole field.
    pub fn get_message_id(&self) -> (id: u32)
        ensures
            id == word_id(word_at(self@, 0)).data,
            word_id(word_at(self@, 0)).in_range(),
    {
        let r0 = self.word(0);
        let id = get_field(r0, 0, 29);
        assert(field_of(r0, 0, 29) <= 0x1fff_ffff && field_of(r0, 0, 29) >> 18 <= 0x7ff)
            by (bit_vector);
        match self.get_message_id_lenght() {
            MessageIdLenght::Standard => id >> STANDARD_ID_SHIFT,
            MessageIdLenght::Extended => id,
        }
    }

    /// Whether the identifier is a standard or an extended one.
    pub fn get_message_id_lenght(&self) -> (length: MessageIdLenght)
        ensures
            length == word_id(word_at(self@, 0)).length,
    {
        if get_bit(self.word(0), XTD_BIT) {
            MessageIdLenght::Extended
        } else {
            MessageIdLenght::Standard
        }
    }

    /// The length code.
    pub fn get_data_lenght(&self) -> (length: DataLenghtCode)
        ensures
            length == word_length(word_at(self@, 1)),
    {
        let r1 = self.word(1);
        let code = get_field(r1, DLC_SHIFT, 4);
        assert(field_of(r1, 16, 4) < 16) by (bit_vector);
        match DataLenghtCode::try_from_code(code as u8) {
            Some(length) => length,
            None => DataLenghtCode::_64,
        }
    }

    /// The format.
    pub fn get_frame_mode(&self) -> (mode: FrameMode)
        ensures
            mode == word_mode(word_at(self@, 1)),
    {
        let r1 = self.word(1);
        if get_bit(r1, FDF_BIT) {
            if get_bit(r1, BRS_BIT) {
                FrameMode::FdLongAndFast
            } else {
                FrameMode::FdLong
            }
        } else {
            FrameMode::Standard
        }
    }

    /// The first bytes of the payload, as many as `data_lenght_code` says.
    pub fn read_data(&self, data_lenght_code: DataLenghtCode) -> (data: Vec<u8>)
        ensures
            data@ == words_payload(self@, 2, data_lenght_code.bytes()),
    {
        let lenght: usize = data_lenght_code.get_data_lenght_in_bytes() as usize;
        let mut data: Vec<u8> = Vec::new();
        let mut i: usize = 0;
        while i < lenght
            invariant
                0 <= i <= lenght <= 64,
                data@.len() == i,
                forall|k: int|
                    0 <= k < i ==> data@[k] == word_byte(word_at(self@, 2 + k / 4), k % 4),
            decreases lenght - i,
        {
            let word = self.word(2 + i / 4);
            let k: u32 = (i % 4) as u32;
            data.push(#[verifier::truncate] (((word >> (8 * k)) & 0xff) as u8));
            i = i + 1;
        }
        assert(data@ =~= words_payload(self@, 2, data_lenght_code.bytes()));
        data
    }

    /// The frame that the element holds.
    pub fn frame(&self) -> (frame: Frame)
        ensures
            frame@ == element_frame(self@),
            frame@.wf(),
    {
        let id = MessageId { data: self.get_message_id(), length: self.get_message_id_lenght() };
        let mode = self.get_frame_mode();
        let coded = self.get_data_lenght();
        let length = if mode == FrameMode::Standard && coded.get_data_lenght_in_bytes() > 8 {
            DataLenghtCode::_8
        } else {
            coded
        };
        let data = self.read_data(length);
        Frame::from_parts(id, length, mode, data)
    }
}

} // verus!
