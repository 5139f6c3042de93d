//! Message RAM elements: how a frame lies in the words of a buffer.
//!
//! Word 0 holds the identifier in bits 28..0, a standard one in the upper 11
//! of them, and in bit 30 whether it is extended. Word 1 holds the length
//! code in bits 19..16, bit rate switching in bit 20 and the FD format in bit
//! 21. The payload follows, four bytes to a word, the first byte lowest.

pub mod rx;
pub mod tx;

use vstd::prelude::*;
use crate::bits::field_of;
use crate::bits::bit_of;
use crate::can::can_node::FrameMode;
use crate::can::frame::DataLenghtCode;
use crate::can::frame::FrameView;
use crate::can::frame::MessageId;
use crate::can::frame::MessageIdLenght;

verus! {

/// The bits by which a standard identifier is shifted up in its field.
pub const STANDARD_ID_SHIFT: u32 = 18;

/// The bit of word 0 that marks an extended identifier.
pub const XTD_BIT: u32 = 30;

/// The lowest bit of the length code in word 1.
pub const DLC_SHIFT: u32 = 16;

/// The bit of word 1 that marks bit rate switching.
pub const BRS_BIT: u32 = 20;

/// The bit of word 1 that marks the FD format.
pub const FDF_BIT: u32 = 21;

/// Word 0 of the element of a frame with identifier `id`.
pub open spec fn id_word(id: MessageId) -> u32 {
    match id.length {
        MessageIdLenght::Standard => (id.data & 0x7ff) << 18,
        MessageIdLenght::Extended => (id.data & 0x1fff_ffff) | (1u32 << 30),
    }
}

/// The identifier that word 0 of an element holds.
pub open spec fn word_id(word: u32) -> MessageId {
    if bit_of(word, 30) {
        MessageId { data: field_of(word, 0, 29), length: MessageIdLenght::Extended }
    } else {
        MessageId { data: field_of(word, 0, 29) >> 18, length: MessageIdLenght::Standard }
    }
}

/// Whether frames of format `mode` have the FD format.
pub open spec fn mode_fdf(mode: FrameMode) -> bool {
    mode != FrameMode::Standard
}

/// Whether frames of format `mode` switch the bit rate.
pub open spec fn mode_brs(mode: FrameMode) -> bool {
    mode == FrameMode::FdLongAndFast
}

/// Word 1 of the element of a frame of length `length` and format `mode`.
pub open spec fn control_word(length: DataLenghtCode, mode: FrameMode) -> u32 {
    ((length.code() as u32) << 16) | (if mode_brs(mode) {
        1u32 << 20
    } else {
        0u32
    }) | (if mode_fdf(mode) {
        1u32 << 21
    } else {
        0u32
    })
}

/// The format that word 1 of an element holds.
pub open spec fn word_mode(word: u32) -> FrameMode {
    if bit_of(word, 21) {
        if bit_of(word, 20) {
            FrameMode::FdLongAndFast
        } else {
            FrameMode::FdLong
        }
    } else {
        FrameMode::Standard
    }
}

/// The length code that word 1 of an element holds.
pub open spec fn word_length(word: u32) -> DataLenghtCode {
    DataLenghtCode::of_code(field_of(word, 16, 4) as int)
}

/// The length of the payload of a frame with length code `length` in format
/// `mode`: a classic frame carries at most 8 bytes, whatever its code says.
pub open spec fn carried_length(length: DataLenghtCode, mode: FrameMode) -> DataLenghtCode {
    if mode == FrameMode::Standard && length.bytes() > 8 {
        DataLenghtCode::_8
    } else {
        length
    }
}

/// Byte `i` of `data`, and 0 behind its end.
pub open spec fn byte_at(data: Seq<u8>, i: int) -> u8 {
    if 0 <= i < data.len() {
        data[i]
    } else {
        0
    }
}

/// Word `i` of `words`, and 0 behind their end.
pub open spec fn word_at(words: Seq<u32>, i: int) -> u32 {
    if 0 <= i < words.len() {
        words[i]
    } else {
        0
    }
}

/// Four bytes in one word, the first one lowest.
pub open spec fn pack_word(b0: u8, b1: u8, b2: u8, b3: u8) -> u32 {
    (b0 as u32) | ((b1 as u32) << 8) | ((b2 as u32) << 16) | ((b3 as u32) << 24)
}

/// Byte `k` of a word, for `k` below 4.
pub open spec fn word_byte(word: u32, k: int) -> u8 {
    ((word >> ((8 * k) as u32)) & 0xff) as u8
}

/// Word `w` of the payload `data`.
pub open spec fn data_word(data: Seq<u8>, w: int) -> u32 {
    pack_word(
        byte_at(data, 4 * w),
        byte_at(data, 4 * w + 1),
        byte_at(data, 4 * w + 2),
        byte_at(data, 4 * w + 3),
    )
}

/// The words that a payload of `len` bytes takes.
pub open spec fn data_words(len: int) -> int {
    (len + 3) / 4
}

/// The words of the payload `data`.
pub open spec fn payload_words(data: Seq<u8>) -> Seq<u32> {
    Seq::new(data_words(data.len() as int) as nat, |w: int| data_word(data, w))
}

/// The `len` bytes that lie in `words` from word `first` on, zeros where the
/// words end early.
pub open spec fn words_payload(words: Seq<u32>, first: int, len: int) -> Seq<u8> {
    Seq::new(len as nat, |i: int| word_byte(word_at(words, first + i / 4), i % 4))
}

/// The element of a frame: what the message RAM holds of it.
pub open spec fn element_words(frame: FrameView) -> Seq<u32> {
    seq![id_word(frame.id), control_word(frame.length, frame.mode)] + payload_words(frame.data)
}

/// The frame that an element holds.
pub open spec fn element_frame(words: Seq<u32>) -> FrameView {
    let mode = word_mode(word_at(words, 1));
    let length = carried_length(word_length(word_at(words, 1)), mode);
    FrameView {
        id: word_id(word_at(words, 0)),
        length,
        mode,
        data: words_payload(words, 2, length.bytes()),
    }
}

/// A word gives back the four bytes that were packed in it.
pub proof fn lemma_pack_unpack(b0: u8, b1: u8, b2: u8, b3: u8)
    ensures
        word_byte(pack_word(b0, b1, b2, b3), 0) == b0,
        word_byte(pack_word(b0, b1, b2, b3), 1) == b1,
        word_byte(pack_word(b0, b1, b2, b3), 2) == b2,
        word_byte(pack_word(b0, b1, b2, b3), 3) == b3,
{
    let w = pack_word(b0, b1, b2, b3);
    assert(((w >> 0u32) & 0xff) as u8 == b0 && ((w >> 8u32) & 0xff) as u8 == b1 && ((w >> 16u32)
        & 0xff) as u8 == b2 && ((w >> 24u32) & 0xff) as u8 == b3) by (bit_vector)
        requires
            w == (b0 as u32) | ((b1 as u32) << 8) | ((b2 as u32) << 16) | ((b3 as u32) << 24),
    ;
}

/// Word 0 gives back an identifier that fits its length.
pub proof fn lemma_id_word(id: MessageId)
    requires
        id.in_range(),
    ensures
        word_id(id_word(id)) == id,
{
    let d = id.data;
    match id.length {
        MessageIdLenght::Standard => {
            assert(!bit_of((d & 0x7ff) << 18, 30) && field_of((d & 0x7ff) << 18, 0, 29) >> 18 == d)
                by (bit_vector)
                requires
                    d <= 0x7ff,
            ;
        },
        MessageIdLenght::Extended => {
            assert(bit_of((d & 0x1fff_ffff) | (1u32 << 30), 30) && field_of(
                (d & 0x1fff_ffff) | (1u32 << 30),
                0,
                29,
            ) == d) by (bit_vector)
                requires
                    d <= 0x1fff_ffff,
            ;
        },
    }
}

/// Word 1 gives back the length code and the format.
pub proof fn lemma_control_word(length: DataLenghtCode, mode: FrameMode)
    ensures
        word_length(control_word(length, mode)) == length,
        word_mode(control_word(length, mode)) == mode,
{
    let c = length.code() as u32;
    let brs: u32 = if mode_brs(mode) { 1u32 << 20 } else { 0u32 };
    let fdf: u32 = if mode_fdf(mode) { 1u32 << 21 } else { 0u32 };
    let w = (c << 16) | brs | fdf;
    assert(field_of(w, 16, 4) == c && bit_of(w, 20) == (brs != 0) && bit_of(w, 21) == (fdf != 0)
        && (1u32 << 20) != 0 && (1u32 << 21) != 0) by (bit_vector)
        requires
            c < 16,
            brs == 0 || brs == 1u32 << 20,
            fdf == 0 || fdf == 1u32 << 21,
            w == (c << 16) | brs | fdf,
    ;
}

/// The words of a payload, behind whatever words, give back the payload.
pub proof fn lemma_payload_words(head: Seq<u32>, data: Seq<u8>)
    ensures
        words_payload(head + payload_words(data), head.len() as int, data.len() as int) == data,
{
    let words = head + payload_words(data);
    let back = words_payload(words, head.len() as int, data.len() as int);
    assert forall|i: int| 0 <= i < data.len() implies back[i] == data[i] by {
        let w = i / 4;
        let k = i % 4;
        assert(0 <= w < payload_words(data).len());
        assert(words[head.len() + w] == data_word(data, w));
        lemma_pack_unpack(
            byte_at(data, 4 * w),
            byte_at(data, 4 * w + 1),
            byte_at(data, 4 * w + 2),
            byte_at(data, 4 * w + 3),
        );
        assert(byte_at(data, 4 * w + k) == data[i]);
    }
    assert(back =~= data);
}

/// A frame that is written to an element and read from it again is the
/// frame that was written: identifier, identifier length, length code,
/// format and payload.
pub proof fn lemma_element_round_trip(frame: FrameView)
    requires
        frame.wf(),
    ensures
        element_frame(element_words(frame)) == frame,
{
    let words = element_words(frame);
    lemma_id_word(frame.id);
    lemma_control_word(frame.length, frame.mode);
    lemma_payload_words(seq![id_word(frame.id), control_word(frame.length, frame.mode)], frame.data);
    assert(word_at(words, 0) == id_word(frame.id));
    assert(word_at(words, 1) == control_word(frame.length, frame.mode));
    let back = element_frame(words);
    assert(back.mode == frame.mode);
    assert(back.length == frame.length);
    assert(back.data =~= frame.data);
}

} // verus!
