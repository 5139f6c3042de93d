//! Frames: an identifier, a length out of the legal ones, a format and the
//! payload. A frame that exists is valid.

use vstd::prelude::*;
use crate::can::can_node::FrameMode;
use crate::can::can_node::data_field_bytes;

verus! {

/// The largest standard identifier: 11 bits.
pub const STANDARD_ID_MAX: u32 = 0x7ff;

/// The largest extended identifier: 29 bits.
pub const EXTENDED_ID_MAX: u32 = 0x1fff_ffff;

/// Which of the two lengths an identifier has.
#[derive(Clone, Copy, Debug, PartialEq, Eq, Structural)]
pub enum MessageIdLenght {
    /// 11 bits.
    Standard,
    /// 29 bits.
    Extended,
}

/// The identifier of a message with its length.
#[derive(Clone, Copy, Debug, PartialEq, Eq, Structural)]
pub struct MessageId {
    /// The identifier itself.
    pub data: u32,
    /// Its length.
    pub length: MessageIdLenght,
}

impl MessageId {
    /// Whether the identifier fits its length.
    pub open spec fn in_range(self) -> bool {
        match self.length {
            MessageIdLenght::Standard => self.data <= STANDARD_ID_MAX,
            MessageIdLenght::Extended => self.data <= EXTENDED_ID_MAX,
        }
    }

    /// The standard identifier `id`.
    pub fn new_standard(id: u32) -> (m: MessageId)
        ensures
            m.data == id,
            m.length == MessageIdLenght::Standard,
    {
        MessageId { data: id, length: MessageIdLenght::Standard }
    }

    /// The extended identifier `id`.
    pub fn new_extended(id: u32) -> (m: MessageId)
        ensures
            m.data == id,
            m.length == MessageIdLenght::Extended,
    {
        MessageId { data: id, length: MessageIdLenght::Extended }
    }

    /// Whether the identifier fits its length.
    pub fn is_in_range(&self) -> (ok: bool)
        ensures
            ok == self.in_range(),
    {
        match self.length {
            MessageIdLenght::Standard => self.data <= STANDARD_ID_MAX,
            MessageIdLenght::Extended => self.data <= EXTENDED_ID_MAX,
        }
    }
}

/// The length of a payload, as the four bit code of the frame says it.
#[derive(Clone, Copy, Debug, PartialEq, Eq, Structural)]
pub enum DataLenghtCode {
    /// No data.
    _0,
    /// 1 byte.
    _1,
    /// 2 bytes.
    _2,
    /// 3 bytes.
    _3,
    /// 4 bytes.
    _4,
    /// 5 bytes.
    _5,
    /// 6 bytes.
    _6,
    /// 7 bytes.
    _7,
    /// 8 bytes.
    _8,
    /// 12 bytes.
    _12,
    /// 16 bytes.
    _16,
    /// 20 bytes.
    _20,
    /// 24 bytes.
    _24,
    /// 32 bytes.
    _32,
    /// 48 bytes.
    _48,
    /// 64 bytes.
    _64,
}

/// The bytes that length code `code` stands for: up to 8 the code itself,
/// above 8 the size of the data field that is coded 8 lower.
pub open spec fn length_code_bytes(code: int) -> int {
    if code <= 8 {
        code
    } else {
        data_field_bytes(code - 8)
    }
}

/// Whether a payload may have `len` bytes.
pub open spec fn is_legal_length(len: int) -> bool {
    ||| 0 <= len <= 8
    ||| len == 12
    ||| len == 16
    ||| len == 20
    ||| len == 24
    ||| len == 32
    ||| len == 48
    ||| len == 64
}

impl DataLenghtCode {
    /// The four bit code.
    pub open spec fn code(self) -> int {
        match self {
            DataLenghtCode::_0 => 0,
            DataLenghtCode::_1 => 1,
            DataLenghtCode::_2 => 2,
            DataLenghtCode::_3 => 3,
            DataLenghtCode::_4 => 4,
            DataLenghtCode::_5 => 5,
            DataLenghtCode::_6 => 6,
            DataLenghtCode::_7 => 7,
            DataLenghtCode::_8 => 8,
            DataLenghtCode::_12 => 9,
            DataLenghtCode::_16 => 10,
            DataLenghtCode::_20 => 11,
            DataLenghtCode::_24 => 12,
            DataLenghtCode::_32 => 13,
            DataLenghtCode::_48 => 14,
            DataLenghtCode::_64 => 15,
        }
    }

    /// The bytes of a payload of this length.
    pub open spec fn bytes(self) -> int {
        length_code_bytes(self.code())
    }

    /// The length with the code `code`, for a code below 16.
    pub open spec fn of_code(code: int) -> DataLenghtCode {
        if code == 0 {
            DataLenghtCode::_0
        } else if code == 1 {
            DataLenghtCode::_1
        } else if code == 2 {
            DataLenghtCode::_2
        } else if code == 3 {
            DataLenghtCode::_3
        } else if code == 4 {
            DataLenghtCode::_4
        } else if code == 5 {
            DataLenghtCode::_5
        } else if code == 6 {
            DataLenghtCode::_6
        } else if code == 7 {
            DataLenghtCode::_7
        } else if code == 8 {
            DataLenghtCode::_8
        } else if code == 9 {
            DataLenghtCode::_12
        } else if code == 10 {
            DataLenghtCode::_16
        } else if code == 11 {
            DataLenghtCode::_20
        } else if code == 12 {
            DataLenghtCode::_24
        } else if code == 13 {
            DataLenghtCode::_32
        } else if code == 14 {
            DataLenghtCode::_48
        } else {
            DataLenghtCode::_64
        }
    }

    /// The four bit code.
    pub fn to_code(self) -> (code: u8)
        ensures
            code == self.code(),
            code < 16,
            DataLenghtCode::of_code(code as int) == self,
    {
        match self {
            DataLenghtCode::_0 => 0,
            DataLenghtCode::_1 => 1,
            DataLenghtCode::_2 => 2,
            DataLenghtCode::_3 => 3,
            DataLenghtCode::_4 => 4,
            DataLenghtCode::_5 => 5,
            DataLenghtCode::_6 => 6,
            DataLenghtCode::_7 => 7,
            DataLenghtCode::_8 => 8,
            DataLenghtCode::_12 => 9,
            DataLenghtCode::_16 => 10,
            DataLenghtCode::_20 => 11,
            DataLenghtCode::_24 => 12,
            DataLenghtCode::_32 => 13,
            DataLenghtCode::_48 => 14,
            DataLenghtCode::_64 => 15,
        }
    }

    /// The length with the code `code`, if `code` is below 16.
    pub fn try_from_code(code: u8) -> (length: Option<DataLenghtCode>)
        ensures
            length is Some <==> code < 16,
            length matches Some(l) ==> l == DataLenghtCode::of_code(code as int) && l.code() == code,
    {
        match code {
            0 => Some(DataLenghtCode::_0),
            1 => Some(DataLenghtCode::_1),
            2 => Some(DataLenghtCode::_2),
            3 => Some(DataLenghtCode::_3),
            4 => Some(DataLenghtCode::_4),
            5 => Some(DataLenghtCode::_5),
            6 => Some(DataLenghtCode::_6),
            7 => Some(DataLenghtCode::_7),
            8 => Some(DataLenghtCode::_8),
            9 => Some(DataLenghtCode::_12),
            10 => Some(DataLenghtCode::_16),
            11 => Some(DataLenghtCode::_20),
            12 => Some(DataLenghtCode::_24),
            13 => Some(DataLenghtCode::_32),
            14 => Some(DataLenghtCode::_48),
            15 => Some(DataLenghtCode::_64),
            _ => None,
        }
    }

    /// The length of a payload of `len` bytes, if a payload may have so many.
    pub fn try_from_len(len: usize) -> (length: Option<DataLenghtCode>)
        ensures
            length is Some <==> is_legal_length(len as int),
            length matches Some(l) ==> l.bytes() == len,
    {
        match len {
            0 => Some(DataLenghtCode::_0),
            1 => Some(DataLenghtCode::_1),
            2 => Some(DataLenghtCode::_2),
            3 => Some(DataLenghtCode::_3),
            4 => Some(DataLenghtCode::_4),
            5 => Some(DataLenghtCode::_5),
            6 => Some(DataLenghtCode::_6),
            7 => Some(DataLenghtCode::_7),
            8 => Some(DataLenghtCode::_8),
            12 => Some(DataLenghtCode::_12),
            16 => Some(DataLenghtCode::_16),
            20 => Some(DataLenghtCode::_20),
            24 => Some(DataLenghtCode::_24),
            32 => Some(DataLenghtCode::_32),
            48 => Some(DataLenghtCode::_48),
            64 => Some(DataLenghtCode::_64),
            _ => None,
        }
    }

    /// The bytes of a payload of this length.
    pub fn get_data_lenght_in_bytes(self) -> (bytes: u32)
        ensures
            bytes == self.bytes(),
            bytes <= 64,
            is_legal_length(bytes as int),
    {
        let code = self.to_code();
        if code <= 8 {
            code as u32
        } else if code < 13 {
            (code as u32 - 8 + 2) * 4
        } else {
            (code as u32 - 8 - 3) * 16
        }
    }
}

/// Why a frame cannot be built.
#[derive(Clone, Copy, Debug, PartialEq, Eq, Structural)]
pub enum InvalidFrame {
    /// The identifier needs more bits than its length has.
    IdentifierOutOfRange,
    /// No frame has a payload of so many bytes.
    PayloadLength,
    /// A payload of more than 8 bytes in a classic frame.
    PayloadTooLongForClassic,
}

/// What a frame is: the value that contracts speak of.
pub struct FrameView {
    /// The identifier.
    pub id: MessageId,
    /// The length of the payload.
    pub length: DataLenghtCode,
    /// The format.
    pub mode: FrameMode,
    /// The payload.
    pub data: Seq<u8>,
}

impl FrameView {
    /// What holds of every frame.
    pub open spec fn wf(self) -> bool {
        &&& self.id.in_range()
        &&& self.data.len() == self.length.bytes()
        &&& self.mode == FrameMode::Standard ==> self.length.bytes() <= 8
    }
}

/// A frame to send, or one that was received.
#[derive(Debug)]
pub struct Frame {
    id: MessageId,
    length: DataLenghtCode,
    mode: FrameMode,
    data: Vec<u8>,
}

impl View for Frame {
    type V = FrameView;

    closed spec fn view(&self) -> FrameView {
        FrameView { id: self.id, length: self.length, mode: self.mode, data: self.data@ }
    }
}

/// Why no frame in format `mode` has identifier `id` and a payload of `len`
/// bytes, if there is a reason.
pub open spec fn frame_fault(id: MessageId, mode: FrameMode, len: int) -> Option<InvalidFrame> {
    if !id.in_range() {
        Some(InvalidFrame::IdentifierOutOfRange)
    } else if !is_legal_length(len) {
        Some(InvalidFrame::PayloadLength)
    } else if mode == FrameMode::Standard && len > 8 {
        Some(InvalidFrame::PayloadTooLongForClassic)
    } else {
        None
    }
}

/// The format that `Frame::new` gives a frame with a payload of `len` bytes:
/// classic where that can carry it.
pub open spec fn least_mode(len: int) -> FrameMode {
    if len <= 8 {
        FrameMode::Standard
    } else {
        FrameMode::FdLong
    }
}

impl Frame {
    #[verifier::type_invariant]
    spec fn valid(self) -> bool {
        self@.wf()
    }

    /// The frame with identifier `message_id` and payload `payload`, in the
    /// classic format if the payload has at most 8 bytes, else in the long one.
    ///
    /// Fails if the identifier does not fit its length, or if no frame has a
    /// payload of so many bytes.
    pub fn new(message_id: MessageId, payload: &[u8]) -> (frame: Result<Frame, InvalidFrame>)
        ensures
            match frame_fault(message_id, least_mode(payload@.len() as int), payload@.len() as int) {
                Some(fault) => frame == Err::<Frame, InvalidFrame>(fault),
                None => frame is Ok && frame->Ok_0@.wf() && frame->Ok_0@.id == message_id
                    && frame->Ok_0@.data == payload@ && frame->Ok_0@.mode == least_mode(
                    payload@.len() as int,
                ),
            },
    {
        let mode = if payload.len() <= 8 {
            FrameMode::Standard
        } else {
            FrameMode::FdLong
        };
        Frame::new_with_mode(message_id, mode, payload)
    }

    /// The frame with identifier `message_id` and payload `payload` in the
    /// format `mode`.
    ///
    /// Fails if the identifier does not fit its length, if no frame has a
    /// payload of so many bytes, or if the format is the classic one and the
    /// payload has more than 8 bytes.
    pub fn new_with_mode(message_id: MessageId, mode: FrameMode, payload: &[u8]) -> (frame: Result<
        Frame,
        InvalidFrame,
    >)
        ensures
            match frame_fault(message_id, mode, payload@.len() as int) {
                Some(fault) => frame == Err::<Frame, InvalidFrame>(fault),
                None => frame is Ok && frame->Ok_0@.wf() && frame->Ok_0@.id == message_id
                    && frame->Ok_0@.data == payload@ && frame->Ok_0@.mode == mode,
            },
    {
        if !message_id.is_in_range() {
            return Err(InvalidFrame::IdentifierOutOfRange);
        }
        let length = match DataLenghtCode::try_from_len(payload.len()) {
            Some(length) => length,
            None => {
                return Err(InvalidFrame::PayloadLength);
            },
        };
        if mode == FrameMode::Standard && payload.len() > 8 {
            return Err(InvalidFrame::PayloadTooLongForClassic);
        }
        let mut data: Vec<u8> = Vec::new();
        let mut i: usize = 0;
        while i < payload.len()
            invariant
                0 <= i <= payload@.len(),
                data@ == payload@.take(i as int),
            decreases payload@.len() - i,
        {
            data.push(payload[i]);
            assert(payload@.take(i as int).push(payload@[i as int]) =~= payload@.take(i as int + 1));
            i = i + 1;
        }
        assert(payload@.take(payload@.len() as int) =~= payload@);
        Ok(Frame { id: message_id, length, mode, data })
    }

    /// The frame made of parts that are known to fit together.
    pub(crate) fn from_parts(id: MessageId, length: DataLenghtCode, mode: FrameMode, data: Vec<u8>) -> (frame:
        Frame)
        requires
            (FrameView { id, length, mode, data: data@ }).wf(),
        ensures
            frame@ == (FrameView { id, length, mode, data: data@ }),
    {
        Frame { id, length, mode, data }
    }

    /// The identifier.
    pub fn id(&self) -> (id: MessageId)
        ensures
            id == self@.id,
            id.in_range(),
    {
        proof {
            use_type_invariant(self);
        }
        self.id
    }

    /// The length of the payload.
    pub fn length(&self) -> (length: DataLenghtCode)
        ensures
            length == self@.length,
            length.bytes() == self@.data.len(),
    {
        proof {
            use_type_invariant(self);
        }
        self.length
    }

    /// The format.
    pub fn mode(&self) -> (mode: FrameMode)
        ensures
            mode == self@.mode,
    {
        self.mode
    }

    /// The payload.
    pub fn data(&self) -> (data: &Vec<u8>)
        ensures
            data@ == self@.data,
            self@.wf(),
    {
        proof {
            use_type_invariant(self);
        }
        &self.data
    }
}

} // verus!
