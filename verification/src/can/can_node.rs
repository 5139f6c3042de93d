//! A CAN node: what it is configured with, and the two phases of its life.
//!
//! A node that was claimed from its module can be configured, once. That
//! gives the program that brings the hardware through the configuration
//! change, and behind it the node that sends and receives.

pub mod effects;
pub mod laws;

use vstd::prelude::*;
use core::marker::PhantomData;
use crate::bits::bit_of;
use crate::bits::field_of;
use crate::bits::get_bit;
use crate::can::baud_rate::calculate_fast_timing;
use crate::can::baud_rate::calculate_nominal_timing;
use crate::can::baud_rate::fast_timing;
use crate::can::baud_rate::nominal_timing;
use crate::can::baud_rate::DataBitTiming;
use crate::can::baud_rate::NominalBitTiming;
use crate::can::can_module::clock_source_program;
use crate::can::can_module::set_clock_source;
use crate::can::can_module::ClockSelect;
use crate::can::can_module::ClockSource;
use crate::can::can_node::effects::data_timing_update;
use crate::can::can_node::effects::disable_change_ops;
use crate::can::can_node::effects::enable_change_ops;
use crate::can::can_node::effects::field_op;
use crate::can::can_node::effects::flag_op;
use crate::can::can_node::effects::frame_mode_update;
use crate::can::can_node::effects::nominal_timing_update;
use crate::can::can_node::effects::phase_through;
use crate::can::can_node::effects::update_op;
use crate::can::can_node::effects::control_after;
use crate::can::can_node::effects::lemma_phase_holds;
use crate::can::can_node::effects::CCCR_HANDSHAKE;
use crate::can::can_node::effects::clear_rx_buffer_new_data_flag;
use crate::can::can_node::effects::get_rx_fifo0_fill_level;
use crate::can::can_node::effects::get_rx_fifo0_get_index;
use crate::can::can_node::effects::get_rx_fifo1_fill_level;
use crate::can::can_node::effects::get_rx_fifo1_get_index;
use crate::can::can_node::effects::get_tx_fifo_queue_put_index;
use crate::can::can_node::effects::is_tx_fifo_queue_full;
use crate::can::can_node::effects::set_rx_fifo0_acknowledge_index;
use crate::can::can_node::effects::set_rx_fifo1_acknowledge_index;
use crate::can::can_node::effects::set_tx_buffer_add_request;
use crate::bits::bit;
use crate::can::frame::FrameView;
use crate::can::can_node::effects::NodeEffects;
use crate::can::can_node::effects::NodePhase;
use crate::can::frame::Frame;
use crate::can::internals::rx::Rx;
use crate::can::internals::tx::Tx;
use crate::can::internals::element_frame;
use crate::can::internals::element_words;
use crate::can::msg_ram::element_bytes;
use crate::can::msg_ram::plan_layout;
use crate::can::msg_ram::placed_in_order;
use crate::can::msg_ram::total_bytes;
use crate::can::msg_ram::RamWindow;
use crate::can::msg_ram::Region;
use crate::can::msg_ram::RegionKind;
use crate::can::msg_ram::RegionRequest;
use crate::regs::Op;
use crate::regs::Reg;
use crate::sequencer::Pending;
use crate::sequencer::SequencerView;

verus! {

/// The format of the frames of a node.
#[derive(Clone, Copy, Debug, PartialEq, Eq, Structural)]
pub enum FrameMode {
    /// Classic CAN: up to 8 bytes at the nominal bit rate.
    Standard,
    /// CAN FD: up to 64 bytes at the nominal bit rate.
    FdLong,
    /// CAN FD with the data phase at the fast bit rate.
    FdLongAndFast,
}

/// What a node does with frames.
#[derive(Clone, Copy, Debug, PartialEq, Eq, Structural)]
pub enum FrameType {
    /// It receives only.
    Receive,
    /// It transmits only.
    Transmit,
    /// It transmits and receives.
    TransmitAndReceive,
    /// It asks for remote frames.
    RemoteRequest,
    /// It answers remote requests.
    RemoteAnswer,
}

impl FrameType {
    /// Whether a node of this type sends frames.
    pub open spec fn transmits(self) -> bool {
        self != FrameType::Receive
    }

    /// Whether a node of this type sends frames.
    pub fn includes_transmission(self) -> (yes: bool)
        ensures
            yes == self.transmits(),
    {
        match self {
            FrameType::Receive => false,
            _ => true,
        }
    }
}

/// The size of the data field of a message RAM element, by its register code.
#[derive(Clone, Copy, Debug, PartialEq, Eq, Structural)]
pub enum DataFieldSize {
    /// 8 bytes.
    _8,
    /// 12 bytes.
    _12,
    /// 16 bytes.
    _16,
    /// 20 bytes.
    _20,
    /// 24 bytes.
    _24,
    /// 32 bytes.
    _32,
    /// 48 bytes.
    _48,
    /// 64 bytes.
    _64,
}

/// The bytes of a data field whose size is coded as `code`: codes below 5
/// count in steps of 4 from 8, codes from 5 on in steps of 16 from 32.
pub open spec fn data_field_bytes(code: int) -> int {
    if code < 5 {
        (code + 2) * 4
    } else {
        (code - 3) * 16
    }
}

impl DataFieldSize {
    /// The register code of this size.
    pub open spec fn code(self) -> int {
        match self {
            DataFieldSize::_8 => 0,
            DataFieldSize::_12 => 1,
            DataFieldSize::_16 => 2,
            DataFieldSize::_20 => 3,
            DataFieldSize::_24 => 4,
            DataFieldSize::_32 => 5,
            DataFieldSize::_48 => 6,
            DataFieldSize::_64 => 7,
        }
    }

    /// The bytes of a data field of this size.
    pub open spec fn bytes(self) -> int {
        data_field_bytes(self.code())
    }

    /// The code that the element size registers hold for this size.
    pub fn to_esci_register_value(self) -> (code: u8)
        ensures
            code == self.code(),
            code < 8,
    {
        match self {
            DataFieldSize::_8 => 0,
            DataFieldSize::_12 => 1,
            DataFieldSize::_16 => 2,
            DataFieldSize::_20 => 3,
            DataFieldSize::_24 => 4,
            DataFieldSize::_32 => 5,
            DataFieldSize::_48 => 6,
            DataFieldSize::_64 => 7,
        }
    }

    /// The size that the low three bits of `code` stand for.
    pub fn from_code(code: u8) -> (size: DataFieldSize)
        ensures
            size.code() == code % 8,
    {
        match code % 8 {
            0 => DataFieldSize::_8,
            1 => DataFieldSize::_12,
            2 => DataFieldSize::_16,
            3 => DataFieldSize::_20,
            4 => DataFieldSize::_24,
            5 => DataFieldSize::_32,
            6 => DataFieldSize::_48,
            _ => DataFieldSize::_64,
        }
    }

    /// The bytes of a data field of this size.
    pub fn size_in_bytes(self) -> (bytes: u8)
        ensures
            bytes == self.bytes(),
            8 <= bytes <= 64,
            bytes % 4 == 0,
    {
        data_field_size_in_bytes(self.to_esci_register_value())
    }
}

/// The bytes of a data field whose size is coded as `size_code`.
pub fn data_field_size_in_bytes(size_code: u8) -> (bytes: u8)
    requires
        size_code < 8,
    ensures
        bytes == data_field_bytes(size_code as int),
        8 <= bytes <= 64,
        bytes % 4 == 0,
{
    if size_code < 5 {
        (size_code + 2) * 4
    } else {
        (size_code - 3) * 16
    }
}


/// The targets of the nominal bit rate, and the register fields to use
/// where the timing is not calculated from them.
#[derive(Clone, Copy, Debug)]
pub struct BaudRate {
    /// Bits per second.
    pub baud_rate: u32,
    /// The sample point, in parts of 10000.
    pub sample_point: u16,
    /// The jump width: in quanta as a target, as the register field else.
    pub sync_jump_with: u16,
    /// The prescaler field.
    pub prescalar: u16,
    /// The field of the first segment.
    pub time_segment_1: u8,
    /// The field of the second segment.
    pub time_segment_2: u8,
}

/// The targets of the data phase bit rate, and the register fields to use
/// where the timing is not calculated from them.
#[derive(Clone, Copy, Debug)]
pub struct FastBaudRate {
    /// Bits per second.
    pub baud_rate: u32,
    /// The sample point, in parts of 10000.
    pub sample_point: u16,
    /// The jump width: in quanta as a target, as the register field else.
    pub sync_jump_with: u16,
    /// The prescaler field.
    pub prescalar: u16,
    /// The field of the first segment.
    pub time_segment_1: u8,
    /// The field of the second segment.
    pub time_segment_2: u8,
    /// The offset of the transmitter delay compensation; 0 switches it off.
    pub transceiver_delay_offset: u8,
}

/// How a node keeps the frames it is to send.
#[derive(Clone, Copy, Debug, PartialEq, Eq, Structural)]
pub enum TxMode {
    /// In buffers that the sender picks.
    DedicatedBuffers,
    /// In a FIFO.
    Fifo,
    /// In a queue by priority.
    Queue,
    /// In dedicated buffers and a FIFO.
    SharedFifo,
    /// In dedicated buffers and a queue.
    SharedQueue,
}

/// How a node keeps the frames it has received.
#[derive(Clone, Copy, Debug, PartialEq, Eq, Structural)]
pub enum RxMode {
    /// In buffers that the filters pick.
    DedicatedBuffers,
    /// In FIFO 0.
    Fifo0,
    /// In FIFO 1.
    Fifo1,
    /// In dedicated buffers and FIFO 0.
    SharedFifo0,
    /// In dedicated buffers and FIFO 1.
    SharedFifo1,
    /// In dedicated buffers and both FIFOs.
    SharedAll,
}

/// What a receive FIFO does with a frame when it is full.
#[derive(Clone, Copy, Debug, PartialEq, Eq, Structural)]
pub enum RxFifoMode {
    /// It drops the frame.
    Blocking,
    /// It overwrites its oldest element.
    Overwrite,
}

/// A receive FIFO as it is asked for.
#[derive(Clone, Copy, Debug)]
pub struct FifoConfig {
    /// The size of the data field of its elements.
    pub field_size: DataFieldSize,
    /// What it does when it is full.
    pub operation_mode: RxFifoMode,
    /// The fill level at which it raises the watermark interrupt.
    pub watermark_level: u8,
    /// The number of its elements.
    pub size: u8,
}

/// A receive FIFO with its place in the message RAM.
#[derive(Clone, Copy, Debug, PartialEq, Eq, Structural)]
pub struct FifoData {
    /// The size of the data field of its elements.
    pub field_size: DataFieldSize,
    /// What it does when it is full.
    pub operation_mode: RxFifoMode,
    /// The fill level at which it raises the watermark interrupt.
    pub watermark_level: u8,
    /// The number of its elements.
    pub size: u8,
    /// Where it starts in the message RAM.
    pub start_address: u16,
}

/// Dedicated buffers with their place in the message RAM.
#[derive(Clone, Copy, Debug, PartialEq, Eq, Structural)]
pub struct DedicatedData {
    /// The size of the data field of the buffers.
    pub field_size: DataFieldSize,
    /// Where they start in the message RAM.
    pub start_address: u16,
}

/// What a node is configured with.
#[derive(Clone, Copy, Debug)]
pub struct CanNodeConfig {
    /// The clock of the node.
    pub clock_source: ClockSource,
    /// Whether the bit timing is calculated from the targets; else the
    /// register fields given with them are used.
    pub calculate_bit_timing_values: bool,
    /// The nominal bit rate.
    pub baud_rate: BaudRate,
    /// The bit rate of the data phase; used unless the frame mode is the classic one.
    pub fast_baud_rate: FastBaudRate,
    /// The format of the frames.
    pub frame_mode: FrameMode,
    /// What the node does with frames.
    pub frame_type: FrameType,
    /// How frames to send are kept.
    pub tx_mode: TxMode,
    /// How received frames are kept.
    pub rx_mode: RxMode,
    /// The part of the message RAM that the node may use.
    pub message_ram: RamWindow,
    /// The size of the data field of the transmit buffers.
    pub tx_buffer_data_field_size: DataFieldSize,
    /// The number of dedicated transmit buffers.
    pub dedicated_tx_buffers_number: u8,
    /// The number of elements of the transmit FIFO or queue.
    pub tx_fifo_queue_size: u8,
    /// The number of elements of the transmit event FIFO.
    pub tx_event_fifo_size: u8,
    /// The size of the data field of the receive buffers.
    pub rx_buffer_data_field_size: DataFieldSize,
    /// The number of dedicated receive buffers.
    pub rx_buffers_number: u8,
    /// Receive FIFO 0.
    pub rx_fifo0: FifoConfig,
    /// Receive FIFO 1.
    pub rx_fifo1: FifoConfig,
    /// The number of filters for standard identifiers.
    pub standard_filter_list_size: u8,
    /// The number of filters for extended identifiers.
    pub extended_filter_list_size: u8,
    /// Whether remote frames with a standard identifier are rejected.
    pub reject_remote_frames_with_standard_id: bool,
    /// Whether remote frames with an extended identifier are rejected.
    pub reject_remote_frames_with_extended_id: bool,
}

/// The number of a node in its module: 0 to 3.
#[derive(Clone, Copy, Debug)]
pub struct NodeId(pub(crate) u8);

impl NodeId {
    #[verifier::type_invariant]
    spec fn names_a_slot(self) -> bool {
        self.0 < 4
    }

    /// The number.
    pub closed spec fn index(self) -> int {
        self.0 as int
    }

    /// Node `n` of a module. A module has nodes 0 to 3.
    pub fn new(n: u8) -> (id: NodeId)
        requires
            n < 4,
        ensures
            id.index() == n,
    {
        NodeId(n)
    }

    /// Node `n` of a module, if there is such a node.
    pub fn try_new(n: u8) -> (id: Option<NodeId>)
        ensures
            id is Some <==> n < 4,
            id matches Some(i) ==> i.index() == n,
    {
        if n < 4 {
            Some(NodeId(n))
        } else {
            None
        }
    }

    /// The number.
    pub fn as_index(&self) -> (index: usize)
        ensures
            index == self.index(),
            index < 4,
    {
        proof {
            use_type_invariant(self);
        }
        self.0 as usize
    }
}

/// The number of a receive buffer, or of an element of a receive FIFO: 0 to 63.
#[derive(Clone, Copy, Debug)]
pub struct RxBufferId(u8);

impl RxBufferId {
    #[verifier::type_invariant]
    spec fn names_a_buffer(self) -> bool {
        self.0 < 64
    }

    /// The number.
    pub closed spec fn index(self) -> int {
        self.0 as int
    }

    /// Receive buffer `n`. There are buffers 0 to 63.
    pub fn new(n: u8) -> (id: RxBufferId)
        requires
            n < 64,
        ensures
            id.index() == n,
    {
        RxBufferId(n)
    }

    /// Receive buffer `n`, if there is such a buffer.
    pub fn try_new(n: u8) -> (id: Option<RxBufferId>)
        ensures
            id is Some <==> n < 64,
            id matches Some(i) ==> i.index() == n,
    {
        if n < 64 {
            Some(RxBufferId(n))
        } else {
            None
        }
    }

    /// The number.
    pub fn as_u8(&self) -> (index: u8)
        ensures
            index == self.index(),
            index < 64,
    {
        proof {
            use_type_invariant(self);
        }
        self.0
    }
}

/// The number of a transmit buffer.
#[derive(Clone, Copy, Debug, PartialEq, Eq, Structural)]
pub struct TxBufferId(pub u8);

/// Where a received frame is read from.
#[derive(Clone, Copy, Debug)]
pub enum ReadFrom {
    /// A dedicated receive buffer.
    Buffer(RxBufferId),
    /// Receive FIFO 0.
    RxFifo0,
    /// Receive FIFO 1.
    RxFifo1,
}

/// The groups of interrupts that are routed together.
#[derive(Clone, Copy, Debug, PartialEq, Eq, Structural)]
pub enum InterruptGroup {
    Tefifo,
    Hpe,
    Wati,
    Alrt,
    Moer,
    Safe,
    Boff,
    Loi,
    Reint,
    Rxf1f,
    Rxf0f,
    Rxf1n,
    Rxf0n,
    Reti,
    Traq,
    Traco,
}

impl InterruptGroup {
    /// The number of the group.
    pub open spec fn number(self) -> int {
        match self {
            InterruptGroup::Tefifo => 0,
            InterruptGroup::Hpe => 1,
            InterruptGroup::Wati => 2,
            InterruptGroup::Alrt => 3,
            InterruptGroup::Moer => 4,
            InterruptGroup::Safe => 5,
            InterruptGroup::Boff => 6,
            InterruptGroup::Loi => 7,
            InterruptGroup::Reint => 8,
            InterruptGroup::Rxf1f => 9,
            InterruptGroup::Rxf0f => 10,
            InterruptGroup::Rxf1n => 11,
            InterruptGroup::Rxf0n => 12,
            InterruptGroup::Reti => 13,
            InterruptGroup::Traq => 14,
            InterruptGroup::Traco => 15,
        }
    }

    /// The number of the group.
    pub fn to_number(self) -> (number: u32)
        ensures
            number == self.number(),
            number < 16,
    {
        match self {
            InterruptGroup::Tefifo => 0,
            InterruptGroup::Hpe => 1,
            InterruptGroup::Wati => 2,
            InterruptGroup::Alrt => 3,
            InterruptGroup::Moer => 4,
            InterruptGroup::Safe => 5,
            InterruptGroup::Boff => 6,
            InterruptGroup::Loi => 7,
            InterruptGroup::Reint => 8,
            InterruptGroup::Rxf1f => 9,
            InterruptGroup::Rxf0f => 10,
            InterruptGroup::Rxf1n => 11,
            InterruptGroup::Rxf0n => 12,
            InterruptGroup::Reti => 13,
            InterruptGroup::Traq => 14,
            InterruptGroup::Traco => 15,
        }
    }
}

/// The interrupts of a node, in the order of their bits in the interrupt registers.
#[derive(Clone, Copy, Debug, PartialEq, Eq, Structural)]
pub enum Interrupt {
    RxFifo0newMessage,
    RxFifo0watermarkReached,
    RxFifo0full,
    RxFifo0messageLost,
    RxFifo1newMessage,
    RxFifo1watermarkReached,
    RxFifo1full,
    RxFifo1messageLost,
    HighPriorityMessage,
    TransmissionCompleted,
    TransmissionCancellationFinished,
    TxFifoEmpty,
    TxEventFifoNewEntry,
    TxEventFifoWatermarkReached,
    TxEventFifoFull,
    TxEventFifoEventLost,
    TimestampWraparound,
    MessageRamaccessFailure,
    TimeoutOccurred,
    MessageStoredToDedicatedRxBuffer,
    BitErrorCorrected,
    BitErrorUncorrected,
    ErrorLoggingOverflow,
    ErrorPassive,
    WarningStatus,
    BusOffStatus,
    Watchdog,
    ProtocolErrorArbitration,
    ProtocolErrorData,
    AccessToReservedAddress,
}

impl Interrupt {
    /// The bit of the interrupt in the interrupt registers.
    pub open spec fn bit_index(self) -> int {
        match self {
            Interrupt::RxFifo0newMessage => 0,
            Interrupt::RxFifo0watermarkReached => 1,
            Interrupt::RxFifo0full => 2,
            Interrupt::RxFifo0messageLost => 3,
            Interrupt::RxFifo1newMessage => 4,
            Interrupt::RxFifo1watermarkReached => 5,
            Interrupt::RxFifo1full => 6,
            Interrupt::RxFifo1messageLost => 7,
            Interrupt::HighPriorityMessage => 8,
            Interrupt::TransmissionCompleted => 9,
            Interrupt::TransmissionCancellationFinished => 10,
            Interrupt::TxFifoEmpty => 11,
            Interrupt::TxEventFifoNewEntry => 12,
            Interrupt::TxEventFifoWatermarkReached => 13,
            Interrupt::TxEventFifoFull => 14,
            Interrupt::TxEventFifoEventLost => 15,
            Interrupt::TimestampWraparound => 16,
            Interrupt::MessageRamaccessFailure => 17,
            Interrupt::TimeoutOccurred => 18,
            Interrupt::MessageStoredToDedicatedRxBuffer => 19,
            Interrupt::BitErrorCorrected => 20,
            Interrupt::BitErrorUncorrected => 21,
            Interrupt::ErrorLoggingOverflow => 22,
            Interrupt::ErrorPassive => 23,
            Interrupt::WarningStatus => 24,
            Interrupt::BusOffStatus => 25,
            Interrupt::Watchdog => 26,
            Interrupt::ProtocolErrorArbitration => 27,
            Interrupt::ProtocolErrorData => 28,
            Interrupt::AccessToReservedAddress => 29,
        }
    }

    /// The bit of the interrupt in the interrupt registers.
    pub fn to_bit_index(self) -> (index: u32)
        ensures
            index == self.bit_index(),
            index < 30,
    {
        match self {
            Interrupt::RxFifo0newMessage => 0,
            Interrupt::RxFifo0watermarkReached => 1,
            Interrupt::RxFifo0full => 2,
            Interrupt::RxFifo0messageLost => 3,
            Interrupt::RxFifo1newMessage => 4,
            Interrupt::RxFifo1watermarkReached => 5,
            Interrupt::RxFifo1full => 6,
            Interrupt::RxFifo1messageLost => 7,
            Interrupt::HighPriorityMessage => 8,
            Interrupt::TransmissionCompleted => 9,
            Interrupt::TransmissionCancellationFinished => 10,
            Interrupt::TxFifoEmpty => 11,
            Interrupt::TxEventFifoNewEntry => 12,
            Interrupt::TxEventFifoWatermarkReached => 13,
            Interrupt::TxEventFifoFull => 14,
            Interrupt::TxEventFifoEventLost => 15,
            Interrupt::TimestampWraparound => 16,
            Interrupt::MessageRamaccessFailure => 17,
            Interrupt::TimeoutOccurred => 18,
            Interrupt::MessageStoredToDedicatedRxBuffer => 19,
            Interrupt::BitErrorCorrected => 20,
            Interrupt::BitErrorUncorrected => 21,
            Interrupt::ErrorLoggingOverflow => 22,
            Interrupt::ErrorPassive => 23,
            Interrupt::WarningStatus => 24,
            Interrupt::BusOffStatus => 25,
            Interrupt::Watchdog => 26,
            Interrupt::ProtocolErrorArbitration => 27,
            Interrupt::ProtocolErrorData => 28,
            Interrupt::AccessToReservedAddress => 29,
        }
    }
}

/// One of the interrupt lines of the module.
#[derive(Clone, Copy, Debug, PartialEq, Eq, Structural)]
pub struct InterruptLine(pub u8);

/// Who serves an interrupt.
#[derive(Clone, Copy, Debug, PartialEq, Eq, Structural)]
pub enum Tos {
    Cpu0,
    Dma,
    Cpu1,
    Cpu2,
}

/// The mode of an input pin, as the port control register holds it.
#[derive(Clone, Copy, Debug, PartialEq, Eq, Structural)]
pub struct InputMode(pub u32);

impl InputMode {
    /// No pull device.
    pub fn no_pull_device() -> (value: InputMode)
        ensures
            value == InputMode(0),
    {
        InputMode(0)
    }

    /// Pulled down.
    pub fn pull_down() -> (value: InputMode)
        ensures
            value == InputMode(8),
    {
        InputMode(8)
    }

    /// Pulled up.
    pub fn pull_up() -> (value: InputMode)
        ensures
            value == InputMode(16),
    {
        InputMode(16)
    }
}

/// The mode of an output pin, as the port control register holds it.
#[derive(Clone, Copy, Debug, PartialEq, Eq, Structural)]
pub struct OutputMode(pub u32);

impl OutputMode {
    /// Push-pull.
    pub fn push_pull() -> (value: OutputMode)
        ensures
            value == OutputMode(0x80),
    {
        OutputMode(0x80)
    }

    /// Open drain.
    pub fn open_drain() -> (value: OutputMode)
        ensures
            value == OutputMode(0xc0),
    {
        OutputMode(0xc0)
    }

    /// No output.
    pub fn none() -> (value: OutputMode)
        ensures
            value == OutputMode(0),
    {
        OutputMode(0)
    }
}

/// The driver strength and the levels of a pad.
#[derive(Clone, Copy, Debug, PartialEq, Eq, Structural)]
pub enum PadDriver {
    CmosAutomotiveSpeed1,
    CmosAutomotiveSpeed2,
    CmosAutomotiveSpeed3,
    CmosAutomotiveSpeed4,
    TtlSpeed1,
    TtlSpeed2,
    TtlSpeed3,
    TtlSpeed4,
    Ttl3v3speed1,
    Ttl3v3speed2,
    Ttl3v3speed3,
    Ttl3v3speed4,
}

impl PadDriver {
    /// What the pad driver mode field holds for this driver.
    pub open spec fn value(self) -> int {
        match self {
            PadDriver::CmosAutomotiveSpeed1 => 0,
            PadDriver::CmosAutomotiveSpeed2 => 1,
            PadDriver::CmosAutomotiveSpeed3 => 2,
            PadDriver::CmosAutomotiveSpeed4 => 3,
            PadDriver::TtlSpeed1 => 8,
            PadDriver::TtlSpeed2 => 9,
            PadDriver::TtlSpeed3 => 10,
            PadDriver::TtlSpeed4 => 11,
            PadDriver::Ttl3v3speed1 => 12,
            PadDriver::Ttl3v3speed2 => 13,
            PadDriver::Ttl3v3speed3 => 14,
            PadDriver::Ttl3v3speed4 => 15,
        }
    }

    /// What the pad driver mode field holds for this driver.
    pub fn to_register_value(self) -> (value: u8)
        ensures
            value == self.value(),
            value < 16,
    {
        match self {
            PadDriver::CmosAutomotiveSpeed1 => 0,
            PadDriver::CmosAutomotiveSpeed2 => 1,
            PadDriver::CmosAutomotiveSpeed3 => 2,
            PadDriver::CmosAutomotiveSpeed4 => 3,
            PadDriver::TtlSpeed1 => 8,
            PadDriver::TtlSpeed2 => 9,
            PadDriver::TtlSpeed3 => 10,
            PadDriver::TtlSpeed4 => 11,
            PadDriver::Ttl3v3speed1 => 12,
            PadDriver::Ttl3v3speed2 => 13,
            PadDriver::Ttl3v3speed3 => 14,
            PadDriver::Ttl3v3speed4 => 15,
        }
    }
}

/// The number of a CAN module.
#[derive(Clone, Copy, Debug, PartialEq, Eq, Structural)]
pub struct CanModuleId(pub u8);

impl CanModuleId {
    /// The first module.
    pub fn module_0() -> (value: CanModuleId)
        ensures
            value == CanModuleId(0),
    {
        CanModuleId(0)
    }

    /// The second module.
    pub fn module_1() -> (value: CanModuleId)
        ensures
            value == CanModuleId(1),
    {
        CanModuleId(1)
    }
}

/// The ports that have pins of the CAN modules.
#[derive(Clone, Copy, Debug, PartialEq, Eq, Structural)]
pub enum PortNumber {
    _00,
    _01,
    _02,
    _10,
    _11,
    _12,
    _13,
    _14,
    _15,
    _20,
    _21,
    _22,
    _23,
    _32,
    _33,
    _34,
    _40,
}

impl PortNumber {
    /// The number of the port.
    pub open spec fn number(self) -> int {
        match self {
            PortNumber::_00 => 0,
            PortNumber::_01 => 1,
            PortNumber::_02 => 2,
            PortNumber::_10 => 10,
            PortNumber::_11 => 11,
            PortNumber::_12 => 12,
            PortNumber::_13 => 13,
            PortNumber::_14 => 14,
            PortNumber::_15 => 15,
            PortNumber::_20 => 20,
            PortNumber::_21 => 21,
            PortNumber::_22 => 22,
            PortNumber::_23 => 23,
            PortNumber::_32 => 32,
            PortNumber::_33 => 33,
            PortNumber::_34 => 34,
            PortNumber::_40 => 40,
        }
    }

    /// The number of the port.
    pub fn to_number(self) -> (number: usize)
        ensures
            number == self.number(),
    {
        match self {
            PortNumber::_00 => 0,
            PortNumber::_01 => 1,
            PortNumber::_02 => 2,
            PortNumber::_10 => 10,
            PortNumber::_11 => 11,
            PortNumber::_12 => 12,
            PortNumber::_13 => 13,
            PortNumber::_14 => 14,
            PortNumber::_15 => 15,
            PortNumber::_20 => 20,
            PortNumber::_21 => 21,
            PortNumber::_22 => 22,
            PortNumber::_23 => 23,
            PortNumber::_32 => 32,
            PortNumber::_33 => 33,
            PortNumber::_34 => 34,
            PortNumber::_40 => 40,
        }
    }
}

/// The function of an output pin, as the port control register holds it.
#[derive(Clone, Copy, Debug, PartialEq, Eq, Structural)]
pub struct OutputIdx(pub u32);

impl OutputIdx {
    /// General purpose output.
    pub fn general() -> (value: OutputIdx)
        ensures
            value == OutputIdx(0x80),
    {
        OutputIdx(0x80)
    }

    /// Alternate function 1.
    pub fn alt1() -> (value: OutputIdx)
        ensures
            value == OutputIdx(0x88),
    {
        OutputIdx(0x88)
    }

    /// Alternate function 2.
    pub fn alt2() -> (value: OutputIdx)
        ensures
            value == OutputIdx(0x90),
    {
        OutputIdx(0x90)
    }

    /// Alternate function 3.
    pub fn alt3() -> (value: OutputIdx)
        ensures
            value == OutputIdx(0x98),
    {
        OutputIdx(0x98)
    }

    /// Alternate function 4.
    pub fn alt4() -> (value: OutputIdx)
        ensures
            value == OutputIdx(0xa0),
    {
        OutputIdx(0xa0)
    }

    /// Alternate function 5.
    pub fn alt5() -> (value: OutputIdx)
        ensures
            value == OutputIdx(0xa8),
    {
        OutputIdx(0xa8)
    }

    /// Alternate function 6.
    pub fn alt6() -> (value: OutputIdx)
        ensures
            value == OutputIdx(0xb0),
    {
        OutputIdx(0xb0)
    }

    /// Alternate function 7.
    pub fn alt7() -> (value: OutputIdx)
        ensures
            value == OutputIdx(0xb8),
    {
        OutputIdx(0xb8)
    }
}

/// Which of the inputs of a node a pin is.
#[derive(Clone, Copy, Debug, PartialEq, Eq, Structural)]
pub enum RxSel {
    _A,
    _B,
    _C,
    _D,
    _E,
    _F,
    _G,
    _H,
}

impl RxSel {
    /// What the input selection field holds for this input.
    pub open spec fn value(self) -> int {
        match self {
            RxSel::_A => 0,
            RxSel::_B => 1,
            RxSel::_C => 2,
            RxSel::_D => 3,
            RxSel::_E => 4,
            RxSel::_F => 5,
            RxSel::_G => 6,
            RxSel::_H => 7,
        }
    }

    /// What the input selection field holds for this input.
    pub fn to_register_value(self) -> (value: u8)
        ensures
            value == self.value(),
            value < 8,
    {
        match self {
            RxSel::_A => 0,
            RxSel::_B => 1,
            RxSel::_C => 2,
            RxSel::_D => 3,
            RxSel::_E => 4,
            RxSel::_F => 5,
            RxSel::_G => 6,
            RxSel::_H => 7,
        }
    }
}

/// A pin that can be the input of a node.
#[derive(Clone, Copy, Debug)]
pub struct RxdIn {
    /// The module of the node.
    pub module: CanModuleId,
    /// The node.
    pub node_id: NodeId,
    /// The port of the pin.
    pub port: PortNumber,
    /// The number of the pin in its port.
    pub pin_index: u8,
    /// Which of the node's inputs the pin is.
    pub select: RxSel,
}

impl RxdIn {
    /// The input pin with these parts.
    pub fn new(module: CanModuleId, node_id: NodeId, port: PortNumber, pin_index: u8, select: RxSel) -> (pin:
        RxdIn)
        ensures
            pin.module == module,
            pin.node_id == node_id,
            pin.port == port,
            pin.pin_index == pin_index,
            pin.select == select,
    {
        RxdIn { module, node_id, port, pin_index, select }
    }
}

/// A pin that can be the output of a node.
#[derive(Clone, Copy, Debug)]
pub struct TxdOut {
    /// The module of the node.
    pub module: CanModuleId,
    /// The node.
    pub node_id: NodeId,
    /// The port of the pin.
    pub port: PortNumber,
    /// The number of the pin in its port.
    pub pin_index: u8,
    /// The function of the pin that is the node's output.
    pub select: OutputIdx,
}

impl TxdOut {
    /// The output pin with these parts.
    pub fn new(module: CanModuleId, node_id: NodeId, port: PortNumber, pin_index: u8, select: OutputIdx) -> (pin:
        TxdOut)
        ensures
            pin.module == module,
            pin.node_id == node_id,
            pin.port == port,
            pin.pin_index == pin_index,
            pin.select == select,
    {
        TxdOut { module, node_id, port, pin_index, select }
    }
}

/// Pin 20.7 as input B of node 0 of module 0.
pub fn rxd00b_p20_7_in() -> (pin: RxdIn)
    ensures
        pin.module == CanModuleId(0),
        pin.node_id.index() == 0,
        pin.port == PortNumber::_20,
        pin.pin_index == 7,
        pin.select == RxSel::_B,
{
    RxdIn::new(CanModuleId(0), NodeId::new(0), PortNumber::_20, 7, RxSel::_B)
}

/// Pin 20.8 as output of node 0 of module 0.
pub fn txd00_p20_8_out() -> (pin: TxdOut)
    ensures
        pin.module == CanModuleId(0),
        pin.node_id.index() == 0,
        pin.port == PortNumber::_20,
        pin.pin_index == 8,
        pin.select == OutputIdx(0xa8),
{
    TxdOut::new(CanModuleId(0), NodeId::new(0), PortNumber::_20, 8, OutputIdx(0xa8))
}


/// The most dedicated transmit buffers and elements of the transmit FIFO or
/// queue that a node can have, together.
pub const TX_BUFFERS_MAX: u8 = 32;

/// The most elements that the transmit event FIFO can have.
pub const TX_EVENTS_MAX: u8 = 32;

/// The most dedicated receive buffers, and the most elements of a receive FIFO.
pub const RX_ELEMENTS_MAX: u8 = 64;

/// The most filters for standard identifiers.
pub const STANDARD_FILTERS_MAX: u8 = 128;

/// The most filters for extended identifiers.
pub const EXTENDED_FILTERS_MAX: u8 = 64;

/// Why a node could not be configured.
#[derive(Clone, Copy, Debug, PartialEq, Eq, Structural)]
pub enum ConfigError {
    /// The buffers, FIFOs and filter lists asked for do not fit the node's
    /// window of the message RAM.
    RamOverflow,
    /// The clock selection did not read back as it was written.
    ClockSwitchFailed,
}

/// The smaller of two numbers.
pub open spec fn least(a: int, b: int) -> int {
    if a <= b {
        a
    } else {
        b
    }
}

/// The smaller of two numbers.
fn least_of(a: u8, b: u8) -> (m: u8)
    ensures
        m == least(a as int, b as int),
{
    if a <= b {
        a
    } else {
        b
    }
}

impl TxMode {
    /// Whether a node in this mode has dedicated transmit buffers.
    pub open spec fn has_dedicated(self) -> bool {
        self == TxMode::DedicatedBuffers || self == TxMode::SharedFifo || self
            == TxMode::SharedQueue
    }

    /// Whether a node in this mode has a transmit FIFO or queue.
    pub open spec fn has_fifo_queue(self) -> bool {
        self != TxMode::DedicatedBuffers
    }
}

impl RxMode {
    /// Whether a node in this mode has dedicated receive buffers.
    pub open spec fn has_dedicated(self) -> bool {
        self != RxMode::Fifo0 && self != RxMode::Fifo1
    }

    /// Whether a node in this mode has receive FIFO 0.
    pub open spec fn has_fifo0(self) -> bool {
        self == RxMode::Fifo0 || self == RxMode::SharedFifo0 || self == RxMode::SharedAll
    }

    /// Whether a node in this mode has receive FIFO 1.
    pub open spec fn has_fifo1(self) -> bool {
        self == RxMode::Fifo1 || self == RxMode::SharedFifo1 || self == RxMode::SharedAll
    }
}

/// What is known of a node that runs.
pub struct CanNodeView {
    /// The number of the node.
    pub node_id: NodeId,
    /// The format of its frames.
    pub frame_mode: FrameMode,
    /// Where its transmit buffers lie.
    pub tx_buffers: DedicatedData,
    /// The number of its dedicated transmit buffers.
    pub dedicated_tx_buffers_number: u8,
    /// The number of elements of its transmit FIFO or queue.
    pub tx_fifo_queue_size: u8,
    /// Where its dedicated receive buffers lie.
    pub rx_buffers: DedicatedData,
    /// Receive FIFO 0.
    pub rx_fifo0: FifoData,
    /// Receive FIFO 1.
    pub rx_fifo1: FifoData,
}

impl CanNodeConfig {
    /// The dedicated transmit buffers that the node gets.
    pub open spec fn dedicated_tx_buffers(self) -> int {
        if self.frame_type.transmits() && self.tx_mode.has_dedicated() {
            least(self.dedicated_tx_buffers_number as int, TX_BUFFERS_MAX as int)
        } else {
            0
        }
    }

    /// The elements of the transmit FIFO or queue that the node gets: no
    /// more than the dedicated buffers leave of the 32 transmit buffers.
    pub open spec fn tx_fifo_queue_elements(self) -> int {
        if self.frame_type.transmits() && self.tx_mode.has_fifo_queue() {
            least(self.tx_fifo_queue_size as int, TX_BUFFERS_MAX - self.dedicated_tx_buffers())
        } else {
            0
        }
    }

    /// The elements of the transmit event FIFO that the node gets.
    pub open spec fn tx_event_elements(self) -> int {
        if self.frame_type.transmits() {
            least(self.tx_event_fifo_size as int, TX_EVENTS_MAX as int)
        } else {
            0
        }
    }

    /// The dedicated receive buffers that the node gets.
    pub open spec fn rx_buffers(self) -> int {
        if self.rx_mode.has_dedicated() {
            least(self.rx_buffers_number as int, RX_ELEMENTS_MAX as int)
        } else {
            0
        }
    }

    /// The elements of receive FIFO 0 that the node gets.
    pub open spec fn rx_fifo0_elements(self) -> int {
        if self.rx_mode.has_fifo0() {
            least(self.rx_fifo0.size as int, RX_ELEMENTS_MAX as int)
        } else {
            0
        }
    }

    /// The elements of receive FIFO 1 that the node gets.
    pub open spec fn rx_fifo1_elements(self) -> int {
        if self.rx_mode.has_fifo1() {
            least(self.rx_fifo1.size as int, RX_ELEMENTS_MAX as int)
        } else {
            0
        }
    }

    /// The filters for standard identifiers that the node gets.
    pub open spec fn standard_filters(self) -> int {
        least(self.standard_filter_list_size as int, STANDARD_FILTERS_MAX as int)
    }

    /// The filters for extended identifiers that the node gets.
    pub open spec fn extended_filters(self) -> int {
        least(self.extended_filter_list_size as int, EXTENDED_FILTERS_MAX as int)
    }

    /// The regions of the message RAM that the node needs, in the order in
    /// which they are placed: the receive FIFOs, the receive buffers, the
    /// transmit buffers with the FIFO or queue behind them, the transmit
    /// event FIFO, and the two filter lists.
    pub open spec fn region_requests(self) -> Seq<RegionRequest> {
        seq![
            RegionRequest {
                kind: RegionKind::RxFifo0,
                field_size: self.rx_fifo0.field_size,
                count: self.rx_fifo0_elements() as u8,
            },
            RegionRequest {
                kind: RegionKind::RxFifo1,
                field_size: self.rx_fifo1.field_size,
                count: self.rx_fifo1_elements() as u8,
            },
            RegionRequest {
                kind: RegionKind::RxBuffers,
                field_size: self.rx_buffer_data_field_size,
                count: self.rx_buffers() as u8,
            },
            RegionRequest {
                kind: RegionKind::TxBuffers,
                field_size: self.tx_buffer_data_field_size,
                count: self.dedicated_tx_buffers() as u8,
            },
            RegionRequest {
                kind: RegionKind::TxFifoQueue,
                field_size: self.tx_buffer_data_field_size,
                count: self.tx_fifo_queue_elements() as u8,
            },
            RegionRequest {
                kind: RegionKind::TxEventFifo,
                field_size: self.tx_buffer_data_field_size,
                count: self.tx_event_elements() as u8,
            },
            RegionRequest {
                kind: RegionKind::StandardFilters,
                field_size: self.tx_buffer_data_field_size,
                count: self.standard_filters() as u8,
            },
            RegionRequest {
                kind: RegionKind::ExtendedFilters,
                field_size: self.tx_buffer_data_field_size,
                count: self.extended_filters() as u8,
            },
        ]
    }

    /// Where region `i` of `region_requests` starts in the message RAM.
    pub open spec fn region_start(self, i: int) -> u16 {
        (self.message_ram.start_spec() + total_bytes(self.region_requests().take(i))) as u16
    }

    /// Whether the regions that the node needs fit its window.
    pub open spec fn fits(self) -> bool {
        total_bytes(self.region_requests()) <= self.message_ram.size_spec()
    }

    /// What the nominal bit timing register is to hold: calculated from the
    /// targets, or as given.
    pub open spec fn nominal_fields(self, clock_hz: u32) -> NominalBitTiming {
        if self.calculate_bit_timing_values {
            nominal_timing(
                clock_hz,
                self.baud_rate.baud_rate,
                self.baud_rate.sample_point,
                self.baud_rate.sync_jump_with,
            ).nominal()
        } else {
            NominalBitTiming {
                brp: self.baud_rate.prescalar,
                sjw: self.baud_rate.sync_jump_with as u8,
                tseg1: self.baud_rate.time_segment_1,
                tseg2: self.baud_rate.time_segment_2,
            }
        }
    }

    /// What the data phase bit timing register is to hold: calculated from
    /// the targets, or as given.
    pub open spec fn data_fields(self, clock_hz: u32) -> DataBitTiming {
        if self.calculate_bit_timing_values {
            fast_timing(
                clock_hz,
                self.fast_baud_rate.baud_rate,
                self.fast_baud_rate.sample_point,
                self.fast_baud_rate.sync_jump_with,
            ).data()
        } else {
            DataBitTiming {
                brp: self.fast_baud_rate.prescalar as u8,
                sjw: self.fast_baud_rate.sync_jump_with as u8,
                tseg1: self.fast_baud_rate.time_segment_1,
                tseg2: self.fast_baud_rate.time_segment_2,
            }
        }
    }

    /// The node that the configuration gives.
    pub open spec fn node(self, node_id: NodeId) -> CanNodeView {
        CanNodeView {
            node_id,
            frame_mode: self.frame_mode,
            tx_buffers: DedicatedData {
                field_size: self.tx_buffer_data_field_size,
                start_address: self.region_start(3),
            },
            dedicated_tx_buffers_number: self.dedicated_tx_buffers() as u8,
            tx_fifo_queue_size: self.tx_fifo_queue_elements() as u8,
            rx_buffers: DedicatedData {
                field_size: self.rx_buffer_data_field_size,
                start_address: self.region_start(2),
            },
            rx_fifo0: FifoData {
                field_size: self.rx_fifo0.field_size,
                operation_mode: self.rx_fifo0.operation_mode,
                watermark_level: self.rx_fifo0.watermark_level,
                size: self.rx_fifo0_elements() as u8,
                start_address: self.region_start(0),
            },
            rx_fifo1: FifoData {
                field_size: self.rx_fifo1.field_size,
                operation_mode: self.rx_fifo1.operation_mode,
                watermark_level: self.rx_fifo1.watermark_level,
                size: self.rx_fifo1_elements() as u8,
                start_address: self.region_start(1),
            },
        }
    }
}

/// The operations that set the bit timing of the data phase.
pub open spec fn fast_baud_rate_ops(fields: DataBitTiming, delay: u8) -> Seq<Op> {
    if delay != 0 {
        seq![
            update_op(Reg::Dbtp, data_timing_update(fields)),
            flag_op(Reg::Dbtp, 23, true),
            field_op(Reg::Tdcr, 8, 7, delay as u32),
        ]
    } else {
        seq![update_op(Reg::Dbtp, data_timing_update(fields))]
    }
}

/// The operation that sets the frame format.
pub open spec fn frame_mode_op(frame_mode: FrameMode) -> Op {
    update_op(
        Reg::Cccr,
        frame_mode_update(frame_mode != FrameMode::Standard, frame_mode == FrameMode::FdLongAndFast),
    )
}

/// The operations that let the interrupts of transmit buffers 0 to
/// `count - 1` through.
pub open spec fn tx_interrupt_ops(count: int) -> Seq<Op> {
    Seq::new(count as nat, |i: int| flag_op(Reg::Txbtie, i as u32, true))
}

/// The operations that place a receive FIFO: those of FIFO 0, or of FIFO 1.
pub open spec fn rx_fifo_ops(first: bool, data: FifoData) -> Seq<Op> {
    let reg = if first {
        Reg::Rxf0c
    } else {
        Reg::Rxf1c
    };
    seq![
        field_op(Reg::Rxesc, if first { 0u32 } else { 4u32 }, 3, data.field_size.code() as u32),
        field_op(reg, 2, 14, (data.start_address >> 2) as u32),
        field_op(reg, 16, 7, data.size as u32),
        flag_op(reg, 31, data.operation_mode == RxFifoMode::Overwrite),
        field_op(reg, 24, 7, data.watermark_level as u32),
    ]
}

/// The operations that place the transmit buffers, the transmit FIFO or
/// queue and the transmit event FIFO, and let the interrupts of all
/// transmit buffers through.
pub open spec fn tx_ops(config: CanNodeConfig) -> Seq<Op> {
    seq![
        field_op(Reg::Txesc, 0, 3, config.tx_buffer_data_field_size.code() as u32),
        field_op(Reg::Txbc, 2, 14, (config.region_start(3) >> 2) as u32),
        field_op(Reg::Txbc, 16, 6, config.dedicated_tx_buffers() as u32),
        flag_op(Reg::Txbc, 30, config.tx_mode != TxMode::DedicatedBuffers),
        field_op(Reg::Txbc, 24, 6, config.tx_fifo_queue_elements() as u32),
        field_op(Reg::Txefc, 2, 14, (config.region_start(5) >> 2) as u32),
        field_op(Reg::Txefc, 16, 6, config.tx_event_elements() as u32),
    ] + tx_interrupt_ops(config.dedicated_tx_buffers() + config.tx_fifo_queue_elements())
}

/// The operations that place the receive buffers and the receive FIFOs.
pub open spec fn rx_ops(config: CanNodeConfig, node_id: NodeId) -> Seq<Op> {
    seq![
        field_op(Reg::Rxesc, 8, 3, config.rx_buffer_data_field_size.code() as u32),
        field_op(Reg::Rxbc, 2, 14, (config.region_start(2) >> 2) as u32),
    ] + rx_fifo_ops(true, config.node(node_id).rx_fifo0) + rx_fifo_ops(
        false,
        config.node(node_id).rx_fifo1,
    )
}

/// The operations that reject remote frames, as far as the configuration
/// asks for it.
pub open spec fn reject_ops(config: CanNodeConfig) -> Seq<Op> {
    (if config.reject_remote_frames_with_standard_id {
        seq![flag_op(Reg::Gfc, 1, true)]
    } else {
        Seq::<Op>::empty()
    }) + (if config.reject_remote_frames_with_extended_id {
        seq![flag_op(Reg::Gfc, 0, true)]
    } else {
        Seq::<Op>::empty()
    })
}

/// The operations that place the filter lists and set what is rejected.
pub open spec fn filter_ops(config: CanNodeConfig) -> Seq<Op> {
    seq![
        field_op(Reg::Sidfc, 2, 14, (config.region_start(6) >> 2) as u32),
        field_op(Reg::Sidfc, 16, 8, config.standard_filters() as u32),
        field_op(Reg::Xidfc, 2, 14, (config.region_start(7) >> 2) as u32),
        field_op(Reg::Xidfc, 16, 7, config.extended_filters() as u32),
    ] + reject_ops(config)
}

/// The program that configures node `node_id` with `config`, where the
/// clock of the module runs at `clock_hz` and the CC control register held
/// `cccr` when the node was taken.
///
/// The configuration change is enabled. Then, in this order: the clock is
/// selected, and the program ends here if the selection did not take; the
/// nominal bit timing is set; the bit timing of the data phase, unless the
/// frames are classic ones; the frame format; the transmit side, if the
/// node sends; the receive side; the filters. Then the configuration
/// change is disabled and the node runs.
pub open spec fn configure_program(node_id: NodeId, config: CanNodeConfig, clock_hz: u32, cccr: u32) -> Seq<
    Op,
> {
    enable_change_ops(cccr) + clock_source_program(node_id.index(), config.clock_source) + seq![
        update_op(Reg::Nbtp, nominal_timing_update(config.nominal_fields(clock_hz))),
    ] + (if config.frame_mode != FrameMode::Standard {
        fast_baud_rate_ops(config.data_fields(clock_hz), config.fast_baud_rate.transceiver_delay_offset)
    } else {
        Seq::<Op>::empty()
    }) + seq![frame_mode_op(config.frame_mode)] + (if config.frame_type.transmits() {
        tx_ops(config)
    } else {
        Seq::<Op>::empty()
    }) + rx_ops(config, node_id) + filter_ops(config) + disable_change_ops()
}

/// A node of module `Id` that was claimed and can be configured.
#[derive(Debug)]
pub struct NewCanNode<Id> {
    node_id: NodeId,
    _module: PhantomData<Id>,
}

/// A node of module `Id` that runs. What it asks of the hardware is to be
/// carried out on the registers of that module.
#[derive(Debug)]
pub struct CanNode<Id> {
    _module: PhantomData<Id>,
    node_id: NodeId,
    frame_mode: FrameMode,
    tx_buffers: DedicatedData,
    dedicated_tx_buffers_number: u8,
    tx_fifo_queue_size: u8,
    rx_buffers: DedicatedData,
    rx_fifo0: FifoData,
    rx_fifo1: FifoData,
}

impl<Id> View for CanNode<Id> {
    type V = CanNodeView;

    closed spec fn view(&self) -> CanNodeView {
        CanNodeView {
            node_id: self.node_id,
            frame_mode: self.frame_mode,
            tx_buffers: self.tx_buffers,
            dedicated_tx_buffers_number: self.dedicated_tx_buffers_number,
            tx_fifo_queue_size: self.tx_fifo_queue_size,
            rx_buffers: self.rx_buffers,
            rx_fifo0: self.rx_fifo0,
            rx_fifo1: self.rx_fifo1,
        }
    }
}

impl CanNodeConfig {
    /// The regions of the message RAM that the node needs.
    pub fn requested_regions(&self) -> (requests: Vec<RegionRequest>)
        ensures
            requests@ == self.region_requests(),
    {
        let transmits = self.frame_type.includes_transmission();
        let dedicated: u8 = if transmits && self.tx_mode != TxMode::Fifo && self.tx_mode
            != TxMode::Queue {
            least_of(self.dedicated_tx_buffers_number, TX_BUFFERS_MAX)
        } else {
            0
        };
        let queued: u8 = if transmits && self.tx_mode != TxMode::DedicatedBuffers {
            least_of(self.tx_fifo_queue_size, TX_BUFFERS_MAX - dedicated)
        } else {
            0
        };
        let events: u8 = if transmits {
            least_of(self.tx_event_fifo_size, TX_EVENTS_MAX)
        } else {
            0
        };
        let buffers: u8 = if self.rx_mode != RxMode::Fifo0 && self.rx_mode != RxMode::Fifo1 {
            least_of(self.rx_buffers_number, RX_ELEMENTS_MAX)
        } else {
            0
        };
        let fifo0: u8 = if self.rx_mode == RxMode::Fifo0 || self.rx_mode == RxMode::SharedFifo0
            || self.rx_mode == RxMode::SharedAll {
            least_of(self.rx_fifo0.size, RX_ELEMENTS_MAX)
        } else {
            0
        };
        let fifo1: u8 = if self.rx_mode == RxMode::Fifo1 || self.rx_mode == RxMode::SharedFifo1
            || self.rx_mode == RxMode::SharedAll {
            least_of(self.rx_fifo1.size, RX_ELEMENTS_MAX)
        } else {
            0
        };
        let size = self.tx_buffer_data_field_size;
        let mut requests: Vec<RegionRequest> = Vec::new();
        requests.push(
            RegionRequest {
                kind: RegionKind::RxFifo0,
                field_size: self.rx_fifo0.field_size,
                count: fifo0,
            },
        );
        requests.push(
            RegionRequest {
                kind: RegionKind::RxFifo1,
                field_size: self.rx_fifo1.field_size,
                count: fifo1,
            },
        );
        requests.push(
            RegionRequest {
                kind: RegionKind::RxBuffers,
                field_size: self.rx_buffer_data_field_size,
                count: buffers,
            },
        );
        requests.push(RegionRequest { kind: RegionKind::TxBuffers, field_size: size, count: dedicated });
        requests.push(RegionRequest { kind: RegionKind::TxFifoQueue, field_size: size, count: queued });
        requests.push(RegionRequest { kind: RegionKind::TxEventFifo, field_size: size, count: events });
        requests.push(
            RegionRequest {
                kind: RegionKind::StandardFilters,
                field_size: size,
                count: least_of(self.standard_filter_list_size, STANDARD_FILTERS_MAX),
            },
        );
        requests.push(
            RegionRequest {
                kind: RegionKind::ExtendedFilters,
                field_size: size,
                count: least_of(self.extended_filter_list_size, EXTENDED_FILTERS_MAX),
            },
        );
        assert(requests@ =~= self.region_requests());
        requests
    }
}

impl<Id> NewCanNode<Id> {
    /// The number of the node.
    pub closed spec fn node_id(&self) -> NodeId {
        self.node_id
    }

    /// The number of the node.
    pub fn id(&self) -> (id: NodeId)
        ensures
            id == self.node_id(),
    {
        self.node_id
    }

    /// Sets the nominal bit timing: calculated from the targets of
    /// `baud_rate` and the clock, or to the register fields given in it.
    fn configure_baud_rate(effects: &mut NodeEffects, config: &CanNodeConfig, clock_hz: u32)
        requires
            old(effects).wf(),
            old(effects).phase() == NodePhase::ConfigurationChangeEnabled,
        ensures
            final(effects).wf(),
            final(effects).phase() == NodePhase::ConfigurationChangeEnabled,
            final(effects).program() == old(effects).program().push(
                update_op(Reg::Nbtp, nominal_timing_update(config.nominal_fields(clock_hz))),
            ),
    {
        let baud_rate = &config.baud_rate;
        if config.calculate_bit_timing_values {
            let timing = calculate_nominal_timing(
                clock_hz,
                baud_rate.baud_rate,
                baud_rate.sample_point,
                baud_rate.sync_jump_with,
            );
            effects.set_nominal_bit_timing(&timing.to_nominal());
        } else {
            Self::set_bit_timing_values(
                effects,
                #[verifier::truncate]
                (baud_rate.sync_jump_with as u8),
                baud_rate.time_segment_2,
                baud_rate.time_segment_1,
                baud_rate.prescalar,
            );
        }
    }

    /// Sets the nominal bit timing to these register fields.
    fn set_bit_timing_values(effects: &mut NodeEffects, sjw: u8, time_segment2: u8, time_segment1: u8, prescaler: u16)
        requires
            old(effects).wf(),
            old(effects).phase() == NodePhase::ConfigurationChangeEnabled,
        ensures
            final(effects).wf(),
            final(effects).phase() == NodePhase::ConfigurationChangeEnabled,
            final(effects).program() == old(effects).program().push(
                update_op(
                    Reg::Nbtp,
                    nominal_timing_update(
                        NominalBitTiming { brp: prescaler, sjw, tseg1: time_segment1, tseg2: time_segment2 },
                    ),
                ),
            ),
    {
        effects.set_nominal_bit_timing(
            &NominalBitTiming { brp: prescaler, sjw, tseg1: time_segment1, tseg2: time_segment2 },
        );
    }

    /// Sets the bit timing of the data phase, and the transmitter delay
    /// compensation if an offset is given.
    fn configure_fast_baud_rate(effects: &mut NodeEffects, config: &CanNodeConfig, clock_hz: u32)
        requires
            old(effects).wf(),
            old(effects).phase() == NodePhase::ConfigurationChangeEnabled,
        ensures
            final(effects).wf(),
            final(effects).phase() == NodePhase::ConfigurationChangeEnabled,
            final(effects).program() == old(effects).program() + fast_baud_rate_ops(
                config.data_fields(clock_hz),
                config.fast_baud_rate.transceiver_delay_offset,
            ),
    {
        let baud_rate = &config.fast_baud_rate;
        if config.calculate_bit_timing_values {
            let timing = calculate_fast_timing(
                clock_hz,
                baud_rate.baud_rate,
                baud_rate.sample_point,
                baud_rate.sync_jump_with,
            );
            effects.set_data_bit_timing(&timing.to_data());
        } else {
            effects.set_data_bit_timing(
                &DataBitTiming {
                    brp: #[verifier::truncate]
                    (baud_rate.prescalar as u8),
                    sjw: #[verifier::truncate]
                    (baud_rate.sync_jump_with as u8),
                    tseg1: baud_rate.time_segment_1,
                    tseg2: baud_rate.time_segment_2,
                },
            );
        }
        if baud_rate.transceiver_delay_offset != 0 {
            effects.set_transceiver_delay_compensation_offset(baud_rate.transceiver_delay_offset);
        }
        assert(effects.program() =~= old(effects).program() + fast_baud_rate_ops(
            config.data_fields(clock_hz),
            config.fast_baud_rate.transceiver_delay_offset,
        ));
    }

    /// Sets the frame format.
    fn set_frame_mode(effects: &mut NodeEffects, frame_mode: FrameMode)
        requires
            old(effects).wf(),
            old(effects).phase() == NodePhase::ConfigurationChangeEnabled,
        ensures
            final(effects).wf(),
            final(effects).phase() == NodePhase::ConfigurationChangeEnabled,
            final(effects).program() == old(effects).program().push(frame_mode_op(frame_mode)),
    {
        let (fdoe, brse) = match frame_mode {
            FrameMode::Standard => (false, false),
            FrameMode::FdLong => (true, false),
            FrameMode::FdLongAndFast => (true, true),
        };
        effects.set_frame_mode(fdoe, brse);
    }

    /// Places a receive FIFO: FIFO 0 if `first`, else FIFO 1.
    fn set_rx_fifo(effects: &mut NodeEffects, first: bool, data: FifoData)
        requires
            old(effects).wf(),
            old(effects).phase() == NodePhase::ConfigurationChangeEnabled,
            data.start_address % 4 == 0,
        ensures
            final(effects).wf(),
            final(effects).phase() == NodePhase::ConfigurationChangeEnabled,
            final(effects).program() == old(effects).program() + rx_fifo_ops(first, data),
    {
        if first {
            effects.set_rx_fifo0_data_field_size(data.field_size);
            effects.set_rx_fifo0_start_address(data.start_address);
            effects.set_rx_fifo0_size(data.size);
            effects.set_rx_fifo0_operating_mode(data.operation_mode);
            effects.set_rx_fifo0_watermark_level(data.watermark_level);
        } else {
            effects.set_rx_fifo1_data_field_size(data.field_size);
            effects.set_rx_fifo1_start_address(data.start_address);
            effects.set_rx_fifo1_size(data.size);
            effects.set_rx_fifo1_operating_mode(data.operation_mode);
            effects.set_rx_fifo1_watermark_level(data.watermark_level);
        }
        assert(effects.program() =~= old(effects).program() + rx_fifo_ops(first, data));
    }

    /// Lets the interrupts of transmit buffers 0 to `size - 1` through.
    fn set_inner_tx_int(effects: &mut NodeEffects, size: u8)
        requires
            old(effects).wf(),
            size <= 32,
        ensures
            final(effects).wf(),
            final(effects).phase() == old(effects).phase(),
            final(effects).program() == old(effects).program() + tx_interrupt_ops(size as int),
    {
        let mut id: u8 = 0;
        while id < size
            invariant
                0 <= id <= size <= 32,
                effects.wf(),
                effects.phase() == old(effects).phase(),
                effects.program() == old(effects).program() + tx_interrupt_ops(id as int),
            decreases size - id,
        {
            let ghost before = effects.program();
            effects.enable_tx_buffer_transmission_interrupt(TxBufferId(id));
            assert(before.push(flag_op(Reg::Txbtie, id as u32, true)) =~= old(effects).program()
                + tx_interrupt_ops(id as int + 1));
            id = id + 1;
        }
    }
}


impl<Id> NewCanNode<Id> {
    /// Places the transmit buffers, the transmit FIFO or queue and the
    /// transmit event FIFO, and lets the interrupts of all transmit buffers
    /// through.
    fn set_tx(effects: &mut NodeEffects, config: &CanNodeConfig, plan: &Vec<Region>)
        requires
            old(effects).wf(),
            old(effects).phase() == NodePhase::ConfigurationChangeEnabled,
            placed_in_order(plan@, config.message_ram.start_spec(), config.region_requests()),
            forall|i: int| 0 <= i < plan@.len() ==> (#[trigger] plan@[i]).start_address % 4 == 0,
        ensures
            final(effects).wf(),
            final(effects).phase() == NodePhase::ConfigurationChangeEnabled,
            final(effects).program() == old(effects).program() + tx_ops(*config),
    {
        let buffers = plan[3];
        let queue = plan[4];
        let events = plan[5];
        effects.set_tx_buffer_data_field_size(
            config.tx_buffer_data_field_size.to_esci_register_value(),
        );
        effects.set_tx_buffer_start_address(buffers.start_address);
        effects.set_dedicated_tx_buffers_number(buffers.count);
        effects.set_transmit_fifo_queue_mode(config.tx_mode);
        effects.set_transmit_fifo_queue_size(queue.count);
        effects.set_tx_event_fifo_start_address(events.start_address);
        effects.set_tx_event_fifo_size(events.count);
        let ghost placed = effects.program();
        assert(placed =~= old(effects).program() + tx_ops(*config).take(7));
        Self::set_inner_tx_int(effects, buffers.count + queue.count);
        assert(effects.program() =~= old(effects).program() + tx_ops(*config));
    }

    /// Places the receive buffers and the receive FIFOs.
    fn set_rx(effects: &mut NodeEffects, config: &CanNodeConfig, node: &CanNode<Id>)
        requires
            old(effects).wf(),
            old(effects).phase() == NodePhase::ConfigurationChangeEnabled,
            node@ == config.node(node@.node_id),
            node@.rx_buffers.start_address % 4 == 0,
            node@.rx_fifo0.start_address % 4 == 0,
            node@.rx_fifo1.start_address % 4 == 0,
        ensures
            final(effects).wf(),
            final(effects).phase() == NodePhase::ConfigurationChangeEnabled,
            final(effects).program() == old(effects).program() + rx_ops(*config, node@.node_id),
    {
        effects.set_rx_buffer_data_field_size(node.rx_buffers.field_size);
        effects.set_rx_buffer_start_address(node.rx_buffers.start_address);
        Self::set_rx_fifo(effects, true, node.rx_fifo0);
        Self::set_rx_fifo(effects, false, node.rx_fifo1);
        assert(effects.program() =~= old(effects).program() + rx_ops(*config, node@.node_id));
    }

    /// Places the filter lists and sets what is rejected.
    fn set_filters(effects: &mut NodeEffects, config: &CanNodeConfig, plan: &Vec<Region>)
        requires
            old(effects).wf(),
            old(effects).phase() == NodePhase::ConfigurationChangeEnabled,
            placed_in_order(plan@, config.message_ram.start_spec(), config.region_requests()),
            forall|i: int| 0 <= i < plan@.len() ==> (#[trigger] plan@[i]).start_address % 4 == 0,
        ensures
            final(effects).wf(),
            final(effects).phase() == NodePhase::ConfigurationChangeEnabled,
            final(effects).program() == old(effects).program() + filter_ops(*config),
    {
        let standard = plan[6];
        let extended = plan[7];
        effects.set_standard_filter_list_start_address(standard.start_address);
        effects.set_standard_filter_list_size(standard.count);
        effects.set_extended_filter_list_start_address(extended.start_address);
        effects.set_extended_filter_list_size(extended.count);
        if config.reject_remote_frames_with_standard_id {
            effects.reject_remote_frames_with_standard_id();
        }
        if config.reject_remote_frames_with_extended_id {
            effects.reject_remote_frames_with_extended_id();
        }
        assert(effects.program() =~= old(effects).program() + filter_ops(*config));
    }

    /// Configures the node with `config`. `clock_hz` is the frequency of
    /// the clock that the module gives its nodes, and `cccr` is what the CC
    /// control register of the node holds now.
    ///
    /// Fails with `RamOverflow`, and asks nothing of the hardware, if and
    /// only if the buffers, FIFOs and filter lists that `config` asks for
    /// need more bytes than the node's window of the message RAM has. Else
    /// the node that runs is to be had once the program has been carried
    /// out: the program is `configure_program`, every operation of it is
    /// in order where it stands, and it brings the node to `Configured`,
    /// with both handshake bits of the CC control register clear whatever
    /// the register held before.
    pub fn configure(self, config: CanNodeConfig, clock_hz: u32, cccr: u32) -> (pending: Result<
        Pending<CanNode<Id>>,
        ConfigError,
    >)
        ensures
            pending is Err <==> !config.fits(),
            pending is Err ==> pending == Err::<Pending<CanNode<Id>>, ConfigError>(
                ConfigError::RamOverflow,
            ),
            pending matches Ok(p) ==> {
                &&& p.progress() == SequencerView::start(
                    configure_program(self.node_id(), config, clock_hz, cccr),
                )
                &&& phase_through(p.progress().program, NodePhase::Claimed) == Some(
                    NodePhase::Configured,
                )
                &&& forall|before: u32|
                    #[trigger] control_after(p.progress().program, before) & CCCR_HANDSHAKE == 0
                &&& p.outcome()@ == config.node(self.node_id())
            },
    {
        let requests = config.requested_regions();
        let plan = match plan_layout(&config.message_ram, &requests) {
            Ok(plan) => plan,
            Err(_) => {
                return Err(ConfigError::RamOverflow);
            },
        };
        let node = CanNode::<Id> {
            _module: PhantomData,
            node_id: self.node_id,
            frame_mode: config.frame_mode,
            tx_buffers: DedicatedData {
                field_size: config.tx_buffer_data_field_size,
                start_address: plan[3].start_address,
            },
            dedicated_tx_buffers_number: plan[3].count,
            tx_fifo_queue_size: plan[4].count,
            rx_buffers: DedicatedData {
                field_size: config.rx_buffer_data_field_size,
                start_address: plan[2].start_address,
            },
            rx_fifo0: FifoData {
                field_size: config.rx_fifo0.field_size,
                operation_mode: config.rx_fifo0.operation_mode,
                watermark_level: config.rx_fifo0.watermark_level,
                size: plan[0].count,
                start_address: plan[0].start_address,
            },
            rx_fifo1: FifoData {
                field_size: config.rx_fifo1.field_size,
                operation_mode: config.rx_fifo1.operation_mode,
                watermark_level: config.rx_fifo1.watermark_level,
                size: plan[1].count,
                start_address: plan[1].start_address,
            },
        };
        assert(node@ == config.node(self.node_id()));
        let mut effects = NodeEffects::new();
        effects.enable_configuration_change(cccr);
        let clock = set_clock_source(ClockSelect::new(self.node_id), config.clock_source);
        effects.append_neutral(&clock);
        Self::configure_baud_rate(&mut effects, &config, clock_hz);
        let ghost timed = effects.program();
        if config.frame_mode != FrameMode::Standard {
            Self::configure_fast_baud_rate(&mut effects, &config, clock_hz);
        }
        let ghost fast = effects.program();
        Self::set_frame_mode(&mut effects, config.frame_mode);
        let ghost framed = effects.program();
        if config.frame_type.includes_transmission() {
            Self::set_tx(&mut effects, &config, &plan);
        }
        let ghost sending = effects.program();
        Self::set_rx(&mut effects, &config, &node);
        Self::set_filters(&mut effects, &config, &plan);
        effects.disable_configuration_change();
        proof {
            let e = Seq::<Op>::empty();
            assert(timed =~= enable_change_ops(cccr) + clock_source_program(
                self.node_id().index(),
                config.clock_source,
            ) + seq![update_op(Reg::Nbtp, nominal_timing_update(config.nominal_fields(clock_hz)))]);
            assert(timed + e =~= timed);
            assert(framed + e =~= framed);
            assert(framed == fast + seq![frame_mode_op(config.frame_mode)]);
            assert(effects.program() =~= configure_program(self.node_id(), config, clock_hz, cccr));
            assert forall|before: u32|
                #[trigger] control_after(effects.program(), before) & CCCR_HANDSHAKE == 0 by {
                lemma_phase_holds(effects.program(), before);
            }
        }
        Ok(Pending::new(effects.into_program(), node))
    }

    /// The node that runs, once the program that configures it is at its
    /// end. Fails with `ClockSwitchFailed` if the program has failed: the
    /// clock selection did not read back as it was written, and the
    /// program was ended before anything else was configured.
    pub fn finish(pending: Pending<CanNode<Id>>) -> (node: Result<CanNode<Id>, ConfigError>)
        requires
            pending.progress().done(),
        ensures
            pending.progress().failed ==> node == Err::<CanNode<Id>, ConfigError>(
                ConfigError::ClockSwitchFailed,
            ),
            !pending.progress().failed ==> node == Ok::<CanNode<Id>, ConfigError>(pending.outcome()),
    {
        match pending.finish() {
            Ok(node) => Ok(node),
            Err(_) => Err(ConfigError::ClockSwitchFailed),
        }
    }
}

impl<Id> CanNode<Id> {
    /// A node that can be configured. Only a module hands out nodes.
    pub(crate) fn new(node_id: NodeId) -> (node: NewCanNode<Id>)
        ensures
            node.node_id() == node_id,
    {
        NewCanNode { node_id, _module: PhantomData }
    }

    /// The number of the node.
    pub fn node_id(&self) -> (id: NodeId)
        ensures
            id == self@.node_id,
    {
        self.node_id
    }

    /// The format of the node's frames.
    pub fn frame_mode(&self) -> (mode: FrameMode)
        ensures
            mode == self@.frame_mode,
    {
        self.frame_mode
    }

    /// Where the transmit buffers lie.
    pub fn tx_buffers(&self) -> (buffers: DedicatedData)
        ensures
            buffers == self@.tx_buffers,
    {
        self.tx_buffers
    }

    /// The number of dedicated transmit buffers.
    pub fn dedicated_tx_buffers_number(&self) -> (number: u8)
        ensures
            number == self@.dedicated_tx_buffers_number,
    {
        self.dedicated_tx_buffers_number
    }

    /// The number of elements of the transmit FIFO or queue.
    pub fn tx_fifo_queue_size(&self) -> (size: u8)
        ensures
            size == self@.tx_fifo_queue_size,
    {
        self.tx_fifo_queue_size
    }

    /// Where the dedicated receive buffers lie.
    pub fn rx_buffers(&self) -> (buffers: DedicatedData)
        ensures
            buffers == self@.rx_buffers,
    {
        self.rx_buffers
    }

    /// Receive FIFO 0.
    pub fn rx_fifo0(&self) -> (fifo: FifoData)
        ensures
            fifo == self@.rx_fifo0,
    {
        self.rx_fifo0
    }

    /// Receive FIFO 1.
    pub fn rx_fifo1(&self) -> (fifo: FifoData)
        ensures
            fifo == self@.rx_fifo1,
    {
        self.rx_fifo1
    }
}


/// Why a frame was not taken for transmission.
#[derive(Clone, Copy, Debug, PartialEq, Eq, Structural)]
pub enum TransmitError {
    /// The node is not configured for frames of the frame's format.
    FrameModeNotEnabled,
    /// The payload is longer than the data field of the transmit buffers.
    PayloadTooLong,
    /// The node has no transmit buffer.
    NoTransmitBuffer,
    /// No transmit buffer is free: the FIFO or queue is full, or every
    /// dedicated buffer waits to be sent.
    Busy,
}

/// What is to be done to send a frame: the element is to be written to the
/// message RAM, and then the request is to be carried out.
#[derive(Debug)]
pub struct Transmission {
    /// The transmit buffer that takes the frame.
    pub buffer: TxBufferId,
    /// The offset of the buffer from the start of the message RAM, in bytes.
    pub address: u32,
    /// The words to write there.
    pub element: Tx,
    /// The operation that asks for the buffer to be sent.
    pub request: Op,
}

/// Whether a node with frames of format `node` can send a frame of format `frame`.
pub open spec fn mode_allows(node: FrameMode, frame: FrameMode) -> bool {
    match frame {
        FrameMode::Standard => true,
        FrameMode::FdLong => node != FrameMode::Standard,
        FrameMode::FdLongAndFast => node == FrameMode::FdLongAndFast,
    }
}

/// Whether each of the first `count` transmit buffers waits to be sent.
pub open spec fn all_pending(txbrp: u32, count: int) -> bool {
    forall|j: u32| j < count ==> #[trigger] bit_of(txbrp, j)
}

/// Whether `slot` is the transmit buffer that takes the next frame, by the
/// status of the transmit FIFO or queue and the pending requests: with a
/// FIFO or queue that is not full, the buffer at its put index; without
/// one, the lowest dedicated buffer that does not wait to be sent.
pub open spec fn is_transmit_slot(node: CanNodeView, txfqs: u32, txbrp: u32, slot: int) -> bool {
    if node.tx_fifo_queue_size > 0 {
        !bit_of(txfqs, 21) && slot == field_of(txfqs, 16, 5)
    } else {
        &&& 0 <= slot < node.dedicated_tx_buffers_number
        &&& slot < 32
        &&& !bit_of(txbrp, slot as u32)
        &&& all_pending(txbrp, slot)
    }
}

/// Whether no transmit buffer takes a frame now.
pub open spec fn is_busy(node: CanNodeView, txfqs: u32, txbrp: u32) -> bool {
    if node.tx_fifo_queue_size > 0 {
        bit_of(txfqs, 21)
    } else {
        all_pending(txbrp, least(node.dedicated_tx_buffers_number as int, 32))
    }
}

/// Why the node does not take `frame`, if it does not.
pub open spec fn transmit_fault(node: CanNodeView, frame: FrameView, txfqs: u32, txbrp: u32) -> Option<
    TransmitError,
> {
    if !mode_allows(node.frame_mode, frame.mode) {
        Some(TransmitError::FrameModeNotEnabled)
    } else if frame.data.len() > node.tx_buffers.field_size.bytes() {
        Some(TransmitError::PayloadTooLong)
    } else if node.tx_fifo_queue_size == 0 && node.dedicated_tx_buffers_number == 0 {
        Some(TransmitError::NoTransmitBuffer)
    } else if is_busy(node, txfqs, txbrp) {
        Some(TransmitError::Busy)
    } else {
        None
    }
}

/// The offset of element `index` of a region that starts at `start` and has
/// data fields of size `field_size`.
pub open spec fn element_offset(start: u16, field_size: DataFieldSize, index: int) -> int {
    start + (8 + field_size.bytes()) * index
}

/// The offset of element `index` of a region that starts at `start` and has
/// data fields of size `field_size`.
fn offset_of_element(start: u16, field_size: DataFieldSize, index: u8) -> (offset: u32)
    ensures
        offset == element_offset(start, field_size, index as int),
{
    let element: u32 = 8 + field_size.size_in_bytes() as u32;
    assert(element * index <= 72 * 255) by (nonlinear_arith)
        requires
            element <= 72,
            index <= 255,
    ;
    start as u32 + element * (index as u32)
}

impl<Id> CanNode<Id> {
    /// The lowest of the first `count` transmit buffers that does not wait
    /// to be sent, by the pending requests.
    fn lowest_free(txbrp: u32, count: u8) -> (slot: Option<u8>)
        requires
            count <= 32,
        ensures
            slot is None ==> all_pending(txbrp, count as int),
            slot matches Some(i) ==> i < count && !bit_of(txbrp, i as u32) && all_pending(
                txbrp,
                i as int,
            ),
    {
        let mut i: u8 = 0;
        while i < count
            invariant
                0 <= i <= count <= 32,
                all_pending(txbrp, i as int),
            decreases count - i,
        {
            if !get_bit(txbrp, i as u32) {
                return Some(i);
            }
            i = i + 1;
        }
        None
    }

    /// Takes `frame` for transmission. `txfqs` is what the status register
    /// of the transmit FIFO or queue holds, `txbrp` what the request
    /// pending register holds.
    ///
    /// Fails if the node is not configured for the format of the frame, if
    /// the payload is longer than the data field of the transmit buffers,
    /// if the node has no transmit buffer, or if none is free. Else the
    /// frame goes to the buffer at the put index of the FIFO or queue; or,
    /// where the node has dedicated buffers only, to the lowest that does
    /// not wait to be sent.
    pub fn transmit(&self, frame: &Frame, txfqs: u32, txbrp: u32) -> (sent: Result<
        Transmission,
        TransmitError,
    >)
        ensures
            match transmit_fault(self@, frame@, txfqs, txbrp) {
                Some(fault) => sent is Err && sent->Err_0 == fault,
                None => sent is Ok && is_transmit_slot(
                    self@,
                    txfqs,
                    txbrp,
                    sent->Ok_0.buffer.0 as int,
                ) && sent->Ok_0.address == element_offset(
                    self@.tx_buffers.start_address,
                    self@.tx_buffers.field_size,
                    sent->Ok_0.buffer.0 as int,
                ) && sent->Ok_0.element@ == element_words(frame@) && sent->Ok_0.request == flag_op(
                    Reg::Txbar,
                    sent->Ok_0.buffer.0 as u32,
                    true,
                ),
            },
    {
        let allowed = match frame.mode() {
            FrameMode::Standard => true,
            FrameMode::FdLong => self.frame_mode != FrameMode::Standard,
            FrameMode::FdLongAndFast => self.frame_mode == FrameMode::FdLongAndFast,
        };
        if !allowed {
            return Err(TransmitError::FrameModeNotEnabled);
        }
        if frame.data().len() > self.tx_buffers.field_size.size_in_bytes() as usize {
            return Err(TransmitError::PayloadTooLong);
        }
        if self.tx_fifo_queue_size == 0 && self.dedicated_tx_buffers_number == 0 {
            return Err(TransmitError::NoTransmitBuffer);
        }
        let slot: u8 = if self.tx_fifo_queue_size > 0 {
            if is_tx_fifo_queue_full(txfqs) {
                return Err(TransmitError::Busy);
            }
            get_tx_fifo_queue_put_index(txfqs)
        } else {
            let count = least_of(self.dedicated_tx_buffers_number, 32);
            match Self::lowest_free(txbrp, count) {
                Some(slot) => slot,
                None => {
                    return Err(TransmitError::Busy);
                },
            }
        };
        assert(field_of(txfqs, 16, 5) < 32) by (bit_vector);
        let request = match set_tx_buffer_add_request(slot) {
            Some(request) => request,
            None => {
                return Err(TransmitError::Busy);
            },
        };
        Ok(
            Transmission {
                buffer: TxBufferId(slot),
                address: offset_of_element(
                    self.tx_buffers.start_address,
                    self.tx_buffers.field_size,
                    slot,
                ),
                element: Tx::new(frame),
                request,
            },
        )
    }

    /// The element of receive FIFO 0 that is to be read next, if the FIFO
    /// holds any, by its status register.
    pub fn rx_fifo0_next(&self, rxf0s: u32) -> (next: Option<RxBufferId>)
        ensures
            next is Some <==> field_of(rxf0s, 0, 7) > 0,
            next matches Some(id) ==> id.index() == field_of(rxf0s, 8, 6),
    {
        if get_rx_fifo0_fill_level(rxf0s) > 0 {
            Some(get_rx_fifo0_get_index(rxf0s))
        } else {
            None
        }
    }

    /// The element of receive FIFO 1 that is to be read next, if the FIFO
    /// holds any, by its status register.
    pub fn rx_fifo1_next(&self, rxf1s: u32) -> (next: Option<RxBufferId>)
        ensures
            next is Some <==> field_of(rxf1s, 0, 7) > 0,
            next matches Some(id) ==> id.index() == field_of(rxf1s, 8, 6),
    {
        if get_rx_fifo1_fill_level(rxf1s) > 0 {
            Some(get_rx_fifo1_get_index(rxf1s))
        } else {
            None
        }
    }

    /// The offset from the start of the message RAM of the element to read:
    /// a dedicated buffer, or element `id` of a FIFO.
    pub fn rx_element_offset(&self, from: ReadFrom, id: RxBufferId) -> (offset: u32)
        ensures
            offset == match from {
                ReadFrom::Buffer(buffer) => element_offset(
                    self@.rx_buffers.start_address,
                    self@.rx_buffers.field_size,
                    buffer.index(),
                ),
                ReadFrom::RxFifo0 => element_offset(
                    self@.rx_fifo0.start_address,
                    self@.rx_fifo0.field_size,
                    id.index(),
                ),
                ReadFrom::RxFifo1 => element_offset(
                    self@.rx_fifo1.start_address,
                    self@.rx_fifo1.field_size,
                    id.index(),
                ),
            },
    {
        match from {
            ReadFrom::Buffer(buffer) => offset_of_element(
                self.rx_buffers.start_address,
                self.rx_buffers.field_size,
                buffer.as_u8(),
            ),
            ReadFrom::RxFifo0 => offset_of_element(
                self.rx_fifo0.start_address,
                self.rx_fifo0.field_size,
                id.as_u8(),
            ),
            ReadFrom::RxFifo1 => offset_of_element(
                self.rx_fifo1.start_address,
                self.rx_fifo1.field_size,
                id.as_u8(),
            ),
        }
    }

    /// The words of an element of `from`: two for its head, and those of
    /// its data field.
    pub fn rx_element_words(&self, from: ReadFrom) -> (words: usize)
        ensures
            words == 2 + match from {
                ReadFrom::Buffer(_) => self@.rx_buffers.field_size.bytes(),
                ReadFrom::RxFifo0 => self@.rx_fifo0.field_size.bytes(),
                ReadFrom::RxFifo1 => self@.rx_fifo1.field_size.bytes(),
            } / 4,
    {
        let bytes = match from {
            ReadFrom::Buffer(_) => self.rx_buffers.field_size.size_in_bytes(),
            ReadFrom::RxFifo0 => self.rx_fifo0.field_size.size_in_bytes(),
            ReadFrom::RxFifo1 => self.rx_fifo1.field_size.size_in_bytes(),
        };
        2 + (bytes as usize) / 4
    }

    /// The frame in an element whose words are `words`, from word 0.
    pub fn receive(&self, words: Vec<u32>) -> (frame: Frame)
        ensures
            frame@ == element_frame(words@),
            frame@.wf(),
    {
        Rx::new(words).frame()
    }

    /// The operation that gives an element that was read back to the
    /// controller: for a FIFO, element `id` is acknowledged; for a
    /// dedicated buffer, its new data flag is cleared.
    pub fn release(&self, from: ReadFrom, id: RxBufferId) -> (op: Op)
        ensures
            op == match from {
                ReadFrom::Buffer(buffer) => if buffer.index() < 32 {
                    Op::Write { reg: Reg::Ndat1, value: bit(buffer.index() as u32) }
                } else {
                    Op::Write { reg: Reg::Ndat2, value: bit((buffer.index() - 32) as u32) }
                },
                ReadFrom::RxFifo0 => field_op(Reg::Rxf0a, 0, 6, id.index() as u32),
                ReadFrom::RxFifo1 => field_op(Reg::Rxf1a, 0, 6, id.index() as u32),
            },
    {
        match from {
            ReadFrom::Buffer(buffer) => clear_rx_buffer_new_data_flag(buffer),
            ReadFrom::RxFifo0 => set_rx_fifo0_acknowledge_index(id),
            ReadFrom::RxFifo1 => set_rx_fifo1_acknowledge_index(id),
        }
    }
}

impl Default for FrameMode {
    /// Classic CAN.
    fn default() -> (value: FrameMode)
        ensures
            value == FrameMode::Standard,
    {
        FrameMode::Standard
    }
}

impl Default for FrameType {
    /// Receive only.
    fn default() -> (value: FrameType)
        ensures
            value == FrameType::Receive,
    {
        FrameType::Receive
    }
}

impl Default for TxMode {
    /// Dedicated buffers.
    fn default() -> (value: TxMode)
        ensures
            value == TxMode::DedicatedBuffers,
    {
        TxMode::DedicatedBuffers
    }
}

impl Default for RxMode {
    /// Dedicated buffers.
    fn default() -> (value: RxMode)
        ensures
            value == RxMode::DedicatedBuffers,
    {
        RxMode::DedicatedBuffers
    }
}

impl Default for Tos {
    /// CPU 0.
    fn default() -> (value: Tos)
        ensures
            value == Tos::Cpu0,
    {
        Tos::Cpu0
    }
}

impl Default for InterruptLine {
    /// Line 0.
    fn default() -> (value: InterruptLine)
        ensures
            value == InterruptLine(0),
    {
        InterruptLine(0)
    }
}

impl Default for CanModuleId {
    /// Module 0.
    fn default() -> (value: CanModuleId)
        ensures
            value == CanModuleId(0),
    {
        CanModuleId(0)
    }
}

impl Default for BaudRate {
    /// All zero. These are no usable targets and no usable fields: a
    /// configuration sets them.
    fn default() -> (value: BaudRate)
        ensures
            value.baud_rate == 0,
            value.sample_point == 0,
            value.sync_jump_with == 0,
            value.prescalar == 0,
            value.time_segment_1 == 0,
            value.time_segment_2 == 0,
    {
        BaudRate {
            baud_rate: 0,
            sample_point: 0,
            sync_jump_with: 0,
            prescalar: 0,
            time_segment_1: 0,
            time_segment_2: 0,
        }
    }
}

impl Default for FastBaudRate {
    /// All zero. These are no usable targets and no usable fields: a
    /// configuration sets them.
    fn default() -> (value: FastBaudRate)
        ensures
            value.baud_rate == 0,
            value.sample_point == 0,
            value.sync_jump_with == 0,
            value.prescalar == 0,
            value.time_segment_1 == 0,
            value.time_segment_2 == 0,
            value.transceiver_delay_offset == 0,
    {
        FastBaudRate {
            baud_rate: 0,
            sample_point: 0,
            sync_jump_with: 0,
            prescalar: 0,
            time_segment_1: 0,
            time_segment_2: 0,
            transceiver_delay_offset: 0,
        }
    }
}

impl Default for FifoConfig {
    /// No elements, data fields of 8 bytes, blocking, no watermark.
    fn default() -> (value: FifoConfig)
        ensures
            value.field_size == DataFieldSize::_8,
            value.operation_mode == RxFifoMode::Blocking,
            value.watermark_level == 0,
            value.size == 0,
    {
        FifoConfig {
            field_size: DataFieldSize::_8,
            operation_mode: RxFifoMode::Blocking,
            watermark_level: 0,
            size: 0,
        }
    }
}

impl Default for CanNodeConfig {
    /// A classic node that receives only, on both clocks, with nothing in
    /// the message RAM and the bit timing given as register fields of zero.
    fn default() -> (value: CanNodeConfig)
        ensures
            value.clock_source == ClockSource::Both,
            !value.calculate_bit_timing_values,
            value.frame_mode == FrameMode::Standard,
            value.frame_type == FrameType::Receive,
            value.tx_mode == TxMode::DedicatedBuffers,
            value.rx_mode == RxMode::DedicatedBuffers,
            value.message_ram.start_spec() == 0,
            value.message_ram.size_spec() == 0,
            value.tx_buffer_data_field_size == DataFieldSize::_8,
            value.rx_buffer_data_field_size == DataFieldSize::_8,
            value.dedicated_tx_buffers_number == 0,
            value.tx_fifo_queue_size == 0,
            value.tx_event_fifo_size == 0,
            value.rx_buffers_number == 0,
            value.rx_fifo0.size == 0,
            value.rx_fifo1.size == 0,
            value.standard_filter_list_size == 0,
            value.extended_filter_list_size == 0,
            !value.reject_remote_frames_with_standard_id,
            !value.reject_remote_frames_with_extended_id,
            value.fits(),
    {
        let value = CanNodeConfig {
            clock_source: ClockSource::Both,
            calculate_bit_timing_values: false,
            baud_rate: BaudRate::default(),
            fast_baud_rate: FastBaudRate::default(),
            frame_mode: FrameMode::Standard,
            frame_type: FrameType::Receive,
            tx_mode: TxMode::DedicatedBuffers,
            rx_mode: RxMode::DedicatedBuffers,
            message_ram: RamWindow::default(),
            tx_buffer_data_field_size: DataFieldSize::_8,
            dedicated_tx_buffers_number: 0,
            tx_fifo_queue_size: 0,
            tx_event_fifo_size: 0,
            rx_buffer_data_field_size: DataFieldSize::_8,
            rx_buffers_number: 0,
            rx_fifo0: FifoConfig::default(),
            rx_fifo1: FifoConfig::default(),
            standard_filter_list_size: 0,
            extended_filter_list_size: 0,
            reject_remote_frames_with_standard_id: false,
            reject_remote_frames_with_extended_id: false,
        };
        proof {
            lemma_nothing_requested(value);
        }
        value
    }
}

/// A configuration that asks for no element needs no byte.
pub proof fn lemma_nothing_requested(config: CanNodeConfig)
    requires
        forall|i: int| 0 <= i < 8 ==> (#[trigger] config.region_requests()[i]).count == 0,
    ensures
        total_bytes(config.region_requests()) == 0,
{
    let r = config.region_requests();
    assert(r.len() == 8);
    lemma_no_bytes(r, 8);
    assert(r.take(8) =~= r);
}

/// Requests of no elements need no bytes.
proof fn lemma_no_bytes(requests: Seq<RegionRequest>, n: int)
    requires
        0 <= n <= requests.len(),
        forall|i: int| 0 <= i < requests.len() ==> (#[trigger] requests[i]).count == 0,
    ensures
        total_bytes(requests.take(n)) == 0,
    decreases n,
{
    if n > 0 {
        lemma_no_bytes(requests, n - 1);
        crate::can::msg_ram::lemma_total_step(requests, n - 1);
        assert(requests[n - 1].bytes() == 0) by (nonlinear_arith)
            requires
                requests[n - 1].count == 0,
                requests[n - 1].bytes() == element_bytes(
                    requests[n - 1].kind,
                    requests[n - 1].field_size,
                ) * requests[n - 1].count,
        ;
    } else {
        assert(requests.take(0).len() == 0);
    }
}

} // verus!
