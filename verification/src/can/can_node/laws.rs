//! What the registers of a node hold once it is configured.
//!
//! The laws here speak of a device whose registers hold what was written
//! to them last. One law follows the program that configures a node
//! through its parts: each part writes to its own registers only, so that
//! what a part has written stays. The others say what the parts write.

use vstd::prelude::*;
use crate::bits::bit_of;
use crate::bits::field_of;
use crate::bits::low_mask;
use crate::can::baud_rate::fast_limits;
use crate::can::baud_rate::fast_timing;
use crate::can::baud_rate::lemma_timing_meets_targets;
use crate::can::baud_rate::nominal_limits;
use crate::can::baud_rate::nominal_timing;
use crate::can::baud_rate::DataBitTiming;
use crate::can::can_module::clock_source_program;
use crate::can::can_module::ClockSource;
use crate::can::can_node::configure_program;
use crate::can::can_node::effects::data_timing_update;
use crate::can::can_node::effects::disable_change_ops;
use crate::can::can_node::effects::enable_change_ops;
use crate::can::can_node::effects::field_op;
use crate::can::can_node::effects::frame_mode_update;
use crate::can::can_node::effects::lemma_data_timing_fields;
use crate::can::can_node::effects::lemma_nominal_timing_fields;
use crate::can::can_node::effects::nominal_timing_update;
use crate::can::can_node::effects::update_op;
use crate::can::can_node::effects::CCCR_HANDSHAKE;
use crate::can::can_node::fast_baud_rate_ops;
use crate::can::can_node::filter_ops;
use crate::can::can_node::frame_mode_op;
use crate::can::can_node::reject_ops;
use crate::can::can_node::rx_fifo_ops;
use crate::can::can_node::rx_ops;
use crate::can::can_node::tx_interrupt_ops;
use crate::can::can_node::tx_ops;
use crate::can::can_node::CanNodeConfig;
use crate::can::can_node::FifoData;
use crate::can::can_node::FrameMode;
use crate::can::can_node::NodeId;
use crate::can::can_node::RxFifoMode;
use crate::can::can_node::TxMode;
use crate::can::msg_ram::lemma_totals_grow;
use crate::can::msg_ram::total_bytes;
use crate::can::msg_ram::MESSAGE_RAM_LIMIT;
use crate::regs::leaves_alone;
use crate::regs::lemma_leaves_alone_both;
use crate::regs::lemma_narrow_values;
use crate::regs::lemma_register_after_both;
use crate::regs::lemma_register_left_alone;
use crate::regs::lemma_update_fields;
use crate::regs::modified;
use crate::regs::register_after;
use crate::regs::register_after_op;
use crate::regs::FieldUpdate;
use crate::regs::Op;
use crate::regs::Reg;

verus! {

/// The operations that set the bit timing of the data phase, if the
/// frames are not classic ones.
pub open spec fn fast_part(config: CanNodeConfig, clock_hz: u32) -> Seq<Op> {
    if config.frame_mode != FrameMode::Standard {
        fast_baud_rate_ops(config.data_fields(clock_hz), config.fast_baud_rate.transceiver_delay_offset)
    } else {
        Seq::<Op>::empty()
    }
}

/// The operations of the transmit side, if the node sends.
pub open spec fn tx_part(config: CanNodeConfig) -> Seq<Op> {
    if config.frame_type.transmits() {
        tx_ops(config)
    } else {
        Seq::<Op>::empty()
    }
}

/// What `reg` holds after `part` if `written`, and `raw` else.
pub open spec fn through(part: Seq<Op>, written: bool, reg: Reg, raw: u32) -> u32 {
    if written {
        register_after(part, reg, raw)
    } else {
        raw
    }
}

/// What `reg` holds after the program that configures a node, if it held
/// `raw` before: what the parts of the program that write to `reg` make of
/// it, one after the other. The handshake writes to the CC control
/// register, the clock selection to the module control register, the
/// timings to their registers, the frame format to the CC control
/// register, and the transmit side, the receive side and the filters to
/// theirs.
pub open spec fn configured_register(
    node_id: NodeId,
    config: CanNodeConfig,
    clock_hz: u32,
    cccr: u32,
    reg: Reg,
    raw: u32,
) -> u32 {
    let enabled = through(enable_change_ops(cccr), reg == Reg::Cccr, reg, raw);
    let clocked = through(
        clock_source_program(node_id.index(), config.clock_source),
        reg == Reg::Mcr,
        reg,
        enabled,
    );
    let timed = through(
        seq![update_op(Reg::Nbtp, nominal_timing_update(config.nominal_fields(clock_hz)))],
        reg == Reg::Nbtp,
        reg,
        clocked,
    );
    let fast = through(fast_part(config, clock_hz), reg == Reg::Dbtp || reg == Reg::Tdcr, reg, timed);
    let framed = through(seq![frame_mode_op(config.frame_mode)], reg == Reg::Cccr, reg, fast);
    let sending = through(
        tx_part(config),
        reg == Reg::Txesc || reg == Reg::Txbc || reg == Reg::Txefc || reg == Reg::Txbtie,
        reg,
        framed,
    );
    let receiving = through(
        rx_ops(config, node_id),
        reg == Reg::Rxesc || reg == Reg::Rxbc || reg == Reg::Rxf0c || reg == Reg::Rxf1c,
        reg,
        sending,
    );
    let filtered = through(
        filter_ops(config),
        reg == Reg::Sidfc || reg == Reg::Xidfc || reg == Reg::Gfc,
        reg,
        receiving,
    );
    through(disable_change_ops(), reg == Reg::Cccr, reg, filtered)
}

/// The handshake of the configuration change writes to the CC control
/// register only, and the clock selection to the module control register only.
pub proof fn lemma_handshake_registers(select: int, source: ClockSource, cccr: u32, reg: Reg)
    ensures
        reg != Reg::Cccr ==> leaves_alone(enable_change_ops(cccr), reg) && leaves_alone(
            disable_change_ops(),
            reg,
        ),
        reg != Reg::Mcr ==> leaves_alone(clock_source_program(select, source), reg),
{
}

/// The operations of the data phase timing write to the data phase bit
/// timing register and the transmitter delay compensation register only.
pub proof fn lemma_fast_baud_rate_registers(fields: DataBitTiming, delay: u8, reg: Reg)
    requires
        reg != Reg::Dbtp,
        reg != Reg::Tdcr,
    ensures
        leaves_alone(fast_baud_rate_ops(fields, delay), reg),
{
}

/// The operations of the transmit side write to the registers of the
/// transmit side only.
pub proof fn lemma_tx_registers(config: CanNodeConfig, reg: Reg)
    requires
        reg != Reg::Txesc,
        reg != Reg::Txbc,
        reg != Reg::Txefc,
        reg != Reg::Txbtie,
    ensures
        leaves_alone(tx_ops(config), reg),
{
    let n = config.dedicated_tx_buffers() + config.tx_fifo_queue_elements();
    assert(leaves_alone(tx_interrupt_ops(n), reg));
    assert(leaves_alone(tx_ops(config).take(7), reg));
    assert(tx_ops(config) =~= tx_ops(config).take(7) + tx_interrupt_ops(n));
    lemma_leaves_alone_both(tx_ops(config).take(7), tx_interrupt_ops(n), reg);
}

/// The operations of the receive side write to the registers of the
/// receive side only.
pub proof fn lemma_rx_registers(config: CanNodeConfig, node_id: NodeId, reg: Reg)
    requires
        reg != Reg::Rxesc,
        reg != Reg::Rxbc,
        reg != Reg::Rxf0c,
        reg != Reg::Rxf1c,
    ensures
        leaves_alone(rx_ops(config, node_id), reg),
{
    let first = rx_fifo_ops(true, config.node(node_id).rx_fifo0);
    let second = rx_fifo_ops(false, config.node(node_id).rx_fifo1);
    let head = seq![
        field_op(Reg::Rxesc, 8, 3, config.rx_buffer_data_field_size.code() as u32),
        field_op(Reg::Rxbc, 2, 14, (config.region_start(2) >> 2) as u32),
    ];
    assert(leaves_alone(head, reg));
    assert(leaves_alone(first, reg));
    assert(leaves_alone(second, reg));
    lemma_leaves_alone_both(head, first, reg);
    lemma_leaves_alone_both(head + first, second, reg);
}

/// The operations of the filters write to the registers of the filters only.
pub proof fn lemma_filter_registers(config: CanNodeConfig, reg: Reg)
    requires
        reg != Reg::Sidfc,
        reg != Reg::Xidfc,
        reg != Reg::Gfc,
    ensures
        leaves_alone(filter_ops(config), reg),
{
    let head = filter_ops(config).take(4);
    assert(leaves_alone(head, reg));
    assert(leaves_alone(reject_ops(config), reg));
    assert(filter_ops(config) =~= head + reject_ops(config));
    lemma_leaves_alone_both(head, reject_ops(config), reg);
}

/// A part that leaves a register alone makes of it what it was.
proof fn lemma_through(part: Seq<Op>, written: bool, reg: Reg, raw: u32)
    requires
        !written ==> leaves_alone(part, reg),
    ensures
        register_after(part, reg, raw) == through(part, written, reg, raw),
{
    if !written {
        lemma_register_left_alone(part, reg, raw);
    }
}

/// Each part of the program that configures a node writes to its own
/// registers only, so that every register holds after the program what
/// the parts that write to it have made of it.
pub proof fn lemma_configured_register(
    node_id: NodeId,
    config: CanNodeConfig,
    clock_hz: u32,
    cccr: u32,
    reg: Reg,
    raw: u32,
)
    ensures
        register_after(configure_program(node_id, config, clock_hz, cccr), reg, raw)
            == configured_register(node_id, config, clock_hz, cccr, reg, raw),
{
    let enable = enable_change_ops(cccr);
    let clock = clock_source_program(node_id.index(), config.clock_source);
    let nominal = seq![
        update_op(Reg::Nbtp, nominal_timing_update(config.nominal_fields(clock_hz))),
    ];
    let fast = fast_part(config, clock_hz);
    let mode = seq![frame_mode_op(config.frame_mode)];
    let tx = tx_part(config);
    let rx = rx_ops(config, node_id);
    let filters = filter_ops(config);
    let disable = disable_change_ops();
    lemma_handshake_registers(node_id.index(), config.clock_source, cccr, reg);
    if reg != Reg::Dbtp && reg != Reg::Tdcr {
        lemma_fast_baud_rate_registers(
            config.data_fields(clock_hz),
            config.fast_baud_rate.transceiver_delay_offset,
            reg,
        );
    }
    if reg != Reg::Txesc && reg != Reg::Txbc && reg != Reg::Txefc && reg != Reg::Txbtie {
        lemma_tx_registers(config, reg);
    }
    if reg != Reg::Rxesc && reg != Reg::Rxbc && reg != Reg::Rxf0c && reg != Reg::Rxf1c {
        lemma_rx_registers(config, node_id, reg);
    }
    if reg != Reg::Sidfc && reg != Reg::Xidfc && reg != Reg::Gfc {
        lemma_filter_registers(config, reg);
    }
    assert(reg != Reg::Nbtp ==> leaves_alone(nominal, reg));
    assert(reg != Reg::Cccr ==> leaves_alone(mode, reg));
    let to_clock = enable + clock;
    let to_nominal = to_clock + nominal;
    let to_fast = to_nominal + fast;
    let to_mode = to_fast + mode;
    let to_tx = to_mode + tx;
    let to_rx = to_tx + rx;
    let to_filters = to_rx + filters;
    assert(configure_program(node_id, config, clock_hz, cccr) == to_filters + disable);
    lemma_register_after_both(to_filters, disable, reg, raw);
    lemma_register_after_both(to_rx, filters, reg, raw);
    lemma_register_after_both(to_tx, rx, reg, raw);
    lemma_register_after_both(to_mode, tx, reg, raw);
    lemma_register_after_both(to_fast, mode, reg, raw);
    lemma_register_after_both(to_nominal, fast, reg, raw);
    lemma_register_after_both(to_clock, nominal, reg, raw);
    lemma_register_after_both(enable, clock, reg, raw);
    let x0 = register_after(enable, reg, raw);
    lemma_through(enable, reg == Reg::Cccr, reg, raw);
    let x1 = register_after(clock, reg, x0);
    lemma_through(clock, reg == Reg::Mcr, reg, x0);
    let x2 = register_after(nominal, reg, x1);
    lemma_through(nominal, reg == Reg::Nbtp, reg, x1);
    let x3 = register_after(fast, reg, x2);
    lemma_through(fast, reg == Reg::Dbtp || reg == Reg::Tdcr, reg, x2);
    let x4 = register_after(mode, reg, x3);
    lemma_through(mode, reg == Reg::Cccr, reg, x3);
    let x5 = register_after(tx, reg, x4);
    lemma_through(
        tx,
        reg == Reg::Txesc || reg == Reg::Txbc || reg == Reg::Txefc || reg == Reg::Txbtie,
        reg,
        x4,
    );
    let x6 = register_after(rx, reg, x5);
    lemma_through(
        rx,
        reg == Reg::Rxesc || reg == Reg::Rxbc || reg == Reg::Rxf0c || reg == Reg::Rxf1c,
        reg,
        x5,
    );
    lemma_through(filters, reg == Reg::Sidfc || reg == Reg::Xidfc || reg == Reg::Gfc, reg, x6);
    lemma_through(disable, reg == Reg::Cccr, reg, register_after(filters, reg, x6));
}

/// What a register holds after one operation.
proof fn lemma_register_after_one(op: Op, reg: Reg, raw: u32)
    ensures
        register_after(seq![op], reg, raw) == register_after_op(op, reg, raw),
{
    assert(seq![op].drop_last() =~= Seq::<Op>::empty());
    reveal_with_fuel(register_after, 2);
}

/// After the program that configures a node, the nominal bit timing
/// register holds the timing that the configuration gives in its four
/// fields and what it held before in the bit between them, in a device
/// whose registers hold what was written to them last.
pub proof fn lemma_configure_sets_nominal_timing(
    node_id: NodeId,
    config: CanNodeConfig,
    clock_hz: u32,
    cccr: u32,
    raw: u32,
)
    ensures
        register_after(configure_program(node_id, config, clock_hz, cccr), Reg::Nbtp, raw)
            == nominal_timing_update(config.nominal_fields(clock_hz)).apply(raw),
{
    lemma_configured_register(node_id, config, clock_hz, cccr, Reg::Nbtp, raw);
    lemma_register_after_one(
        update_op(Reg::Nbtp, nominal_timing_update(config.nominal_fields(clock_hz))),
        Reg::Nbtp,
        raw,
    );
}

/// Where the bit timing is calculated, the nominal bit timing register
/// holds it after the program that configures a node: each field holds one
/// less than the prescaler, the jump width and the segments count.
pub proof fn lemma_configured_node_is_timed(
    node_id: NodeId,
    config: CanNodeConfig,
    clock_hz: u32,
    cccr: u32,
    raw: u32,
)
    requires
        config.calculate_bit_timing_values,
    ensures
        ({
            let nbtp = register_after(
                configure_program(node_id, config, clock_hz, cccr),
                Reg::Nbtp,
                raw,
            );
            let timing = nominal_timing(
                clock_hz,
                config.baud_rate.baud_rate,
                config.baud_rate.sample_point,
                config.baud_rate.sync_jump_with,
            );
            &&& field_of(nbtp, 16, 9) + 1 == timing.prescaler
            &&& field_of(nbtp, 25, 7) + 1 == timing.sync_jump_width
            &&& field_of(nbtp, 8, 8) + 1 == timing.time_segment_1
            &&& field_of(nbtp, 0, 7) + 1 == timing.time_segment_2
        }),
{
    lemma_configure_sets_nominal_timing(node_id, config, clock_hz, cccr, raw);
    lemma_timing_meets_targets(
        nominal_limits(),
        clock_hz,
        config.baud_rate.baud_rate,
        config.baud_rate.sample_point,
        config.baud_rate.sync_jump_with,
    );
    lemma_nominal_timing_fields(config.nominal_fields(clock_hz), raw);
}

/// What the end of the configuration change leaves of the CC control register.
proof fn lemma_handshake_leaves_flags(y: u32, z: u32)
    by (bit_vector)
    requires
        z == (((y & !2u32) | 0u32) & !1u32) | 0u32,
    ensures
        z & 3 == 0,
        bit_of(z, 8) == (field_of(y, 8, 1) == 1),
        bit_of(z, 9) == (field_of(y, 9, 1) == 1),
{
}

/// The end of the configuration change clears the two handshake bits of
/// the CC control register, one after the other.
proof fn lemma_disable_change(y: u32)
    ensures
        register_after(disable_change_ops(), Reg::Cccr, y) == modified(modified(y, 2, 0), 1, 0),
{
    let end = disable_change_ops();
    reveal_with_fuel(register_after, 5);
    assert(end.drop_last() =~= seq![end[0], end[1], end[2]]);
    assert(end.drop_last().drop_last() =~= seq![end[0], end[1]]);
    assert(end.drop_last().drop_last().drop_last() =~= seq![end[0]]);
    assert(end.drop_last().drop_last().drop_last().drop_last() =~= Seq::<Op>::empty());
}

/// The change for a frame format holds its two flags.
proof fn lemma_frame_mode_flags(x: u32, fdoe: bool, brse: bool)
    ensures
        field_of(frame_mode_update(fdoe, brse).apply(x), 8, 1) == 1 <==> fdoe,
        field_of(frame_mode_update(fdoe, brse).apply(x), 9, 1) == 1 <==> brse,
{
    let flags = FieldUpdate::none().with_flag(8, fdoe);
    lemma_update_fields(flags, x, 9, 1, if brse { 1 } else { 0 }, 8, 1);
    lemma_update_fields(FieldUpdate::none(), x, 8, 1, if fdoe { 1 } else { 0 }, 0, 0);
    lemma_narrow_values();
}

/// After the program that configures a node, the CC control register has
/// both handshake bits clear, FD operation set unless the frames are
/// classic ones, and bit rate switching set if the data phase is fast, in a
/// device whose registers hold what was written to them last.
pub proof fn lemma_configured_frame_mode(
    node_id: NodeId,
    config: CanNodeConfig,
    clock_hz: u32,
    cccr: u32,
    raw: u32,
)
    ensures
        ({
            let control = register_after(
                configure_program(node_id, config, clock_hz, cccr),
                Reg::Cccr,
                raw,
            );
            &&& control & CCCR_HANDSHAKE == 0
            &&& bit_of(control, 8) == (config.frame_mode != FrameMode::Standard)
            &&& bit_of(control, 9) == (config.frame_mode == FrameMode::FdLongAndFast)
        }),
{
    let fdoe = config.frame_mode != FrameMode::Standard;
    let brse = config.frame_mode == FrameMode::FdLongAndFast;
    lemma_configured_register(node_id, config, clock_hz, cccr, Reg::Cccr, raw);
    let x = register_after(enable_change_ops(cccr), Reg::Cccr, raw);
    lemma_register_after_one(frame_mode_op(config.frame_mode), Reg::Cccr, x);
    let y = frame_mode_update(fdoe, brse).apply(x);
    lemma_disable_change(y);
    lemma_handshake_leaves_flags(y, modified(modified(y, 2, 0), 1, 0));
    lemma_frame_mode_flags(x, fdoe, brse);
}

/// After the operations that place receive FIFO 0, its configuration
/// register holds the start address in bits 15 to 2, the number of elements
/// in bits 22 to 16, the watermark in bits 30 to 24 and the mode in bit 31,
/// each cut to its field.
pub proof fn lemma_rx_fifo0_fields(data: FifoData, raw: u32)
    ensures
        ({
            let rxf0c = register_after(rx_fifo_ops(true, data), Reg::Rxf0c, raw);
            &&& field_of(rxf0c, 2, 14) == data.start_address >> 2
            &&& field_of(rxf0c, 16, 7) == data.size as u32 & low_mask(7)
            &&& field_of(rxf0c, 24, 7) == data.watermark_level as u32 & low_mask(7)
            &&& field_of(rxf0c, 31, 1) == if data.operation_mode == RxFifoMode::Overwrite {
                1u32
            } else {
                0u32
            }
        }),
{
    let ops = rx_fifo_ops(true, data);
    let none = FieldUpdate::none();
    let address = (data.start_address >> 2) as u32;
    let mode: u32 = if data.operation_mode == RxFifoMode::Overwrite { 1 } else { 0 };
    let y1 = none.with(2, 14, address).apply(raw);
    let y2 = none.with(16, 7, data.size as u32).apply(y1);
    let y3 = none.with(31, 1, mode).apply(y2);
    let y4 = none.with(24, 7, data.watermark_level as u32).apply(y3);
    assert(register_after(ops, Reg::Rxf0c, raw) == y4) by {
        reveal_with_fuel(register_after, 6);
        assert(ops.drop_last() =~= seq![ops[0], ops[1], ops[2], ops[3]]);
        assert(ops.drop_last().drop_last() =~= seq![ops[0], ops[1], ops[2]]);
        assert(ops.drop_last().drop_last().drop_last() =~= seq![ops[0], ops[1]]);
        assert(ops.drop_last().drop_last().drop_last().drop_last() =~= seq![ops[0]]);
        assert(ops.drop_last().drop_last().drop_last().drop_last().drop_last() =~= Seq::<
            Op,
        >::empty());
    }
    lemma_narrow_values();
    let start = data.start_address;
    assert(address <= 0x3fff) by (bit_vector)
        requires
            address == (start >> 2) as u32,
    ;
    lemma_update_fields(none, raw, 2, 14, address, 0, 0);
    lemma_update_fields(none, y1, 16, 7, data.size as u32, 2, 14);
    lemma_update_fields(none, y2, 31, 1, mode, 2, 14);
    lemma_update_fields(none, y2, 31, 1, mode, 16, 7);
    lemma_update_fields(none, y3, 24, 7, data.watermark_level as u32, 2, 14);
    lemma_update_fields(none, y3, 24, 7, data.watermark_level as u32, 16, 7);
    lemma_update_fields(none, y3, 24, 7, data.watermark_level as u32, 31, 1);
}


/// The operations of the receive side make of the configuration register
/// of receive FIFO 0 what those that place the FIFO make of it.
proof fn lemma_rx_fifo0_is_placed_once(config: CanNodeConfig, node_id: NodeId, raw: u32)
    ensures
        register_after(rx_ops(config, node_id), Reg::Rxf0c, raw) == register_after(
            rx_fifo_ops(true, config.node(node_id).rx_fifo0),
            Reg::Rxf0c,
            raw,
        ),
{
    let reg = Reg::Rxf0c;
    let head = seq![
        field_op(Reg::Rxesc, 8, 3, config.rx_buffer_data_field_size.code() as u32),
        field_op(Reg::Rxbc, 2, 14, (config.region_start(2) >> 2) as u32),
    ];
    let first = rx_fifo_ops(true, config.node(node_id).rx_fifo0);
    let second = rx_fifo_ops(false, config.node(node_id).rx_fifo1);
    assert(leaves_alone(head, reg));
    assert(leaves_alone(second, reg));
    lemma_register_after_both(head + first, second, reg, raw);
    lemma_register_left_alone(second, reg, register_after(head + first, reg, raw));
    lemma_register_after_both(head, first, reg, raw);
    lemma_register_left_alone(head, reg, raw);
}

/// After the program that configures a node, the configuration register
/// of receive FIFO 0 holds the start address and the number of elements
/// that the configuration gives the FIFO, its watermark and its mode, in a
/// device whose registers hold what was written to them last.
pub proof fn lemma_configured_rx_fifo0(
    node_id: NodeId,
    config: CanNodeConfig,
    clock_hz: u32,
    cccr: u32,
    raw: u32,
)
    ensures
        ({
            let rxf0c = register_after(
                configure_program(node_id, config, clock_hz, cccr),
                Reg::Rxf0c,
                raw,
            );
            &&& field_of(rxf0c, 2, 14) == config.region_start(0) >> 2
            &&& field_of(rxf0c, 16, 7) == config.rx_fifo0_elements()
            &&& field_of(rxf0c, 24, 7) == config.rx_fifo0.watermark_level as u32 & low_mask(7)
            &&& field_of(rxf0c, 31, 1) == 1 <==> config.rx_fifo0.operation_mode
                == RxFifoMode::Overwrite
        }),
{
    lemma_configured_register(node_id, config, clock_hz, cccr, Reg::Rxf0c, raw);
    lemma_rx_fifo0_is_placed_once(config, node_id, raw);
    lemma_rx_fifo0_fields(config.node(node_id).rx_fifo0, raw);
    lemma_narrow_values();
}

/// What the operations of the transmit side make of the transmit buffer
/// configuration register: four fields are written, one after the other.
pub open spec fn tx_buffers_written(config: CanNodeConfig, raw: u32) -> u32 {
    let none = FieldUpdate::none();
    let mode: u32 = if config.tx_mode != TxMode::DedicatedBuffers {
        1
    } else {
        0
    };
    let y1 = none.with(2, 14, (config.region_start(3) >> 2) as u32).apply(raw);
    let y2 = none.with(16, 6, config.dedicated_tx_buffers() as u32).apply(y1);
    let y3 = none.with(30, 1, mode).apply(y2);
    none.with(24, 6, config.tx_fifo_queue_elements() as u32).apply(y3)
}

/// The operations of the transmit side write four fields of the transmit
/// buffer configuration register and nothing else of it.
proof fn lemma_tx_buffers_written(config: CanNodeConfig, raw: u32)
    ensures
        register_after(tx_ops(config), Reg::Txbc, raw) == tx_buffers_written(config, raw),
{
    let reg = Reg::Txbc;
    let n = config.dedicated_tx_buffers() + config.tx_fifo_queue_elements();
    let ops = tx_ops(config).take(7);
    assert(tx_ops(config) =~= ops + tx_interrupt_ops(n));
    assert(leaves_alone(tx_interrupt_ops(n), reg));
    lemma_register_after_both(ops, tx_interrupt_ops(n), reg, raw);
    lemma_register_left_alone(tx_interrupt_ops(n), reg, register_after(ops, reg, raw));
    assert(register_after(ops, reg, raw) == tx_buffers_written(config, raw)) by {
        reveal_with_fuel(register_after, 8);
        let o6 = ops.drop_last();
        let o5 = o6.drop_last();
        let o4 = o5.drop_last();
        let o3 = o4.drop_last();
        let o2 = o3.drop_last();
        let o1 = o2.drop_last();
        assert(o6 =~= seq![ops[0], ops[1], ops[2], ops[3], ops[4], ops[5]]);
        assert(o5 =~= seq![ops[0], ops[1], ops[2], ops[3], ops[4]]);
        assert(o4 =~= seq![ops[0], ops[1], ops[2], ops[3]]);
        assert(o3 =~= seq![ops[0], ops[1], ops[2]]);
        assert(o2 =~= seq![ops[0], ops[1]]);
        assert(o1 =~= seq![ops[0]]);
        assert(o1.drop_last() =~= Seq::<Op>::empty());
    }
}

/// After the operations of the transmit side, the transmit buffer
/// configuration register holds the start address of the transmit buffers
/// in bits 15 to 2, the number of dedicated buffers in bits 21 to 16, the
/// number of elements of the FIFO or queue in bits 29 to 24 and the mode bit
/// in bit 30.
pub proof fn lemma_tx_buffer_fields(config: CanNodeConfig, raw: u32)
    ensures
        ({
            let txbc = register_after(tx_ops(config), Reg::Txbc, raw);
            &&& field_of(txbc, 2, 14) == config.region_start(3) >> 2
            &&& field_of(txbc, 16, 6) == config.dedicated_tx_buffers()
            &&& field_of(txbc, 24, 6) == config.tx_fifo_queue_elements()
            &&& field_of(txbc, 30, 1) == 1 <==> config.tx_mode != TxMode::DedicatedBuffers
        }),
{
    lemma_tx_buffers_written(config, raw);
    let none = FieldUpdate::none();
    let start = config.region_start(3);
    let address = (start >> 2) as u32;
    let dedicated = config.dedicated_tx_buffers() as u32;
    let queued = config.tx_fifo_queue_elements() as u32;
    let mode: u32 = if config.tx_mode != TxMode::DedicatedBuffers { 1 } else { 0 };
    let y1 = none.with(2, 14, address).apply(raw);
    let y2 = none.with(16, 6, dedicated).apply(y1);
    let y3 = none.with(30, 1, mode).apply(y2);
    lemma_narrow_values();
    assert(address <= 0x3fff) by (bit_vector)
        requires
            address == (start >> 2) as u32,
    ;
    lemma_update_fields(none, raw, 2, 14, address, 0, 0);
    lemma_update_fields(none, y1, 16, 6, dedicated, 2, 14);
    lemma_update_fields(none, y2, 30, 1, mode, 2, 14);
    lemma_update_fields(none, y2, 30, 1, mode, 16, 6);
    lemma_update_fields(none, y3, 24, 6, queued, 2, 14);
    lemma_update_fields(none, y3, 24, 6, queued, 16, 6);
    lemma_update_fields(none, y3, 24, 6, queued, 30, 1);
}

/// After the program that configures a node that sends, the transmit
/// buffer configuration register holds the start address of the transmit
/// buffers, the number of dedicated buffers, the number of elements of the
/// FIFO or queue and the mode bit, in a device whose registers hold what
/// was written to them last.
pub proof fn lemma_configured_tx_buffers(
    node_id: NodeId,
    config: CanNodeConfig,
    clock_hz: u32,
    cccr: u32,
    raw: u32,
)
    requires
        config.frame_type.transmits(),
    ensures
        ({
            let txbc = register_after(
                configure_program(node_id, config, clock_hz, cccr),
                Reg::Txbc,
                raw,
            );
            &&& field_of(txbc, 2, 14) == config.region_start(3) >> 2
            &&& field_of(txbc, 16, 6) == config.dedicated_tx_buffers()
            &&& field_of(txbc, 24, 6) == config.tx_fifo_queue_elements()
            &&& field_of(txbc, 30, 1) == 1 <==> config.tx_mode != TxMode::DedicatedBuffers
        }),
{
    lemma_configured_register(node_id, config, clock_hz, cccr, Reg::Txbc, raw);
    lemma_tx_buffer_fields(config, raw);
}

/// In a configuration that fits its window, the regions of the message RAM
/// start at multiples of 4, lie within the window and do not overlap.
pub proof fn lemma_configured_regions_apart(config: CanNodeConfig)
    requires
        config.fits(),
        config.message_ram.start_spec() % 4 == 0,
        0 <= config.message_ram.start_spec(),
        config.message_ram.start_spec() + config.message_ram.size_spec() <= MESSAGE_RAM_LIMIT,
    ensures
        forall|i: int|
            0 <= i < 8 ==> {
                &&& (#[trigger] config.region_start(i)) % 4 == 0
                &&& config.message_ram.start_spec() <= config.region_start(i)
                &&& config.region_start(i) + config.region_requests()[i].bytes()
                    <= config.message_ram.start_spec() + config.message_ram.size_spec()
            },
        forall|i: int, j: int|
            0 <= i < j < 8 ==> (#[trigger] config.region_start(i)) + config.region_requests()[i].bytes()
                <= #[trigger] config.region_start(j),
{
    let requests = config.region_requests();
    assert(requests.take(8) =~= requests);
    assert forall|i: int| 0 <= i < 8 implies {
        &&& (#[trigger] config.region_start(i)) % 4 == 0
        &&& config.message_ram.start_spec() <= config.region_start(i)
        &&& config.region_start(i) + requests[i].bytes() <= config.message_ram.start_spec()
            + config.message_ram.size_spec()
        &&& config.region_start(i) == config.message_ram.start_spec() + total_bytes(
            requests.take(i),
        )
    } by {
        lemma_totals_grow(requests, i, 8);
    }
    assert forall|i: int, j: int| 0 <= i < j < 8 implies (#[trigger] config.region_start(i))
        + requests[i].bytes() <= #[trigger] config.region_start(j) by {
        lemma_totals_grow(requests, i, j);
        lemma_totals_grow(requests, i, 8);
        lemma_totals_grow(requests, j, 8);
    }
}


/// After the operations that set the bit timing of the data phase, the
/// data phase bit timing register holds the timing in its four fields, each
/// cut to its field.
pub proof fn lemma_fast_baud_rate_fields(fields: DataBitTiming, delay: u8, raw: u32)
    ensures
        ({
            let dbtp = register_after(fast_baud_rate_ops(fields, delay), Reg::Dbtp, raw);
            &&& field_of(dbtp, 16, 5) == fields.brp as u32 & low_mask(5)
            &&& field_of(dbtp, 0, 4) == fields.sjw as u32 & low_mask(4)
            &&& field_of(dbtp, 8, 5) == fields.tseg1 as u32 & low_mask(5)
            &&& field_of(dbtp, 4, 4) == fields.tseg2 as u32 & low_mask(4)
            &&& delay != 0 ==> field_of(dbtp, 23, 1) == 1
        }),
{
    let ops = fast_baud_rate_ops(fields, delay);
    let timed = data_timing_update(fields).apply(raw);
    lemma_data_timing_fields(fields, raw);
    lemma_narrow_values();
    if delay != 0 {
        let none = FieldUpdate::none();
        assert(register_after(ops, Reg::Dbtp, raw) == none.with(23, 1, 1).apply(timed)) by {
            reveal_with_fuel(register_after, 4);
            assert(ops.drop_last() =~= seq![ops[0], ops[1]]);
            assert(ops.drop_last().drop_last() =~= seq![ops[0]]);
            assert(ops.drop_last().drop_last().drop_last() =~= Seq::<Op>::empty());
        }
        lemma_update_fields(none, timed, 23, 1, 1, 16, 5);
        lemma_update_fields(none, timed, 23, 1, 1, 0, 4);
        lemma_update_fields(none, timed, 23, 1, 1, 8, 5);
        lemma_update_fields(none, timed, 23, 1, 1, 4, 4);
    } else {
        assert(register_after(ops, Reg::Dbtp, raw) == timed) by {
            reveal_with_fuel(register_after, 2);
            assert(ops.drop_last() =~= Seq::<Op>::empty());
        }
    }
}

/// Where the frames are not classic ones and the bit timing is calculated,
/// the data phase bit timing register holds the timing of the data phase
/// after the program that configures a node: each field holds one less
/// than the prescaler, the jump width and the segments count.
pub proof fn lemma_configured_node_is_timed_for_data(
    node_id: NodeId,
    config: CanNodeConfig,
    clock_hz: u32,
    cccr: u32,
    raw: u32,
)
    requires
        config.frame_mode != FrameMode::Standard,
        config.calculate_bit_timing_values,
    ensures
        ({
            let dbtp = register_after(
                configure_program(node_id, config, clock_hz, cccr),
                Reg::Dbtp,
                raw,
            );
            let timing = fast_timing(
                clock_hz,
                config.fast_baud_rate.baud_rate,
                config.fast_baud_rate.sample_point,
                config.fast_baud_rate.sync_jump_with,
            );
            &&& field_of(dbtp, 16, 5) + 1 == timing.prescaler
            &&& field_of(dbtp, 0, 4) + 1 == timing.sync_jump_width
            &&& field_of(dbtp, 8, 5) + 1 == timing.time_segment_1
            &&& field_of(dbtp, 4, 4) + 1 == timing.time_segment_2
        }),
{
    lemma_configured_register(node_id, config, clock_hz, cccr, Reg::Dbtp, raw);
    lemma_fast_baud_rate_fields(
        config.data_fields(clock_hz),
        config.fast_baud_rate.transceiver_delay_offset,
        raw,
    );
    lemma_timing_meets_targets(
        fast_limits(),
        clock_hz,
        config.fast_baud_rate.baud_rate,
        config.fast_baud_rate.sample_point,
        config.fast_baud_rate.sync_jump_with,
    );
    lemma_narrow_values();
}

} // verus!
