use tc37x_hal::can::baud_rate::DataBitTiming;
use tc37x_hal::can::baud_rate::NominalBitTiming;
use tc37x_hal::can::can_node::effects::clear_rx_buffer_new_data_flag;
use tc37x_hal::can::can_node::effects::get_data_field_size;
use tc37x_hal::can::can_node::effects::get_rx_element_address;
use tc37x_hal::can::can_node::effects::get_rx_fifo0_fill_level;
use tc37x_hal::can::can_node::effects::get_rx_fifo0_get_index;
use tc37x_hal::can::can_node::effects::get_rx_fifo1_fill_level;
use tc37x_hal::can::can_node::effects::get_rx_fifo1_get_index;
use tc37x_hal::can::can_node::effects::get_tx_buffer_data_field_size;
use tc37x_hal::can::can_node::effects::get_tx_fifo_queue_put_index;
use tc37x_hal::can::can_node::effects::is_rx_buffer_new_data_updated;
use tc37x_hal::can::can_node::effects::is_tx_buffer_request_pending;
use tc37x_hal::can::can_node::effects::is_tx_buffer_transmission_occured;
use tc37x_hal::can::can_node::effects::is_tx_event_fifo_element_lost;
use tc37x_hal::can::can_node::effects::is_tx_event_fifo_full;
use tc37x_hal::can::can_node::effects::is_tx_fifo_queue_full;
use tc37x_hal::can::can_node::effects::set_rx_fifo0_acknowledge_index;
use tc37x_hal::can::can_node::effects::set_rx_fifo1_acknowledge_index;
use tc37x_hal::can::can_node::effects::set_tx_buffer_add_request;
use tc37x_hal::can::can_node::effects::NodeEffects;
use tc37x_hal::can::can_node::effects::NodePhase;
use tc37x_hal::can::can_node::rxd00b_p20_7_in;
use tc37x_hal::can::can_node::txd00_p20_8_out;
use tc37x_hal::can::can_node::CanModuleId;
use tc37x_hal::can::can_node::DataFieldSize;
use tc37x_hal::can::can_node::InputMode;
use tc37x_hal::can::can_node::Interrupt;
use tc37x_hal::can::can_node::InterruptGroup;
use tc37x_hal::can::can_node::NodeId;
use tc37x_hal::can::can_node::OutputIdx;
use tc37x_hal::can::can_node::OutputMode;
use tc37x_hal::can::can_node::PadDriver;
use tc37x_hal::can::can_node::PortNumber;
use tc37x_hal::can::can_node::ReadFrom;
use tc37x_hal::can::can_node::RxBufferId;
use tc37x_hal::can::can_node::RxFifoMode;
use tc37x_hal::can::can_node::RxSel;
use tc37x_hal::can::can_node::RxdIn;
use tc37x_hal::can::can_node::TxBufferId;
use tc37x_hal::can::can_node::TxMode;
use tc37x_hal::can::can_node::TxdOut;
use tc37x_hal::regs::Op;
use tc37x_hal::regs::Reg;

fn modify(reg: Reg, clear: u32, set: u32) -> Op {
    Op::Modify { reg, clear, set }
}

fn enabled() -> NodeEffects {
    let mut effects = NodeEffects::new();
    effects.enable_configuration_change(0);
    effects
}

fn last(effects: NodeEffects) -> Op {
    *effects.into_program().last().unwrap()
}

#[test]
fn effects_go_through_the_phases() {
    let mut effects = NodeEffects::new();
    assert_eq!(effects.current_phase(), NodePhase::Claimed);
    effects.enable_configuration_change(0);
    assert_eq!(effects.current_phase(), NodePhase::ConfigurationChangeEnabled);
    effects.set_frame_mode(true, false);
    assert_eq!(effects.current_phase(), NodePhase::ConfigurationChangeEnabled);
    effects.disable_configuration_change();
    assert_eq!(effects.current_phase(), NodePhase::Configured);
    assert_eq!(
        effects.into_program(),
        vec![
            modify(Reg::Cccr, 1, 1),
            Op::WaitFor { reg: Reg::Cccr, mask: 1, expect: 1 },
            modify(Reg::Cccr, 3, 3),
            modify(Reg::Cccr, 0x300, 0x100),
            modify(Reg::Cccr, 2, 0),
            Op::WaitFor { reg: Reg::Cccr, mask: 2, expect: 0 },
            modify(Reg::Cccr, 1, 0),
            Op::WaitFor { reg: Reg::Cccr, mask: 1, expect: 0 },
        ]
    );
    assert_eq!(NodeEffects::new().into_program(), Vec::new());
}

#[test]
fn bit_timing_fields() {
    let mut effects = enabled();
    effects.set_nominal_bit_timing(&NominalBitTiming { brp: 0x1ff, sjw: 0x7f, tseg1: 0xff, tseg2: 0x7f });
    assert_eq!(last(effects), modify(Reg::Nbtp, 0xffff_ff7f, 0xffff_ff7f));
    let mut effects = enabled();
    effects.set_nominal_bit_timing(&NominalBitTiming { brp: 0x2ff, sjw: 0x80, tseg1: 1, tseg2: 0x81 });
    assert_eq!(last(effects), modify(Reg::Nbtp, 0xffff_ff7f, 0x00ff_0101));
    let mut effects = enabled();
    effects.set_data_bit_timing(&DataBitTiming { brp: 9, sjw: 1, tseg1: 2, tseg2: 3 });
    assert_eq!(last(effects), modify(Reg::Dbtp, 0x001f_1fff, 0x0009_0231));
    let mut effects = enabled();
    effects.set_transceiver_delay_compensation_offset(0x85);
    let program = effects.into_program();
    assert_eq!(program[3..], [modify(Reg::Dbtp, 1 << 23, 1 << 23), modify(Reg::Tdcr, 0x7f00, 0x0500)]);
}

#[test]
fn control_register_flags() {
    let mut effects = enabled();
    effects.set_frame_mode(true, true);
    effects.pause_trasmission(true);
    effects.pause_trasmission(false);
    let program = effects.into_program();
    assert_eq!(
        program[3..],
        [modify(Reg::Cccr, 0x300, 0x300), modify(Reg::Cccr, 0x4000, 0x4000), modify(Reg::Cccr, 0x4000, 0)]
    );
}

#[test]
fn receive_side_fields() {
    let mut e = enabled();
    e.set_rx_buffer_data_field_size(DataFieldSize::_64);
    e.set_rx_fifo0_data_field_size(DataFieldSize::_12);
    e.set_rx_fifo1_data_field_size(DataFieldSize::_32);
    e.set_rx_buffer_start_address(0xfffc);
    e.set_rx_fifo0_start_address(0x100);
    e.set_rx_fifo0_size(64);
    e.set_rx_fifo0_watermark_level(200);
    e.set_rx_fifo0_operating_mode(RxFifoMode::Overwrite);
    e.set_rx_fifo1_start_address(0x104);
    e.set_rx_fifo1_size(1);
    e.set_rx_fifo1_watermark_level(1);
    e.set_rx_fifo1_operating_mode(RxFifoMode::Blocking);
    assert_eq!(
        e.into_program()[3..],
        [
            modify(Reg::Rxesc, 0x700, 0x700),
            modify(Reg::Rxesc, 0x007, 0x001),
            modify(Reg::Rxesc, 0x070, 0x050),
            modify(Reg::Rxbc, 0xfffc, 0xfffc),
            modify(Reg::Rxf0c, 0xfffc, 0x100),
            modify(Reg::Rxf0c, 0x7f << 16, 64 << 16),
            modify(Reg::Rxf0c, 0x7f << 24, 72 << 24),
            modify(Reg::Rxf0c, 1 << 31, 1 << 31),
            modify(Reg::Rxf1c, 0xfffc, 0x104),
            modify(Reg::Rxf1c, 0x7f << 16, 1 << 16),
            modify(Reg::Rxf1c, 0x7f << 24, 1 << 24),
            modify(Reg::Rxf1c, 1 << 31, 0),
        ]
    );
}

#[test]
fn transmit_side_and_filter_fields() {
    let mut e = enabled();
    e.set_tx_buffer_data_field_size(7);
    e.set_tx_buffer_start_address(0x440);
    e.set_dedicated_tx_buffers_number(32);
    e.set_transmit_fifo_queue_size(4);
    e.set_transmit_fifo_queue_mode(TxMode::DedicatedBuffers);
    e.set_transmit_fifo_queue_mode(TxMode::Fifo);
    e.set_transmit_fifo_queue_mode(TxMode::Queue);
    e.set_tx_event_fifo_start_address(0x800);
    e.set_tx_event_fifo_size(3);
    e.set_standard_filter_list_start_address(0x10);
    e.set_standard_filter_list_size(128);
    e.reject_remote_frames_with_standard_id();
    e.set_extended_filter_list_start_address(0x20);
    e.set_extended_filter_list_size(64);
    e.reject_remote_frames_with_extended_id();
    assert_eq!(
        e.into_program()[3..],
        [
            modify(Reg::Txesc, 7, 7),
            modify(Reg::Txbc, 0xfffc, 0x440),
            modify(Reg::Txbc, 0x3f << 16, 32 << 16),
            modify(Reg::Txbc, 0x3f << 24, 4 << 24),
            modify(Reg::Txbc, 1 << 30, 0),
            modify(Reg::Txbc, 1 << 30, 1 << 30),
            modify(Reg::Txbc, 1 << 30, 1 << 30),
            modify(Reg::Txefc, 0xfffc, 0x800),
            modify(Reg::Txefc, 0x3f << 16, 3 << 16),
            modify(Reg::Sidfc, 0xfffc, 0x10),
            modify(Reg::Sidfc, 0xff << 16, 128 << 16),
            modify(Reg::Gfc, 2, 2),
            modify(Reg::Xidfc, 0xfffc, 0x20),
            modify(Reg::Xidfc, 0x7f << 16, 64 << 16),
            modify(Reg::Gfc, 1, 1),
        ]
    );
}

#[test]
fn effects_on_registers_that_are_not_protected() {
    let mut e = NodeEffects::new();
    e.enable_tx_buffer_transmission_interrupt(TxBufferId(31));
    e.enable_interrupt(Interrupt::RxFifo0newMessage);
    e.enable_interrupt(Interrupt::AccessToReservedAddress);
    e.clear_interrupt_flag(Interrupt::TransmissionCompleted);
    e.set_interrupt_routing_group_1(5, 28);
    e.set_interrupt_routing_group_2(0xf, 0);
    e.enable_loopback();
    e.connect_pin_rx(RxSel::_B);
    e.append_neutral(&vec![Op::Delay { cycles: 2 }, Op::StopIfFailed]);
    assert_eq!(e.current_phase(), NodePhase::Claimed);
    assert_eq!(
        e.into_program(),
        vec![
            modify(Reg::Txbtie, 1 << 31, 1 << 31),
            modify(Reg::Ie, 1, 1),
            modify(Reg::Ie, 1 << 29, 1 << 29),
            Op::Write { reg: Reg::Ir, value: 1 << 9 },
            modify(Reg::Grint1, 0, 5 << 28),
            modify(Reg::Grint2, 0, 0xf),
            modify(Reg::Npcr, 1 << 8, 1 << 8),
            modify(Reg::Npcr, 7, 1),
            Op::Delay { cycles: 2 },
            Op::StopIfFailed,
        ]
    );
}

#[test]
fn status_registers_are_decoded() {
    assert_eq!(get_rx_fifo0_fill_level(0xffff_ff80 | 5), 5);
    assert_eq!(get_rx_fifo1_fill_level(0x7f), 127);
    assert_eq!(get_rx_fifo0_get_index(0xffff_c0ff | (9 << 8)).as_u8(), 9);
    assert_eq!(get_rx_fifo1_get_index(63 << 8).as_u8(), 63);
    assert_eq!(get_tx_fifo_queue_put_index(0xffe0_ffff | (17 << 16)), 17);
    assert!(is_tx_fifo_queue_full(1 << 21));
    assert!(!is_tx_fifo_queue_full(!(1 << 21)));
    assert!(is_tx_event_fifo_full(1 << 24));
    assert!(!is_tx_event_fifo_full(1 << 25));
    assert!(is_tx_event_fifo_element_lost(1 << 25));
    assert!(!is_tx_event_fifo_element_lost(1 << 24));
    assert!(is_tx_buffer_transmission_occured(31, 0x8000_0000));
    assert!(!is_tx_buffer_transmission_occured(30, 0x8000_0000));
    assert!(!is_tx_buffer_transmission_occured(32, 0xffff_ffff));
    assert!(is_tx_buffer_request_pending(TxBufferId(0), 1));
    assert!(!is_tx_buffer_request_pending(TxBufferId(1), 1));
    assert!(!is_tx_buffer_request_pending(TxBufferId(200), 0xffff_ffff));
}

#[test]
fn new_data_flags_span_two_registers() {
    assert!(is_rx_buffer_new_data_updated(RxBufferId::new(0), 1, 0));
    assert!(!is_rx_buffer_new_data_updated(RxBufferId::new(0), 0, 1));
    assert!(is_rx_buffer_new_data_updated(RxBufferId::new(31), 0x8000_0000, 0));
    assert!(is_rx_buffer_new_data_updated(RxBufferId::new(32), 0, 1));
    assert!(!is_rx_buffer_new_data_updated(RxBufferId::new(32), 0xffff_ffff, 0));
    assert!(is_rx_buffer_new_data_updated(RxBufferId::new(63), 0, 0x8000_0000));
    assert_eq!(clear_rx_buffer_new_data_flag(RxBufferId::new(5)), Op::Write { reg: Reg::Ndat1, value: 0x20 });
    assert_eq!(clear_rx_buffer_new_data_flag(RxBufferId::new(37)), Op::Write { reg: Reg::Ndat2, value: 0x20 });
}

#[test]
fn requests_and_acknowledgements() {
    assert_eq!(set_tx_buffer_add_request(0), Some(modify(Reg::Txbar, 1, 1)));
    assert_eq!(set_tx_buffer_add_request(31), Some(modify(Reg::Txbar, 1 << 31, 1 << 31)));
    assert_eq!(set_tx_buffer_add_request(32), None);
    assert_eq!(set_rx_fifo0_acknowledge_index(RxBufferId::new(63)), modify(Reg::Rxf0a, 0x3f, 63));
    assert_eq!(set_rx_fifo1_acknowledge_index(RxBufferId::new(0)), modify(Reg::Rxf1a, 0x3f, 0));
}

#[test]
fn element_sizes_and_addresses_from_registers() {
    let rxesc = (7 << 8) | (5 << 4) | 1;
    assert_eq!(get_data_field_size(rxesc, ReadFrom::Buffer(RxBufferId::new(0))), 64);
    assert_eq!(get_data_field_size(rxesc, ReadFrom::RxFifo0), 12);
    assert_eq!(get_data_field_size(rxesc, ReadFrom::RxFifo1), 32);
    assert_eq!(get_data_field_size(4, ReadFrom::RxFifo0), 24);
    assert_eq!(get_tx_buffer_data_field_size(0xffff_fff8), 8);
    assert_eq!(get_tx_buffer_data_field_size(6), 48);
    assert_eq!(
        get_rx_element_address(0xf020_0000, 0x100, 8, RxBufferId::new(3)),
        0xf020_0000 + 0x100 + 3 * 16
    );
    assert_eq!(get_rx_element_address(0, 0, 64, RxBufferId::new(63)), 63 * 72);
}

#[test]
fn pins_and_codes_of_a_node() {
    let rxd = rxd00b_p20_7_in();
    assert_eq!(rxd.module, CanModuleId(0));
    assert_eq!(rxd.node_id.as_index(), 0);
    assert_eq!(rxd.port, PortNumber::_20);
    assert_eq!(rxd.port.to_number(), 20);
    assert_eq!(rxd.pin_index, 7);
    assert_eq!(rxd.select, RxSel::_B);
    let txd = txd00_p20_8_out();
    assert_eq!(txd.pin_index, 8);
    assert_eq!(txd.select, OutputIdx::alt5());
    let other = RxdIn::new(CanModuleId::module_1(), NodeId::new(3), PortNumber::_33, 12, RxSel::_H);
    assert_eq!(other.select.to_register_value(), 7);
    assert_eq!(other.port.to_number(), 33);
    let out = TxdOut::new(CanModuleId::module_0(), NodeId::new(1), PortNumber::_00, 0, OutputIdx::general());
    assert_eq!(out.select, OutputIdx(0x80));
    assert_eq!(InputMode::pull_up(), InputMode(2 << 3));
    assert_eq!(InputMode::pull_down(), InputMode(1 << 3));
    assert_eq!(InputMode::no_pull_device(), InputMode(0));
    assert_eq!(OutputMode::push_pull(), OutputMode(0x10 << 3));
    assert_eq!(OutputMode::open_drain(), OutputMode(0x18 << 3));
    assert_eq!(OutputMode::none(), OutputMode(0));
    assert_eq!(OutputIdx::alt1(), OutputIdx(0x11 << 3));
    assert_eq!(OutputIdx::alt7(), OutputIdx(0x17 << 3));
    assert_eq!(PadDriver::CmosAutomotiveSpeed3.to_register_value(), 2);
    assert_eq!(PadDriver::TtlSpeed1.to_register_value(), 8);
    assert_eq!(PadDriver::Ttl3v3speed4.to_register_value(), 15);
    assert_eq!(Interrupt::MessageStoredToDedicatedRxBuffer.to_bit_index(), 19);
    assert_eq!(InterruptGroup::Rxf0n.to_number(), 12);
    assert_eq!(InterruptGroup::Traco.to_number(), 15);
}
