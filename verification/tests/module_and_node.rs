use tc37x_hal::can::can_module::set_clock_source;
use tc37x_hal::can::can_module::AlreadyClaimed;
use tc37x_hal::can::can_module::ClockSelect;
use tc37x_hal::can::can_module::ClockSource;
use tc37x_hal::can::can_module::Disabled;
use tc37x_hal::can::can_module::Enabled;
use tc37x_hal::can::can_module::Module;
use tc37x_hal::can::can_module::Module0;
use tc37x_hal::can::can_module::Module1;
use tc37x_hal::can::can_node::BaudRate;
use tc37x_hal::can::can_node::CanNode;
use tc37x_hal::can::can_node::CanNodeConfig;
use tc37x_hal::can::can_node::ConfigError;
use tc37x_hal::can::can_node::DataFieldSize;
use tc37x_hal::can::can_node::FastBaudRate;
use tc37x_hal::can::can_node::FifoConfig;
use tc37x_hal::can::can_node::FrameMode;
use tc37x_hal::can::can_node::FrameType;
use tc37x_hal::can::can_node::NewCanNode;
use tc37x_hal::can::can_node::NodeId;
use tc37x_hal::can::can_node::ReadFrom;
use tc37x_hal::can::can_node::RxBufferId;
use tc37x_hal::can::can_node::RxFifoMode;
use tc37x_hal::can::can_node::RxMode;
use tc37x_hal::can::can_node::TransmitError;
use tc37x_hal::can::can_node::TxBufferId;
use tc37x_hal::can::can_node::TxMode;
use tc37x_hal::can::frame::Frame;
use tc37x_hal::can::frame::MessageId;
use tc37x_hal::can::msg_ram::RamWindow;
use tc37x_hal::can::msg_ram::RegionKind;
use tc37x_hal::regs::Op;
use tc37x_hal::regs::Reg;
use tc37x_hal::sequencer::Action;
use tc37x_hal::sequencer::Pending;

/// Registers that hold what was written last. The module reports itself
/// switched off for as long as it is asked to be.
struct Device {
    registers: Vec<(Reg, u32)>,
    writes: Vec<(Reg, u32)>,
    protection: Vec<(bool, bool)>,
    delays: u32,
    refuse_clock: bool,
}

impl Device {
    fn new() -> Device {
        Device {
            registers: Vec::new(),
            writes: Vec::new(),
            protection: Vec::new(),
            delays: 0,
            refuse_clock: false,
        }
    }

    fn read(&self, reg: Reg) -> u32 {
        let value = self.registers.iter().find(|(r, _)| *r == reg).map(|(_, v)| *v).unwrap_or(0);
        match reg {
            Reg::Clc => (value & !2) | ((value & 1) << 1),
            Reg::Mcr if self.refuse_clock => value & !0xff,
            _ => value,
        }
    }

    fn write(&mut self, reg: Reg, value: u32) {
        self.writes.push((reg, value));
        match self.registers.iter_mut().find(|(r, _)| *r == reg) {
            Some(entry) => entry.1 = value,
            None => self.registers.push((reg, value)),
        }
    }

    fn run<T>(&mut self, pending: &mut Pending<T>) -> Action {
        let mut input = 0;
        for _ in 0..10_000 {
            match pending.step(input) {
                Action::Read { reg } => input = self.read(reg),
                Action::Write { reg, value } => self.write(reg, value),
                Action::Delay { cycles } => self.delays += cycles,
                Action::CpuEndinit { locked } => self.protection.push((false, locked)),
                Action::SafetyEndinit { locked } => self.protection.push((true, locked)),
                last => return last,
            }
        }
        panic!("the program does not end");
    }
}

fn enabled_module(device: &mut Device) -> Module<Module0, (), Enabled> {
    let module: Module<Module0, (), Disabled> = Module::new(Module0);
    let mut pending = module.enable();
    assert_eq!(device.run(&mut pending), Action::Finished);
    assert!(pending.is_done());
    pending.finish().unwrap()
}

fn fifo(size: u8) -> FifoConfig {
    FifoConfig {
        field_size: DataFieldSize::_8,
        operation_mode: RxFifoMode::Blocking,
        watermark_level: 0,
        size,
    }
}

fn classic_config() -> CanNodeConfig {
    CanNodeConfig {
        clock_source: ClockSource::Both,
        calculate_bit_timing_values: true,
        baud_rate: BaudRate {
            baud_rate: 1_000_000,
            sample_point: 8000,
            sync_jump_with: 3,
            prescalar: 0,
            time_segment_1: 0,
            time_segment_2: 0,
        },
        fast_baud_rate: FastBaudRate {
            baud_rate: 2_000_000,
            sample_point: 7500,
            sync_jump_with: 1,
            prescalar: 0,
            time_segment_1: 0,
            time_segment_2: 0,
            transceiver_delay_offset: 0,
        },
        frame_mode: FrameMode::Standard,
        frame_type: FrameType::TransmitAndReceive,
        tx_mode: TxMode::DedicatedBuffers,
        rx_mode: RxMode::Fifo0,
        message_ram: RamWindow::new(0x100, 0x400).unwrap(),
        tx_buffer_data_field_size: DataFieldSize::_8,
        dedicated_tx_buffers_number: 2,
        tx_fifo_queue_size: 0,
        tx_event_fifo_size: 0,
        rx_buffer_data_field_size: DataFieldSize::_8,
        rx_buffers_number: 0,
        rx_fifo0: fifo(4),
        rx_fifo1: fifo(0),
        standard_filter_list_size: 0,
        extended_filter_list_size: 0,
        reject_remote_frames_with_standard_id: false,
        reject_remote_frames_with_extended_id: false,
    }
}

fn register(device: &Device, reg: Reg) -> u32 {
    device.read(reg)
}

fn configured(
    device: &mut Device,
    node: NewCanNode<Module0>,
    config: CanNodeConfig,
) -> CanNode<Module0> {
    let cccr = device.read(Reg::Cccr);
    let mut pending = node.configure(config, 80_000_000, cccr).unwrap();
    assert_eq!(device.run(&mut pending), Action::Finished);
    NewCanNode::finish(pending).unwrap()
}

#[test]
fn module_enable_withdraws_the_request_and_waits() {
    let mut device = Device::new();
    device.write(Reg::Clc, 0x3);
    device.writes.clear();
    let module: Module<Module0, (), Disabled> = Module::new(Module0);
    let mut pending = module.enable();
    assert_eq!(
        pending.program(),
        &vec![
            Op::CpuEndinit { locked: false },
            Op::Modify { reg: Reg::Clc, clear: 1, set: 0 },
            Op::WaitFor { reg: Reg::Clc, mask: 2, expect: 0 },
            Op::CpuEndinit { locked: true },
        ]
    );
    assert_eq!(device.run(&mut pending), Action::Finished);
    assert_eq!(device.writes, vec![(Reg::Clc, 0x2)]);
    assert_eq!(device.protection, vec![(false, false), (false, true)]);
    assert!(Module::<Module0, (), Disabled>::is_enabled(0));
    assert!(Module::<Module0, (), Disabled>::is_enabled(1));
    assert!(!Module::<Module0, (), Disabled>::is_enabled(2));
}

#[test]
fn claiming_a_claimed_node_fails_and_changes_nothing() {
    let mut device = Device::new();
    let mut module = enabled_module(&mut device);
    for n in 0..4u8 {
        assert!(!module.is_claimed(NodeId::new(n)));
    }
    let node = module.claim(NodeId::new(2)).unwrap();
    assert_eq!(node.id().as_index(), 2);
    for _ in 0..3 {
        assert_eq!(module.claim(NodeId::new(2)).err(), Some(AlreadyClaimed));
        assert!(!module.is_claimed(NodeId::new(0)));
        assert!(!module.is_claimed(NodeId::new(1)));
        assert!(module.is_claimed(NodeId::new(2)));
        assert!(!module.is_claimed(NodeId::new(3)));
    }
    // Dropping the node does not hand it back.
    drop(node);
    assert_eq!(module.claim(NodeId::new(2)).err(), Some(AlreadyClaimed));
}

#[test]
fn each_node_is_claimed_once() {
    let mut device = Device::new();
    let mut module = enabled_module(&mut device);
    for n in 0..4u8 {
        assert!(module.claim(NodeId::new(n)).is_ok());
    }
    for n in 0..4u8 {
        assert!(module.claim(NodeId::new(n)).is_err());
        assert!(module.is_claimed(NodeId::new(n)));
    }
}

#[test]
fn node_ids_name_four_slots() {
    for n in 0..4u8 {
        assert_eq!(NodeId::try_new(n).unwrap().as_index(), n as usize);
    }
    assert!(NodeId::try_new(4).is_none());
    assert!(NodeId::try_new(255).is_none());
    assert!(RxBufferId::try_new(63).is_some());
    assert!(RxBufferId::try_new(64).is_none());
    assert_eq!(RxBufferId::new(17).as_u8(), 17);
}

#[test]
fn clock_source_program_follows_the_handshake() {
    let select = ClockSelect::new(NodeId::new(2));
    assert_eq!(select.offset(), 4);
    let program = set_clock_source(select, ClockSource::Synchronous);
    assert_eq!(
        program,
        vec![
            Op::CpuEndinit { locked: false },
            Op::Modify { reg: Reg::Mcr, clear: 0xc000_0000, set: 0xc000_0000 },
            Op::Modify { reg: Reg::Mcr, clear: 0x30, set: 0x20 },
            Op::Delay { cycles: 10 },
            Op::Expect { reg: Reg::Mcr, mask: 0x30, expect: 0x20 },
            Op::Modify { reg: Reg::Mcr, clear: 0xc000_0000, set: 0 },
            Op::CpuEndinit { locked: true },
            Op::StopIfFailed,
        ]
    );
    assert_eq!(u8::from(ClockSource::Asynchronous), 1);
    assert_eq!(u8::from(ClockSource::Synchronous), 2);
    assert_eq!(u8::from(ClockSource::Both), 3);
    assert_eq!(ClockSource::default(), ClockSource::Both);
}

#[test]
fn end_to_end_claim_configure_transmit() {
    let mut device = Device::new();
    let mut module = enabled_module(&mut device);
    let node0 = module.claim(NodeId::new(0)).unwrap();
    assert_eq!(module.claim(NodeId::new(0)).err(), Some(AlreadyClaimed));
    assert!(module.claim(NodeId::new(1)).is_ok());

    device.writes.clear();
    let node = configured(&mut device, node0, classic_config());

    // The node has left the configuration change and runs.
    assert_eq!(register(&device, Reg::Cccr) & 0x303, 0);
    // Clock selection of node 0: both clocks, and the clock change is closed.
    assert_eq!(register(&device, Reg::Mcr), 0x3);
    // Prescaler 8, jump width 2, segments 7 and 2, each one less in its field.
    assert_eq!(register(&device, Reg::Nbtp), (1 << 25) | (7 << 16) | (6 << 8) | 1);
    // The data phase is not timed for classic frames.
    assert!(device.writes.iter().all(|(reg, _)| *reg != Reg::Dbtp));
    // Receive FIFO 0: 4 elements at 0x100, blocking, no watermark.
    assert_eq!(register(&device, Reg::Rxf0c), (4 << 16) | 0x100);
    assert_eq!(register(&device, Reg::Rxf1c), 0x140);
    assert_eq!(register(&device, Reg::Rxesc), 0);
    // Two dedicated transmit buffers behind the FIFO, with their interrupts.
    assert_eq!(register(&device, Reg::Txbc), (2 << 16) | 0x140);
    assert_eq!(register(&device, Reg::Txbtie), 0b11);
    assert_eq!(register(&device, Reg::Txefc), 0x160);
    assert_eq!(register(&device, Reg::Sidfc), 0x160);
    assert_eq!(register(&device, Reg::Gfc), 0);

    assert_eq!(node.node_id().as_index(), 0);
    assert_eq!(node.frame_mode(), FrameMode::Standard);
    assert_eq!(node.rx_fifo0().start_address, 0x100);
    assert_eq!(node.rx_fifo0().size, 4);
    assert_eq!(node.tx_buffers().start_address, 0x140);
    assert_eq!(node.dedicated_tx_buffers_number(), 2);
    assert_eq!(node.tx_fifo_queue_size(), 0);

    let frame = Frame::new(MessageId::new_extended(0x0cfe_6e00), &[0, 1, 2, 3, 4, 5, 6, 7]).unwrap();
    let sent = node.transmit(&frame, register(&device, Reg::Txfqs), register(&device, Reg::Txbrp)).unwrap();
    assert_eq!(sent.buffer, TxBufferId(0));
    assert_eq!(sent.address, 0x140);
    assert_eq!(sent.element.words(), &vec![0x4cfe_6e00, 0x0008_0000, 0x0302_0100, 0x0706_0504]);
    assert_eq!(sent.request, Op::Modify { reg: Reg::Txbar, clear: 1, set: 1 });
}

#[test]
fn protected_registers_are_written_between_enable_and_disable() {
    let mut device = Device::new();
    let mut module = enabled_module(&mut device);
    let node = module.claim(NodeId::new(0)).unwrap();
    let mut config = classic_config();
    config.frame_mode = FrameMode::FdLongAndFast;
    config.fast_baud_rate.transceiver_delay_offset = 5;
    config.reject_remote_frames_with_standard_id = true;
    config.reject_remote_frames_with_extended_id = true;
    device.writes.clear();
    let node = configured(&mut device, node, config);
    assert_eq!(node.frame_mode(), FrameMode::FdLongAndFast);

    let protected = [
        Reg::Nbtp, Reg::Dbtp, Reg::Tdcr, Reg::Rxesc, Reg::Rxf0c, Reg::Rxf1c, Reg::Rxbc,
        Reg::Txesc, Reg::Txbc, Reg::Txefc, Reg::Sidfc, Reg::Xidfc, Reg::Gfc,
    ];
    let mut cccr = 0;
    let mut seen = 0;
    for (reg, value) in device.writes.iter() {
        if *reg == Reg::Cccr {
            cccr = *value;
        } else if protected.contains(reg) {
            assert_eq!(cccr & 3, 3);
            seen += 1;
        }
    }
    assert!(seen >= 20);
    assert_eq!(cccr & 3, 0);
    // FD operation and bit rate switching are on.
    assert_eq!(register(&device, Reg::Cccr), 0x300);
    // Data phase: 2 Mbit/s at 75% is prescaler 10 with segments 2 and 1;
    // the delay compensation is on with offset 5.
    assert_eq!(register(&device, Reg::Dbtp), (1 << 23) | (9 << 16) | (1 << 8));
    assert_eq!(register(&device, Reg::Tdcr), 5 << 8);
    assert_eq!(register(&device, Reg::Gfc), 3);
}

#[test]
fn configuration_that_was_begun_is_left_first() {
    let config = classic_config();
    let mut device = Device::new();
    let mut module = enabled_module(&mut device);
    let fresh = module.claim(NodeId::new(0)).unwrap().configure(config, 80_000_000, 0).unwrap();
    let begun = module.claim(NodeId::new(1)).unwrap().configure(config, 80_000_000, 3).unwrap();
    assert_eq!(begun.program().len(), fresh.program().len() + 4);
    assert_eq!(
        &begun.program()[..7],
        &[
            Op::Modify { reg: Reg::Cccr, clear: 2, set: 0 },
            Op::WaitFor { reg: Reg::Cccr, mask: 2, expect: 0 },
            Op::Modify { reg: Reg::Cccr, clear: 1, set: 0 },
            Op::WaitFor { reg: Reg::Cccr, mask: 1, expect: 0 },
            Op::Modify { reg: Reg::Cccr, clear: 1, set: 1 },
            Op::WaitFor { reg: Reg::Cccr, mask: 1, expect: 1 },
            Op::Modify { reg: Reg::Cccr, clear: 3, set: 3 },
        ]
    );
    assert_eq!(&fresh.program()[..3], &begun.program()[4..7]);
    let n = fresh.program().len();
    assert_eq!(
        &fresh.program()[n - 4..],
        &[
            Op::Modify { reg: Reg::Cccr, clear: 2, set: 0 },
            Op::WaitFor { reg: Reg::Cccr, mask: 2, expect: 0 },
            Op::Modify { reg: Reg::Cccr, clear: 1, set: 0 },
            Op::WaitFor { reg: Reg::Cccr, mask: 1, expect: 0 },
        ]
    );
    // Node 1 selects its clock in the second field, with the protection lifted.
    assert_eq!(begun.program()[7], Op::CpuEndinit { locked: false });
    assert_eq!(begun.program()[9], Op::Modify { reg: Reg::Mcr, clear: 0xc, set: 0xc });
    assert_eq!(begun.program()[13], Op::CpuEndinit { locked: true });
    assert_eq!(begun.program()[14], Op::StopIfFailed);
}

#[test]
fn clock_switch_that_does_not_take_ends_the_configuration() {
    let mut device = Device::new();
    let mut module = enabled_module(&mut device);
    let node = module.claim(NodeId::new(0)).unwrap();
    device.refuse_clock = true;
    device.writes.clear();
    device.protection.clear();
    let mut pending = node.configure(classic_config(), 80_000_000, 0).unwrap();
    assert_eq!(device.run(&mut pending), Action::Failed);
    // The protection was lifted for the clock switch and is back.
    assert_eq!(device.protection, vec![(false, false), (false, true)]);
    assert!(pending.is_done());
    assert_eq!(NewCanNode::finish(pending).err(), Some(ConfigError::ClockSwitchFailed));
    // Nothing but the handshakes was written, and the clock change was closed.
    assert!(device.writes.iter().all(|(reg, _)| *reg == Reg::Cccr || *reg == Reg::Mcr));
    // The selection reads back as 0 here, so that is what is written back.
    assert_eq!(device.writes.last(), Some(&(Reg::Mcr, 0)));
    // The node has not left the configuration change.
    assert_eq!(register(&device, Reg::Cccr) & 3, 3);
    assert_eq!(device.delays, 10);
}

#[test]
fn configuration_that_overflows_the_window_asks_nothing() {
    let mut device = Device::new();
    let mut module = enabled_module(&mut device);
    let mut config = classic_config();
    // 4 * 16 + 2 * 16 = 96 bytes are needed.
    config.message_ram = RamWindow::new(0x100, 95).unwrap();
    let node = module.claim(NodeId::new(0)).unwrap();
    assert_eq!(node.configure(config, 80_000_000, 0).err(), Some(ConfigError::RamOverflow));
    config.message_ram = RamWindow::new(0x100, 96).unwrap();
    let node = module.claim(NodeId::new(1)).unwrap();
    assert!(node.configure(config, 80_000_000, 0).is_ok());
}

#[test]
fn requested_regions_follow_the_modes() {
    let mut config = classic_config();
    config.tx_mode = TxMode::SharedFifo;
    config.dedicated_tx_buffers_number = 30;
    config.tx_fifo_queue_size = 10;
    config.tx_event_fifo_size = 40;
    config.rx_mode = RxMode::SharedAll;
    config.rx_buffers_number = 100;
    config.rx_fifo1 = fifo(7);
    config.standard_filter_list_size = 200;
    config.extended_filter_list_size = 65;
    let counts: Vec<(RegionKind, u8)> =
        config.requested_regions().iter().map(|r| (r.kind, r.count)).collect();
    assert_eq!(
        counts,
        vec![
            (RegionKind::RxFifo0, 4),
            (RegionKind::RxFifo1, 7),
            (RegionKind::RxBuffers, 64),
            (RegionKind::TxBuffers, 30),
            (RegionKind::TxFifoQueue, 2),
            (RegionKind::TxEventFifo, 32),
            (RegionKind::StandardFilters, 128),
            (RegionKind::ExtendedFilters, 64),
        ]
    );
    config.frame_type = FrameType::Receive;
    config.rx_mode = RxMode::Fifo1;
    let counts: Vec<u8> = config.requested_regions().iter().map(|r| r.count).collect();
    assert_eq!(counts, vec![0, 7, 0, 0, 0, 0, 128, 64]);
    assert!(!FrameType::Receive.includes_transmission());
    assert!(FrameType::RemoteAnswer.includes_transmission());
}

#[test]
fn receive_only_node_gets_no_transmit_side() {
    let mut device = Device::new();
    let mut module = enabled_module(&mut device);
    let mut config = classic_config();
    config.frame_type = FrameType::Receive;
    config.calculate_bit_timing_values = false;
    config.baud_rate.prescalar = 3;
    config.baud_rate.sync_jump_with = 0x102;
    config.baud_rate.time_segment_1 = 14;
    config.baud_rate.time_segment_2 = 3;
    device.writes.clear();
    let node = configured(&mut device, module.claim(NodeId::new(3)).unwrap(), config);
    assert!(device.writes.iter().all(|(reg, _)| {
        *reg != Reg::Txbc && *reg != Reg::Txesc && *reg != Reg::Txefc && *reg != Reg::Txbtie
    }));
    // The register fields are taken as given; the jump width is cut to a byte.
    assert_eq!(register(&device, Reg::Nbtp), (2 << 25) | (3 << 16) | (14 << 8) | 3);
    assert_eq!(register(&device, Reg::Mcr), 0xc0);
    let frame = Frame::new(MessageId::new_standard(1), &[]).unwrap();
    assert_eq!(node.transmit(&frame, 0, 0).err(), Some(TransmitError::NoTransmitBuffer));
}

#[test]
fn transmit_picks_the_lowest_free_dedicated_buffer() {
    let mut device = Device::new();
    let mut module = enabled_module(&mut device);
    let mut config = classic_config();
    config.dedicated_tx_buffers_number = 3;
    config.tx_buffer_data_field_size = DataFieldSize::_12;
    config.frame_mode = FrameMode::FdLong;
    let node = configured(&mut device, module.claim(NodeId::new(0)).unwrap(), config);
    let frame = Frame::new(MessageId::new_standard(0x55), &[9u8; 12]).unwrap();
    assert_eq!(node.transmit(&frame, 0, 0b000).unwrap().buffer, TxBufferId(0));
    assert_eq!(node.transmit(&frame, 0, 0b001).unwrap().buffer, TxBufferId(1));
    let third = node.transmit(&frame, 0, 0b011).unwrap();
    assert_eq!(third.buffer, TxBufferId(2));
    assert_eq!(third.address, 0x140 + 2 * 20);
    assert_eq!(third.request, Op::Modify { reg: Reg::Txbar, clear: 4, set: 4 });
    assert_eq!(node.transmit(&frame, 0, 0b101).unwrap().buffer, TxBufferId(1));
    assert_eq!(node.transmit(&frame, 0, 0b111).err(), Some(TransmitError::Busy));
    assert_eq!(node.transmit(&frame, 0, 0xffff_ffff).err(), Some(TransmitError::Busy));
    // The full flag of the FIFO says nothing of dedicated buffers.
    assert!(node.transmit(&frame, 1 << 21, 0).is_ok());
}

#[test]
fn transmit_errors_in_their_order() {
    let mut device = Device::new();
    let mut module = enabled_module(&mut device);
    let mut config = classic_config();
    config.tx_mode = TxMode::Fifo;
    config.tx_fifo_queue_size = 4;
    let node = configured(&mut device, module.claim(NodeId::new(0)).unwrap(), config);
    assert_eq!(register(&device, Reg::Txbc), (1 << 30) | (4 << 24) | 0x140);
    assert_eq!(register(&device, Reg::Txbtie), 0b1111);
    let long = Frame::new(MessageId::new_standard(1), &[0u8; 12]).unwrap();
    let fast = Frame::new_with_mode(MessageId::new_standard(1), FrameMode::FdLongAndFast, &[0u8; 8]).unwrap();
    let short = Frame::new(MessageId::new_standard(1), &[0u8; 8]).unwrap();
    // A classic node sends no FD frames, whatever else holds.
    assert_eq!(node.transmit(&long, 1 << 21, 0).err(), Some(TransmitError::FrameModeNotEnabled));
    assert_eq!(node.transmit(&fast, 0, 0).err(), Some(TransmitError::FrameModeNotEnabled));
    assert_eq!(node.transmit(&short, 1 << 21, 0).err(), Some(TransmitError::Busy));
    // The put index of the FIFO picks the buffer.
    let sent = node.transmit(&short, 3 << 16, 0xffff_ffff).unwrap();
    assert_eq!(sent.buffer, TxBufferId(3));
    assert_eq!(sent.address, 0x140 + 3 * 16);

    let mut module1 = enabled_module(&mut device);
    let mut wide = classic_config();
    wide.frame_mode = FrameMode::FdLong;
    let node = configured(&mut device, module1.claim(NodeId::new(0)).unwrap(), wide);
    assert_eq!(node.transmit(&long, 0, 0).err(), Some(TransmitError::PayloadTooLong));
    assert_eq!(node.transmit(&fast, 0, 0).err(), Some(TransmitError::FrameModeNotEnabled));
    assert!(node.transmit(&short, 0, 0).is_ok());
}

#[test]
fn receive_path_reads_and_releases() {
    let mut device = Device::new();
    let mut module = enabled_module(&mut device);
    let mut config = classic_config();
    config.rx_mode = RxMode::SharedAll;
    config.rx_buffers_number = 40;
    config.rx_buffer_data_field_size = DataFieldSize::_64;
    config.rx_fifo1 = FifoConfig {
        field_size: DataFieldSize::_16,
        operation_mode: RxFifoMode::Overwrite,
        watermark_level: 2,
        size: 3,
    };
    config.message_ram = RamWindow::new(0x100, 0x2000).unwrap();
    let node = configured(&mut device, module.claim(NodeId::new(0)).unwrap(), config);
    assert_eq!(register(&device, Reg::Rxf1c), (1 << 31) | (2 << 24) | (3 << 16) | 0x140);
    assert_eq!(register(&device, Reg::Rxesc), (7 << 8) | (2 << 4));
    assert_eq!(register(&device, Reg::Rxbc), 0x140 + 3 * 24);
    assert_eq!(node.rx_fifo1().start_address, 0x140);
    assert_eq!(node.rx_buffers().start_address, 0x188);

    assert_eq!(node.rx_fifo0_next(0).map(|id| id.as_u8()), None);
    assert_eq!(node.rx_fifo0_next((2 << 8) | 1).map(|id| id.as_u8()), Some(2));
    assert_eq!(node.rx_fifo0_next(63 << 8).map(|id| id.as_u8()), None);
    assert_eq!(node.rx_fifo1_next((63 << 8) | 64).map(|id| id.as_u8()), Some(63));

    let id = RxBufferId::new(2);
    assert_eq!(node.rx_element_offset(ReadFrom::RxFifo0, id), 0x100 + 2 * 16);
    assert_eq!(node.rx_element_offset(ReadFrom::RxFifo1, id), 0x140 + 2 * 24);
    assert_eq!(node.rx_element_offset(ReadFrom::Buffer(RxBufferId::new(39)), id), 0x188 + 39 * 72);

    assert_eq!(node.rx_element_words(ReadFrom::RxFifo0), 4);
    assert_eq!(node.rx_element_words(ReadFrom::RxFifo1), 6);
    assert_eq!(node.rx_element_words(ReadFrom::Buffer(id)), 18);

    let frame = node.receive(vec![0x7ff << 18, 2 << 16, 0x0000_bbaa]);
    assert_eq!(frame.id(), MessageId::new_standard(0x7ff));
    assert_eq!(frame.data(), &vec![0xaa, 0xbb]);

    assert_eq!(node.release(ReadFrom::RxFifo0, id), Op::Modify { reg: Reg::Rxf0a, clear: 0x3f, set: 2 });
    assert_eq!(node.release(ReadFrom::RxFifo1, id), Op::Modify { reg: Reg::Rxf1a, clear: 0x3f, set: 2 });
    assert_eq!(
        node.release(ReadFrom::Buffer(RxBufferId::new(31)), id),
        Op::Write { reg: Reg::Ndat1, value: 0x8000_0000 }
    );
    assert_eq!(
        node.release(ReadFrom::Buffer(RxBufferId::new(32)), id),
        Op::Write { reg: Reg::Ndat2, value: 1 }
    );
}

#[test]
fn default_configuration_asks_for_nothing() {
    let config = CanNodeConfig::default();
    assert_eq!(config.clock_source, ClockSource::Both);
    assert!(!config.calculate_bit_timing_values);
    assert_eq!(config.frame_mode, FrameMode::Standard);
    assert_eq!(config.frame_type, FrameType::Receive);
    assert_eq!(config.tx_mode, TxMode::DedicatedBuffers);
    assert_eq!(config.rx_mode, RxMode::DedicatedBuffers);
    assert_eq!(config.message_ram.start(), 0);
    assert_eq!(config.message_ram.size(), 0);
    assert!(config.requested_regions().iter().all(|r| r.count == 0));
    assert_eq!(FrameMode::default(), FrameMode::Standard);
    assert_eq!(FrameType::default(), FrameType::Receive);
    assert_eq!(BaudRate::default().baud_rate, 0);
    assert_eq!(FastBaudRate::default().transceiver_delay_offset, 0);
    assert_eq!(FifoConfig::default().size, 0);
    // It fits a window of no bytes, and its program ends with the node running.
    let mut device = Device::new();
    let mut module = enabled_module(&mut device);
    let node = configured(&mut device, module.claim(NodeId::new(0)).unwrap(), config);
    assert_eq!(register(&device, Reg::Cccr) & 3, 0);
    assert_eq!(register(&device, Reg::Nbtp), 0);
    assert_eq!(node.dedicated_tx_buffers_number(), 0);
}

#[test]
fn configured_node_has_the_protection_back() {
    let mut device = Device::new();
    let mut module = enabled_module(&mut device);
    device.protection.clear();
    let node = configured(&mut device, module.claim(NodeId::new(2)).unwrap(), classic_config());
    assert_eq!(node.node_id().as_index(), 2);
    assert_eq!(device.protection, vec![(false, false), (false, true)]);
    // The clock selection of node 2 is written while the change is open.
    let mcr: Vec<u32> =
        device.writes.iter().filter(|(reg, _)| *reg == Reg::Mcr).map(|(_, v)| *v).collect();
    assert_eq!(mcr, vec![0xc000_0000, 0xc000_0030, 0x30]);
}

#[test]
fn nodes_of_two_modules_are_of_two_types() {
    let mut device = Device::new();
    let mut first = enabled_module(&mut device);
    let other: Module<Module1, (), Disabled> = Module::new(Module1);
    let mut pending = other.enable();
    assert_eq!(device.run(&mut pending), Action::Finished);
    let mut second = pending.finish().unwrap();
    let a: NewCanNode<Module0> = first.claim(NodeId::new(0)).unwrap();
    let b: NewCanNode<Module1> = second.claim(NodeId::new(0)).unwrap();
    assert_eq!(a.id().as_index(), b.id().as_index());
    assert!(first.is_claimed(NodeId::new(0)));
    assert!(second.is_claimed(NodeId::new(0)));
    assert!(!second.is_claimed(NodeId::new(1)));
}
