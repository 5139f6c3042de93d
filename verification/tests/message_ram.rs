use tc37x_hal::can::can_node::data_field_size_in_bytes;
use tc37x_hal::can::can_node::DataFieldSize;
use tc37x_hal::can::msg_ram::element_size;
use tc37x_hal::can::msg_ram::plan_layout;
use tc37x_hal::can::msg_ram::RamOverflow;
use tc37x_hal::can::msg_ram::RamWindow;
use tc37x_hal::can::msg_ram::Region;
use tc37x_hal::can::msg_ram::RegionKind;
use tc37x_hal::can::msg_ram::RegionRequest;
use tc37x_hal::can::msg_ram::MESSAGE_RAM_LIMIT;

fn request(kind: RegionKind, field_size: DataFieldSize, count: u8) -> RegionRequest {
    RegionRequest { kind, field_size, count }
}

fn bytes(region: &Region) -> u32 {
    element_size(region.kind, region.field_size) as u32 * region.count as u32
}

#[test]
fn data_field_sizes_follow_the_two_tiers() {
    let expected = [8u8, 12, 16, 20, 24, 32, 48, 64];
    for code in 0..8u8 {
        assert_eq!(data_field_size_in_bytes(code), expected[code as usize]);
        assert_eq!(DataFieldSize::from_code(code).size_in_bytes(), expected[code as usize]);
        assert_eq!(DataFieldSize::from_code(code).to_esci_register_value(), code);
    }
    assert_eq!(DataFieldSize::_24.to_esci_register_value(), 4);
    assert_eq!(DataFieldSize::_32.to_esci_register_value(), 5);
    assert_eq!(DataFieldSize::from_code(13), DataFieldSize::_32);
}

#[test]
fn element_sizes() {
    assert_eq!(element_size(RegionKind::RxFifo0, DataFieldSize::_8), 16);
    assert_eq!(element_size(RegionKind::RxBuffers, DataFieldSize::_64), 72);
    assert_eq!(element_size(RegionKind::TxBuffers, DataFieldSize::_12), 20);
    assert_eq!(element_size(RegionKind::TxFifoQueue, DataFieldSize::_48), 56);
    assert_eq!(element_size(RegionKind::TxEventFifo, DataFieldSize::_64), 8);
    assert_eq!(element_size(RegionKind::StandardFilters, DataFieldSize::_64), 4);
    assert_eq!(element_size(RegionKind::ExtendedFilters, DataFieldSize::_64), 8);
}

#[test]
fn window_must_be_aligned_and_addressable() {
    assert!(RamWindow::new(0x100, 0x400).is_some());
    assert!(RamWindow::new(0x102, 0x400).is_none());
    assert!(RamWindow::new(0x101, 0).is_none());
    assert!(RamWindow::new(0, MESSAGE_RAM_LIMIT).is_some());
    assert!(RamWindow::new(0, MESSAGE_RAM_LIMIT + 1).is_none());
    assert!(RamWindow::new(0xfffc, 0).is_some());
    assert!(RamWindow::new(0xfffc, 4).is_none());
    let w = RamWindow::new(0x100, 0x400).unwrap();
    assert_eq!(w.start(), 0x100);
    assert_eq!(w.size(), 0x400);
}

#[test]
fn regions_are_placed_in_request_order() {
    let window = RamWindow::new(0x100, 0x1000).unwrap();
    let requests = vec![
        request(RegionKind::RxFifo0, DataFieldSize::_8, 4),
        request(RegionKind::TxBuffers, DataFieldSize::_8, 2),
        request(RegionKind::StandardFilters, DataFieldSize::_8, 3),
        request(RegionKind::RxBuffers, DataFieldSize::_64, 1),
    ];
    let plan = plan_layout(&window, &requests).unwrap();
    assert_eq!(plan.len(), 4);
    assert_eq!(
        plan[0],
        Region { kind: RegionKind::RxFifo0, field_size: DataFieldSize::_8, count: 4, start_address: 0x100 }
    );
    assert_eq!(plan[1].start_address, 0x140);
    assert_eq!(plan[2].start_address, 0x160);
    assert_eq!(plan[3].start_address, 0x16c);
    assert_eq!(plan[3].kind, RegionKind::RxBuffers);
}

#[test]
fn layout_that_fits_exactly_is_aligned_and_disjoint() {
    // 4 * 16 + 2 * 72 + 8 * 4 + 3 * 8 = 264 bytes.
    let window = RamWindow::new(0x200, 264).unwrap();
    let requests = vec![
        request(RegionKind::RxFifo0, DataFieldSize::_8, 4),
        request(RegionKind::RxFifo1, DataFieldSize::_64, 2),
        request(RegionKind::StandardFilters, DataFieldSize::_8, 8),
        request(RegionKind::TxEventFifo, DataFieldSize::_8, 3),
    ];
    let plan = plan_layout(&window, &requests).unwrap();
    for region in plan.iter() {
        assert_eq!(region.start_address % 4, 0);
        assert!(region.start_address as u32 >= 0x200);
        assert!(region.start_address as u32 + bytes(region) <= 0x200 + 264);
    }
    for i in 0..plan.len() {
        for j in (i + 1)..plan.len() {
            assert!(plan[i].start_address as u32 + bytes(&plan[i]) <= plan[j].start_address as u32);
        }
    }
    assert_eq!(plan[3].start_address as u32 + bytes(&plan[3]), 0x200 + 264);
}

#[test]
fn layout_one_byte_short_overflows() {
    let requests = vec![
        request(RegionKind::RxFifo0, DataFieldSize::_8, 4),
        request(RegionKind::RxFifo1, DataFieldSize::_64, 2),
        request(RegionKind::StandardFilters, DataFieldSize::_8, 8),
        request(RegionKind::TxEventFifo, DataFieldSize::_8, 3),
    ];
    let short = RamWindow::new(0x200, 263).unwrap();
    assert_eq!(plan_layout(&short, &requests), Err(RamOverflow));
    let shorter = RamWindow::new(0x200, 260).unwrap();
    assert_eq!(plan_layout(&shorter, &requests), Err(RamOverflow));
    let none = RamWindow::new(0x200, 0).unwrap();
    assert_eq!(plan_layout(&none, &requests), Err(RamOverflow));
}

#[test]
fn empty_requests_and_empty_regions() {
    let none = RamWindow::new(0x200, 0).unwrap();
    assert_eq!(plan_layout(&none, &Vec::new()), Ok(Vec::new()));
    let requests = vec![
        request(RegionKind::RxFifo0, DataFieldSize::_8, 0),
        request(RegionKind::TxBuffers, DataFieldSize::_8, 0),
    ];
    let plan = plan_layout(&none, &requests).unwrap();
    assert_eq!(plan[0].start_address, 0x200);
    assert_eq!(plan[1].start_address, 0x200);
    let top = RamWindow::new(0xfffc, 0).unwrap();
    assert_eq!(plan_layout(&top, &requests).unwrap()[1].start_address, 0xfffc);
}
