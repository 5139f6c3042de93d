use embedded_hal::digital::PinState;
use tc37x_hal::gpio::pcl_ps_bits;
use tc37x_hal::gpio::pin_input_is_high;
use tc37x_hal::gpio::pin_output_is_high;
use tc37x_hal::gpio::pin_set_state;
use tc37x_hal::gpio::pin_toggle_state;
use tc37x_hal::gpio::Alternate;
use tc37x_hal::gpio::Gpio;
use tc37x_hal::gpio::Input;
use tc37x_hal::gpio::NoPin;
use tc37x_hal::gpio::OpenDrain;
use tc37x_hal::gpio::Output;
use tc37x_hal::gpio::Pin;
use tc37x_hal::gpio::PinExt;
use tc37x_hal::gpio::PinId;
use tc37x_hal::gpio::PinPull;
use tc37x_hal::gpio::PinSpeed;
use tc37x_hal::gpio::PortId;
use tc37x_hal::gpio::Pull;
use tc37x_hal::gpio::PushPull;
use tc37x_hal::gpio::ReadPin;
use tc37x_hal::gpio::Speed;
use tc37x_hal::regs::Op;
use tc37x_hal::regs::Reg;

fn omr(value: u32) -> Op {
    Op::Write { reg: Reg::Omr, value }
}

#[test]
fn output_modification_bits() {
    assert_eq!(pcl_ps_bits(0, 1, 0), 0x0000_0001);
    assert_eq!(pcl_ps_bits(1, 0, 0), 0x0001_0000);
    assert_eq!(pcl_ps_bits(1, 1, 5), 0x0020_0020);
    assert_eq!(pcl_ps_bits(0, 1, 15), 0x0000_8000);
    assert_eq!(pcl_ps_bits(1, 0, 15), 0x8000_0000);
    assert_eq!(pcl_ps_bits(0, 0, 7), 0);
}

#[test]
fn pin_state_operations() {
    assert_eq!(pin_set_state(PinId(6), PinState::High), omr(1 << 6));
    assert_eq!(pin_set_state(PinId(6), PinState::Low), omr(1 << 22));
    assert_eq!(pin_toggle_state(PinId(6)), omr((1 << 22) | (1 << 6)));
    assert!(pin_input_is_high(0x0040, PinId(6)));
    assert!(!pin_input_is_high(0xffbf, PinId(6)));
    assert!(pin_output_is_high(0x8000, PinId(15)));
    assert!(!pin_output_is_high(0x7fff, PinId(15)));
}

#[test]
fn output_pin_drives_and_toggles() {
    let mut stb: Pin<20, 6, Output<PushPull>> = Pin::new();
    assert_eq!(stb.set_low(), omr(1 << 22));
    assert_eq!(stb.set_high(), omr(1 << 6));
    assert_eq!(stb.toggle(), omr((1 << 22) | (1 << 6)));
    assert_eq!(stb.set_state(PinState::High), omr(1 << 6));
    assert_eq!(stb.set_state(PinState::Low), omr(1 << 22));
    assert_eq!(stb.get_state(1 << 6), PinState::High);
    assert_eq!(stb.get_state(!(1 << 6)), PinState::Low);
    assert!(stb.is_set_high(0x40));
    assert!(!stb.is_set_high(0x80));
    let mut led: Pin<0, 15, Output<OpenDrain>> = Pin::new();
    assert_eq!(led.set_high(), omr(0x0000_8000));
    assert_eq!(led.set_low(), omr(0x8000_0000));
}

#[test]
fn readable_pin_reads_its_bit() {
    let pin: Pin<20, 7, Input> = Pin::new();
    assert!(pin.is_high(0x80));
    assert!(!pin.is_low(0x80));
    assert!(!pin.is_high(0xff7f));
    assert!(pin.is_low(0xff7f));
    assert!(ReadPin::is_high(&pin, 0x80));
    assert!(ReadPin::is_low(&pin, 0));
    let open: Pin<0, 0, Output<OpenDrain>> = Pin::new();
    assert!(open.is_high(1));
    let alternate: Pin<20, 8, Alternate<5>> = Pin::new();
    assert!(alternate.is_low(0));
}

#[test]
fn pin_knows_its_place() {
    let pin: Pin<20, 7, Input> = Pin::new();
    assert_eq!(pin.pin_id(), PinId(7));
    assert_eq!(pin.port_id(), PortId(20));
    let partly = Pin::<20, 7, Input>::new().erase_number();
    assert_eq!(partly.pin_id(), PinId(7));
    assert_eq!(partly.port_id(), PortId(20));
    let erased = Pin::<33, 12, Output<PushPull>>::new().erase();
    assert_eq!(erased.pin_id(), PinId(12));
    assert_eq!(erased.port_id(), PortId(33));
}

#[test]
fn speed_and_pull_leave_the_pin_as_it_is() {
    let mut pin: Pin<0, 5, Output<PushPull>> = Pin::new();
    pin.set_speed(Speed::VeryHigh);
    pin.set_internal_resistor(Pull::Up);
    let mut pin = pin
        .speed(Speed::Low)
        .internal_resistor(Pull::Down)
        .internal_pull_up(true)
        .internal_pull_up(false)
        .internal_pull_down(true)
        .internal_pull_down(false);
    assert_eq!(pin.set_high(), omr(1 << 5));
    let pin = PinSpeed::speed(pin, Speed::Medium);
    let mut pin = PinPull::internal_resistor(pin, Pull::Floating);
    assert_eq!(pin.pin_id(), PinId(5));
    assert_eq!(pin.set_low(), omr(1 << 21));
    let _filler: NoPin = NoPin::new();
}

#[test]
fn ports_of_the_device() {
    assert!(Gpio::<0>::is_present());
    assert!(Gpio::<2>::is_present());
    assert!(!Gpio::<3>::is_present());
    assert!(!Gpio::<9>::is_present());
    assert!(Gpio::<10>::is_present());
    assert!(Gpio::<15>::is_present());
    assert!(!Gpio::<16>::is_present());
    assert!(Gpio::<20>::is_present());
    assert!(Gpio::<23>::is_present());
    assert!(!Gpio::<24>::is_present());
    assert!(!Gpio::<31>::is_present());
    assert!(Gpio::<32>::is_present());
    assert!(Gpio::<34>::is_present());
    assert!(!Gpio::<35>::is_present());
    assert!(Gpio::<40>::is_present());
    assert!(!Gpio::<41>::is_present());
}
