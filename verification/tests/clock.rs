use std::cell::Cell;
use tc37x_hal::regs::Op;
use tc37x_hal::regs::Reg;
use tc37x_hal::scu::ccu::configure_ccu_initial_step;
use tc37x_hal::scu::ccu::default_clock_config;
use tc37x_hal::scu::ccu::default_clock_distribution;
use tc37x_hal::scu::ccu::distribute_clock_inline;
use tc37x_hal::scu::ccu::modulation_init;
use tc37x_hal::scu::ccu::throttle_sys_pll_clock_inline;
use tc37x_hal::scu::ccu::ModulationConfig;
use tc37x_hal::scu::ccu::ModulationEn;
use tc37x_hal::scu::ccu::PllStepConfig;
use tc37x_hal::scu::clock_ops::ClockAction;
use tc37x_hal::scu::clock_ops::ClockCondition;
use tc37x_hal::scu::clock_ops::ClockOp;
use tc37x_hal::scu::clock_ops::ClockProgram;
use tc37x_hal::scu::clock_ops::ClockReg;
use tc37x_hal::scu::clock_ops::ClockSequencer;
use tc37x_hal::scu::ccu::default_pll_config_steps;
use tc37x_hal::scu::ccu::wait_step;
use tc37x_hal::scu::ccu::WaitStep;
use tc37x_hal::scu::wdt::endinit_is_set;
use tc37x_hal::scu::wdt::is_locked;
use tc37x_hal::scu::wdt::next_password;
use tc37x_hal::scu::wdt::sequence;
use tc37x_hal::sequencer::Action;
use tc37x_hal::sequencer::Sequencer;
use tc37x_hal::scu::ccu::default_plls_parameters;
use tc37x_hal::scu::ccu::distribute;
use tc37x_hal::scu::ccu::get_evr_frequency;
use tc37x_hal::scu::ccu::get_mcan_frequency;
use tc37x_hal::scu::ccu::get_osc0_frequency;
use tc37x_hal::scu::ccu::get_osc_frequency;
use tc37x_hal::scu::ccu::get_source_frequency;
use tc37x_hal::scu::ccu::init;
use tc37x_hal::scu::ccu::modulation_configuration;
use tc37x_hal::scu::ccu::oscillator_value;
use tc37x_hal::scu::ccu::wait_cond;
use tc37x_hal::scu::ccu::ConRegConfig;
use tc37x_hal::scu::ccu::InitError;
use tc37x_hal::scu::ccu::ModulationAmplitude;
use tc37x_hal::scu::ccu::PllInputClockSelection;
use tc37x_hal::scu::wdt_call::call_without_cpu_endinit;
use tc37x_hal::scu::wdt_call::call_without_endinit;
use tc37x_hal::scu::wdt_call::call_without_safety_endinit;
use tc37x_hal::ssw::tc0::init_software;
use tc37x_hal::ssw::tc0::is_application_reset;
use tc37x_hal::ssw::tc0::ResetStatus;

fn status(raw: u32) -> ResetStatus {
    ResetStatus {
        stbyr: false,
        swd: false,
        evr33: false,
        evrc: false,
        cb1: false,
        cb0: false,
        porst: false,
        cb3: false,
        raw,
    }
}

#[test]
fn wait_cond_gives_up_after_its_count() {
    let calls = Cell::new(0u32);
    let busy = || {
        calls.set(calls.get() + 1);
        true
    };
    assert_eq!(wait_cond(5, busy), Err(()));
    assert_eq!(calls.get(), 5);

    let calls = Cell::new(0u32);
    let ready_at_third = || {
        calls.set(calls.get() + 1);
        calls.get() < 3
    };
    assert_eq!(wait_cond(5, ready_at_third), Ok(()));
    assert_eq!(calls.get(), 3);

    let calls = Cell::new(0u32);
    let ready_at_fifth = || {
        calls.set(calls.get() + 1);
        calls.get() < 5
    };
    // The fourth yes uses up a count of 4, though the fifth call would say no.
    assert_eq!(wait_cond(4, ready_at_fifth), Err(()));
    assert_eq!(wait_cond(1, || false), Ok(()));
    assert_eq!(wait_cond(1, || true), Err(()));
}

#[test]
fn init_names_the_first_step_that_failed() {
    let ok = || Ok::<(), ()>(());
    let fail = || Err::<(), ()>(());
    assert_eq!(init(ok, ok, ok, ok), Ok(()));
    assert_eq!(init(fail, ok, ok, ok).err(), Some(InitError::ConfigureCCUInitialStep));
    assert_eq!(init(ok, fail, ok, ok).err(), Some(InitError::ModulationInit));
    assert_eq!(init(ok, ok, fail, ok).err(), Some(InitError::DistributeClockInline));
    assert_eq!(init(ok, ok, ok, fail).err(), Some(InitError::ThrottleSysPllClockInline));
    assert_eq!(init(ok, fail, fail, fail).err(), Some(InitError::ModulationInit));
    // A step behind one that failed is not run.
    let ran = Cell::new(false);
    let mark = || {
        ran.set(true);
        Ok::<(), ()>(())
    };
    assert!(init(fail, mark, ok, ok).is_err());
    assert!(!ran.get());
}

#[test]
fn clock_register_values() {
    let config = ConRegConfig { value: 0x1234_5678, mask: 0x0000_ffff };
    assert_eq!(distribute(0xabcd_ef01, &config), 0xabcd_5678);
    assert_eq!(distribute(0xffff_ffff, &ConRegConfig { value: 0, mask: 0x3f }), 0xffff_ffc0);
    assert_eq!(distribute(0x5, &ConRegConfig { value: 0xffff_ffff, mask: 0 }), 0x5);
    let d = default_clock_distribution();
    assert_eq!(d.ccucon0.value & !d.ccucon0.mask, 0);
    assert_eq!(distribute(0, &d.ccucon1), 0x2111_0212);
    assert_eq!(d.ccucon2.value, (1 << 0) | (2 << 8) | (1 << 12));
    assert_eq!(d.ccucon5.value, 0x32);
    let p = default_plls_parameters();
    assert_eq!(p.sys_pll.n_divider, 29);
    assert_eq!(p.per_pll.n_divider, 31);
    assert_eq!(oscillator_value(p.xtal_frequency), Ok(5));
    assert_eq!(oscillator_value(15_000_000), Ok(0));
    assert_eq!(oscillator_value(14_999_999), Err(()));
    assert_eq!(oscillator_value(0), Err(()));
    assert_eq!(oscillator_value(270_999_999), Ok(255));
    assert_eq!(oscillator_value(271_000_000), Err(()));
    assert_eq!(modulation_configuration(0x35), 0x0c35);
    assert_eq!(PllInputClockSelection::F0sc1.to_register_value(), 0);
    assert_eq!(PllInputClockSelection::FSynclk.to_register_value(), 2);
    assert!(!PllInputClockSelection::F0sc1.needs_oscillator());
    assert!(PllInputClockSelection::F0sc0.needs_oscillator());
    assert_eq!(ModulationAmplitude::_1p25.in_hundredths(), 125);
}

#[test]
fn frequencies_by_the_selections() {
    assert_eq!(get_evr_frequency(), 100_000_000);
    assert_eq!(get_osc0_frequency(), 20_000_000);
    assert_eq!(get_osc_frequency(0), 100_000_000);
    assert_eq!(get_osc_frequency(1), 20_000_000);
    assert_eq!(get_osc_frequency(2), 20_000_000);
    assert_eq!(get_osc_frequency(3), 0);
    assert_eq!(get_source_frequency(0, 1, 1, 2, 3, false), 100_000_000);
    assert_eq!(get_source_frequency(1, 0, 300, 160, 200, false), 300);
    assert_eq!(get_source_frequency(1, 1, 300, 160, 200, false), 80);
    assert_eq!(get_source_frequency(1, 1, 300, 160, 200, true), 160);
    assert_eq!(get_source_frequency(1, 2, 300, 160, 200, true), 200);
    assert_eq!(get_source_frequency(2, 0, 300, 160, 200, true), 0);
    assert_eq!(get_mcan_frequency(1, 0, 80_000_000), 80_000_000);
    assert_eq!(get_mcan_frequency(1, 2, 160_000_000), 80_000_000);
    assert_eq!(get_mcan_frequency(1, 3, 80_000_000), 26_666_666);
    assert_eq!(get_mcan_frequency(2, 2, 160_000_000), 20_000_000);
    assert_eq!(get_mcan_frequency(0, 2, 160_000_000), 0);
    assert_eq!(get_mcan_frequency(3, 2, 160_000_000), 0);
}

#[test]
fn programs_run_with_protection_lifted() {
    let write = Op::Write { reg: Reg::Clc, value: 0 };
    let delay = Op::Delay { cycles: 3 };
    assert_eq!(
        call_without_cpu_endinit(|| vec![write, delay]),
        vec![Op::CpuEndinit { locked: false }, write, delay, Op::CpuEndinit { locked: true }]
    );
    assert_eq!(
        call_without_safety_endinit(|| vec![write]),
        vec![Op::SafetyEndinit { locked: false }, write, Op::SafetyEndinit { locked: true }]
    );
    assert_eq!(
        call_without_endinit(|| vec![write]),
        vec![
            Op::CpuEndinit { locked: false },
            Op::SafetyEndinit { locked: false },
            write,
            Op::SafetyEndinit { locked: true },
            Op::CpuEndinit { locked: true },
        ]
    );
    assert_eq!(
        call_without_cpu_endinit(Vec::new),
        vec![Op::CpuEndinit { locked: false }, Op::CpuEndinit { locked: true }]
    );
}

#[test]
fn reset_of_power_or_device_is_no_application_reset() {
    let mut s = status(0x10);
    assert!(is_application_reset(&s, 2 << 8, 0));
    s.porst = true;
    assert!(!is_application_reset(&s, 2 << 8, 6));
    let mut s = status(0);
    s.cb3 = true;
    assert!(is_application_reset(&s, 0, 0));
    for flag in 0..7 {
        let mut s = status(0);
        s.cb3 = true;
        match flag {
            0 => s.stbyr = true,
            1 => s.swd = true,
            2 => s.evr33 = true,
            3 => s.evrc = true,
            4 => s.cb1 = true,
            5 => s.cb0 = true,
            _ => s.porst = true,
        }
        assert!(!is_application_reset(&s, 0xffff_ffff, 6));
    }
}

#[test]
fn highest_request_decides_by_its_configuration() {
    // Request 4 alone, configured as application reset (2) in bits 9..8.
    assert!(is_application_reset(&status(0x10), 2 << 8, 0));
    assert!(!is_application_reset(&status(0x10), 1 << 8, 0));
    assert!(!is_application_reset(&status(0x10), 3 << 8, 0));
    // Requests 0 and 7: request 7 decides, in bits 15..14.
    assert!(is_application_reset(&status(0x81), 0x8001, 0));
    assert!(!is_application_reset(&status(0x81), 0x0002, 0));
    // Bit 2 is no request; bits above 7 are not looked at.
    assert!(!is_application_reset(&status(0x04), 0xffff_ffff, 0));
    assert!(is_application_reset(&status(0x04), 0, 2));
    assert!(is_application_reset(&status(0xff00), 0, 4));
    assert!(!is_application_reset(&status(0xff00), 0xaaaa_aaaa, 1));
    assert!(is_application_reset(&status(0xff02), 0x8, 0));
    // With a request, Cerberus and the CPU's register say nothing.
    let mut s = status(0x01);
    s.cb3 = true;
    assert!(!is_application_reset(&s, 0, 6));
    assert!(init_software(false));
    assert!(!init_software(true));
}

fn lock(reg: ClockReg) -> ClockOp {
    ClockOp::WaitWhile { condition: ClockCondition::Locked { reg }, tries: 0x1000 }
}

fn writes(op: &ClockOp) -> bool {
    !matches!(op, ClockOp::SafetyEndinit { .. } | ClockOp::WaitWhile { .. } | ClockOp::Unless { .. })
}

fn locked_register(op: &ClockOp) -> Option<ClockReg> {
    match op {
        ClockOp::SelectClock { .. } => Some(ClockReg::Ccucon0),
        ClockOp::Distribute { reg, .. } => match reg {
            ClockReg::Ccucon6 | ClockReg::Ccucon7 | ClockReg::Ccucon8 => None,
            reg => Some(*reg),
        },
        _ => None,
    }
}

/// Writes lie under lifted protection, which is restored at the end, and
/// writes to registers with a lock bit lie between two waits for it.
fn in_order(program: &[ClockOp]) -> bool {
    let mut locked = true;
    for (i, op) in program.iter().enumerate() {
        match op {
            ClockOp::SafetyEndinit { locked: next } => {
                if *next == locked {
                    return false;
                }
                locked = *next;
            }
            op => {
                if writes(op) && locked {
                    return false;
                }
            }
        }
        if let Some(reg) = locked_register(op) {
            if i == 0 || i + 1 >= program.len() || program[i - 1] != lock(reg) || program[i + 1] != lock(reg) {
                return false;
            }
        }
    }
    locked
}

#[test]
fn initial_step_of_the_default_configuration() {
    let config = default_clock_config();
    let p = config.pll_initial_step.plls_parameters;
    let program = configure_ccu_initial_step(&p).unwrap();
    assert_eq!(program.len(), 31);
    assert!(in_order(&program));
    assert_eq!(
        program[..4],
        [
            ClockOp::SafetyEndinit { locked: false },
            lock(ClockReg::Ccucon0),
            ClockOp::SelectClock { clksel: 0 },
            lock(ClockReg::Ccucon0),
        ]
    );
    assert_eq!(
        program[9..16],
        [
            ClockOp::PllPower { sys: false, per: false },
            ClockOp::WaitWhile {
                condition: ClockCondition::PowerStatus { sys: false, per: false },
                tries: 0x3000
            },
            ClockOp::Oscillator { mode: 0, oscval: 5 },
            ClockOp::SysPll { p_divider: 0, n_divider: 29, insel: 1 },
            ClockOp::PerPll { divby: 0, p_divider: 0, n_divider: 31 },
            ClockOp::PllPower { sys: true, per: true },
            ClockOp::WaitWhile {
                condition: ClockCondition::PowerStatus { sys: true, per: true },
                tries: 0x3000
            },
        ]
    );
    assert_eq!(program[17], ClockOp::SysK2 { k2_divider: 5 });
    assert_eq!(program[18], ClockOp::PerK { k2_divider: 1, k3_divider: 1 });
    assert_eq!(
        program[20],
        ClockOp::WaitWhile { condition: ClockCondition::OscillatorFlagsClear, tries: 0x493e0 }
    );
    assert_eq!(
        program[27..],
        [
            lock(ClockReg::Ccucon0),
            ClockOp::SelectClock { clksel: 1 },
            lock(ClockReg::Ccucon0),
            ClockOp::SafetyEndinit { locked: true },
        ]
    );
    assert_eq!(config.sys_pll_throttle.len(), 3);
    assert_eq!(config.pll_initial_step.wait_time_us, 200);
    assert_eq!(config.flash_wait_state.value, 0x105);
}

#[test]
fn initial_step_without_oscillator_or_with_one_out_of_range() {
    let mut p = default_clock_config().pll_initial_step.plls_parameters;
    p.xtal_frequency = 300_000_000;
    assert_eq!(configure_ccu_initial_step(&p), Err(()));
    p.xtal_frequency = 10_000_000;
    assert_eq!(configure_ccu_initial_step(&p), Err(()));
    p.pll_input_clock_selection = PllInputClockSelection::F0sc1;
    let program = configure_ccu_initial_step(&p).unwrap();
    assert_eq!(program.len(), 30);
    assert!(program.iter().all(|op| !matches!(op, ClockOp::Oscillator { .. })));
    assert_eq!(program[11], ClockOp::SysPll { p_divider: 0, n_divider: 29, insel: 0 });
    assert!(in_order(&program));
    p.pll_input_clock_selection = PllInputClockSelection::FSynclk;
    p.xtal_frequency = 40_000_000;
    let program = configure_ccu_initial_step(&p).unwrap();
    assert_eq!(program[11], ClockOp::Oscillator { mode: 0, oscval: 25 });
    assert_eq!(program[12], ClockOp::SysPll { p_divider: 0, n_divider: 29, insel: 2 });
}

#[test]
fn modulation_program_only_where_enabled() {
    let off = ModulationConfig { enable: ModulationEn::Disabled, amp: ModulationAmplitude::_2p5 };
    assert_eq!(modulation_init(&off, 0x35), Vec::new());
    let on = ModulationConfig { enable: ModulationEn::Enabled, amp: ModulationAmplitude::_2p5 };
    let program = modulation_init(&on, 0x35);
    assert_eq!(
        program,
        vec![
            ClockOp::SafetyEndinit { locked: false },
            ClockOp::Modulation { modcfg: 0x0c35 },
            ClockOp::ModulationEnable,
            ClockOp::SafetyEndinit { locked: true },
        ]
    );
    assert!(in_order(&program));
}

#[test]
fn clocks_are_distributed_between_lock_waits() {
    let d = default_clock_distribution();
    let program = distribute_clock_inline(&d);
    assert_eq!(program.len(), 25);
    assert!(in_order(&program));
    let change = |reg, config, stopped, update| ClockOp::Distribute { reg, config, stopped, update };
    assert_eq!(
        program[..4],
        [
            ClockOp::SafetyEndinit { locked: false },
            lock(ClockReg::Ccucon0),
            change(ClockReg::Ccucon0, d.ccucon0, false, false),
            lock(ClockReg::Ccucon0),
        ]
    );
    assert_eq!(
        program[4..11],
        [
            ClockOp::Unless { condition: ClockCondition::PeripheralClocksRun, skip: 3 },
            lock(ClockReg::Ccucon1),
            change(ClockReg::Ccucon1, d.ccucon1, true, false),
            lock(ClockReg::Ccucon1),
            lock(ClockReg::Ccucon1),
            change(ClockReg::Ccucon1, d.ccucon1, false, false),
            lock(ClockReg::Ccucon1),
        ]
    );
    assert_eq!(program[11], ClockOp::Unless { condition: ClockCondition::AsclinClockRuns, skip: 3 });
    assert_eq!(program[13], change(ClockReg::Ccucon2, d.ccucon2, true, false));
    assert_eq!(program[16], change(ClockReg::Ccucon2, d.ccucon2, false, false));
    assert_eq!(program[19], change(ClockReg::Ccucon5, d.ccucon5, false, true));
    assert_eq!(
        program[20..],
        [
            lock(ClockReg::Ccucon5),
            change(ClockReg::Ccucon6, d.ccucon6, false, false),
            change(ClockReg::Ccucon7, d.ccucon7, false, false),
            change(ClockReg::Ccucon8, d.ccucon8, false, false),
            ClockOp::SafetyEndinit { locked: true },
        ]
    );
}

#[test]
fn throttling_takes_one_protected_step_per_divider() {
    assert_eq!(throttle_sys_pll_clock_inline(&Vec::new()), Vec::new());
    let steps = default_clock_config().sys_pll_throttle;
    let program = throttle_sys_pll_clock_inline(&steps);
    assert_eq!(program.len(), 12);
    assert!(in_order(&program));
    for (i, k2) in [3u8, 2, 1].iter().enumerate() {
        assert_eq!(
            program[4 * i..4 * i + 4],
            [
                ClockOp::SafetyEndinit { locked: false },
                ClockOp::WaitWhile { condition: ClockCondition::SysK2NotReady, tries: 0x6000 },
                ClockOp::SysK2 { k2_divider: *k2 },
                ClockOp::SafetyEndinit { locked: true },
            ]
        );
    }
    let one = throttle_sys_pll_clock_inline(&vec![PllStepConfig { k2_step: 7, wait_time_us: 1 }]);
    assert_eq!(one[2], ClockOp::SysK2 { k2_divider: 7 });
}

/// Carries `program` out with `answers` to its questions, one after the
/// other and `last` for ever after; gives what was asked for.
fn carried_out(program: Vec<ClockOp>, answers: &[bool], last: bool) -> Vec<ClockAction> {
    let mut sequencer = ClockSequencer::new(program);
    let mut asked = Vec::new();
    let mut answers = answers.iter();
    let mut answer = false;
    for _ in 0..1_000_000 {
        let action = sequencer.step(answer);
        asked.push(action);
        match action {
            ClockAction::Check { .. } => answer = *answers.next().unwrap_or(&last),
            ClockAction::Perform { .. } => {}
            ClockAction::Finished => {
                assert!(sequencer.is_done());
                assert!(!sequencer.has_failed());
                return asked;
            }
            ClockAction::Failed => {
                assert!(sequencer.is_done());
                assert!(sequencer.has_failed());
                return asked;
            }
        }
    }
    panic!("the program does not end");
}

/// Whether the protection is lifted after `asked`.
fn left_lifted(asked: &[ClockAction]) -> bool {
    let mut lifted = false;
    for action in asked {
        if let ClockAction::Perform { op: ClockOp::SafetyEndinit { locked } } = action {
            lifted = !locked;
        }
    }
    lifted
}

#[test]
fn unless_passes_over_its_operations() {
    let condition = ClockCondition::PeripheralClocksRun;
    let k2 = |k2_divider: u8| ClockOp::SysK2 { k2_divider };
    let program = vec![ClockOp::Unless { condition, skip: 2 }, k2(1), k2(2), k2(3)];
    assert_eq!(
        carried_out(program.clone(), &[true], false),
        vec![
            ClockAction::Check { condition },
            ClockAction::Perform { op: k2(1) },
            ClockAction::Perform { op: k2(2) },
            ClockAction::Perform { op: k2(3) },
            ClockAction::Finished,
        ]
    );
    assert_eq!(
        carried_out(program, &[false], true),
        vec![
            ClockAction::Check { condition },
            ClockAction::Perform { op: k2(3) },
            ClockAction::Finished
        ]
    );
    // One that passes over more than there is ends the program.
    let far = vec![ClockOp::Unless { condition, skip: usize::MAX }, k2(1)];
    assert_eq!(
        carried_out(far, &[false], true),
        vec![ClockAction::Check { condition }, ClockAction::Finished]
    );
    let all = vec![ClockOp::Unless { condition, skip: 1 }, k2(1)];
    assert_eq!(
        carried_out(all, &[false], true),
        vec![ClockAction::Check { condition }, ClockAction::Finished]
    );
}

#[test]
fn wait_step_counts_the_tries() {
    assert_eq!(wait_step(5, false), WaitStep::Done);
    assert_eq!(wait_step(1, false), WaitStep::Done);
    assert_eq!(wait_step(0, false), WaitStep::Done);
    assert_eq!(wait_step(5, true), WaitStep::Again { tries_left: 4 });
    assert_eq!(wait_step(2, true), WaitStep::Again { tries_left: 1 });
    assert_eq!(wait_step(1, true), WaitStep::GiveUp);
    assert_eq!(wait_step(0, true), WaitStep::GiveUp);
    assert_eq!(wait_step(usize::MAX, true), WaitStep::Again { tries_left: usize::MAX - 1 });
    // A wait without tries is over at once where the condition never holds.
    assert_eq!(wait_cond(0, || false), Ok(()));
}

#[test]
fn clock_sequencer_waits_and_goes_on() {
    let condition = ClockCondition::SysK2NotReady;
    let program = vec![
        ClockOp::SafetyEndinit { locked: false },
        ClockOp::WaitWhile { condition, tries: 3 },
        ClockOp::SysK2 { k2_divider: 2 },
        ClockOp::SafetyEndinit { locked: true },
    ];
    let asked = carried_out(program.clone(), &[true, true, false], true);
    assert_eq!(
        asked,
        vec![
            ClockAction::Perform { op: program[0] },
            ClockAction::Check { condition },
            ClockAction::Check { condition },
            ClockAction::Check { condition },
            ClockAction::Perform { op: program[2] },
            ClockAction::Perform { op: program[3] },
            ClockAction::Finished,
        ]
    );
    assert!(!left_lifted(&asked));
    // Once at its end, it stays there.
    let mut sequencer = ClockSequencer::new(Vec::new());
    assert!(sequencer.is_done());
    assert_eq!(sequencer.step(true), ClockAction::Finished);
    assert_eq!(sequencer.step(false), ClockAction::Finished);
}

#[test]
fn failed_wait_restores_the_protection_before_the_end() {
    let condition = ClockCondition::SysK2NotReady;
    let program = vec![
        ClockOp::SafetyEndinit { locked: false },
        ClockOp::WaitWhile { condition, tries: 3 },
        ClockOp::SysK2 { k2_divider: 2 },
        ClockOp::SafetyEndinit { locked: true },
    ];
    let asked = carried_out(program.clone(), &[], true);
    assert_eq!(
        asked,
        vec![
            ClockAction::Perform { op: program[0] },
            ClockAction::Check { condition },
            ClockAction::Check { condition },
            ClockAction::Check { condition },
            ClockAction::Perform { op: ClockOp::SafetyEndinit { locked: true } },
            ClockAction::Failed,
        ]
    );
    // Under protection there is nothing to restore.
    let bare = vec![ClockOp::WaitWhile { condition, tries: 1 }, ClockOp::RestartLock];
    assert_eq!(
        carried_out(bare, &[], true),
        vec![ClockAction::Check { condition }, ClockAction::Failed]
    );
}

#[test]
fn clock_programs_end_under_protection_whatever_is_answered() {
    let config = default_clock_config();
    let programs = vec![
        configure_ccu_initial_step(&config.pll_initial_step.plls_parameters).unwrap(),
        distribute_clock_inline(&config.clock_distribution),
        throttle_sys_pll_clock_inline(&config.sys_pll_throttle),
        modulation_init(
            &ModulationConfig { enable: ModulationEn::Enabled, amp: ModulationAmplitude::_1p5 },
            0x35,
        ),
    ];
    for program in programs {
        assert!(!program.is_empty());
        let fine = carried_out(program.clone(), &[], false);
        assert_eq!(fine.last(), Some(&ClockAction::Finished));
        assert!(!left_lifted(&fine));
        let stuck = carried_out(program.clone(), &[], true);
        assert!(!left_lifted(&stuck));
        for yes in 1..4usize {
            let answers: Vec<bool> = (0..yes).map(|_| true).collect();
            let late = carried_out(program.clone(), &answers, false);
            assert!(!left_lifted(&late));
        }
    }
}

#[test]
fn default_clock_configuration_is_made_of_the_defaults() {
    let config = default_clock_config();
    let plls = default_plls_parameters();
    let got = config.pll_initial_step.plls_parameters;
    assert_eq!(got.xtal_frequency, plls.xtal_frequency);
    assert_eq!(got.pll_input_clock_selection, plls.pll_input_clock_selection);
    assert_eq!(got.sys_pll.p_divider, plls.sys_pll.p_divider);
    assert_eq!(got.sys_pll.n_divider, plls.sys_pll.n_divider);
    assert_eq!(got.sys_pll.k2_divider, plls.sys_pll.k2_divider);
    assert_eq!(got.per_pll.p_divider, plls.per_pll.p_divider);
    assert_eq!(got.per_pll.n_divider, plls.per_pll.n_divider);
    assert_eq!(got.per_pll.k2_divider, plls.per_pll.k2_divider);
    assert_eq!(got.per_pll.k3_divider, plls.per_pll.k3_divider);
    assert_eq!(got.per_pll.k3_divider_bypass, plls.per_pll.k3_divider_bypass);
    let steps = default_pll_config_steps();
    assert_eq!(config.sys_pll_throttle.len(), steps.len());
    for (a, b) in config.sys_pll_throttle.iter().zip(steps.iter()) {
        assert_eq!((a.k2_step, a.wait_time_us), (b.k2_step, b.wait_time_us));
    }
    let d = default_clock_distribution();
    let c = config.clock_distribution;
    assert_eq!(c.ccucon0, d.ccucon0);
    assert_eq!(c.ccucon1, d.ccucon1);
    assert_eq!(c.ccucon2, d.ccucon2);
    assert_eq!(c.ccucon5, d.ccucon5);
    assert_eq!(c.ccucon6, d.ccucon6);
    assert_eq!(c.ccucon7, d.ccucon7);
    assert_eq!(c.ccucon8, d.ccucon8);
}

#[test]
fn source_frequency_of_an_unknown_selection_is_nothing() {
    // Only where the PLLs are the source is one of them picked.
    assert_eq!(get_source_frequency(0, 3, 300, 160, 200, false), 100_000_000);
    assert_eq!(get_source_frequency(0, 255, 300, 160, 200, true), 100_000_000);
    assert_eq!(get_source_frequency(2, 7, 300, 160, 200, false), 0);
    assert_eq!(get_source_frequency(3, 200, 300, 160, 200, false), 0);
}

#[test]
fn watchdog_password_sequence() {
    // The password 3 is held; the next has its lowest six bits inverted.
    assert_eq!(next_password(0xfffc_000e), 0x3c);
    assert_eq!(next_password(0), 0x3f);
    assert_eq!(next_password(0xffff_ffff), 0x3fc0);
    assert_eq!(sequence(0xfffc_000e, false), (0xfffc_00f1, 0xfffc_00f2));
    assert_eq!(sequence(0xfffc_000e, true), (0xfffc_00f1, 0xfffc_00f3));
    assert_eq!(sequence(0, true), (0xfd, 0xff));
    assert_eq!(sequence(0x1234_ffff, false), (0x1234_ff01, 0x1234_ff02));
    assert!(is_locked(0b10));
    assert!(!is_locked(0b01));
    assert!(endinit_is_set(0b01));
    assert!(!endinit_is_set(0xffff_fffe));
}

/// Carries `program` out on registers that read as `reads`; gives what was
/// asked for.
fn run_of(program: Vec<Op>, reads: u32) -> Vec<Action> {
    let mut sequencer = Sequencer::new(program);
    let mut asked = Vec::new();
    for _ in 0..10_000 {
        let action = sequencer.step(reads);
        asked.push(action);
        if action == Action::Finished || action == Action::Failed {
            assert!(sequencer.is_done());
            return asked;
        }
    }
    panic!("the program does not end");
}

#[test]
fn bracket_restores_the_protection_where_the_program_fails() {
    let expect = Op::Expect { reg: Reg::Mcr, mask: 1, expect: 1 };
    let write = Op::Write { reg: Reg::Clc, value: 7 };
    let inner = vec![expect, Op::StopIfFailed, write];
    let cpu = call_without_cpu_endinit(|| inner.clone());
    assert_eq!(
        run_of(cpu.clone(), 0),
        vec![
            Action::CpuEndinit { locked: false },
            Action::Read { reg: Reg::Mcr },
            Action::CpuEndinit { locked: true },
            Action::Failed,
        ]
    );
    assert_eq!(
        run_of(cpu, 1),
        vec![
            Action::CpuEndinit { locked: false },
            Action::Read { reg: Reg::Mcr },
            Action::Write { reg: Reg::Clc, value: 7 },
            Action::CpuEndinit { locked: true },
            Action::Finished,
        ]
    );
    let safety = call_without_safety_endinit(|| inner.clone());
    assert_eq!(
        run_of(safety, 0),
        vec![
            Action::SafetyEndinit { locked: false },
            Action::Read { reg: Reg::Mcr },
            Action::SafetyEndinit { locked: true },
            Action::Failed,
        ]
    );
    // Both are restored in the order in which the bracket would restore them.
    let both = call_without_endinit(|| inner.clone());
    assert_eq!(
        run_of(both, 0),
        vec![
            Action::CpuEndinit { locked: false },
            Action::SafetyEndinit { locked: false },
            Action::Read { reg: Reg::Mcr },
            Action::SafetyEndinit { locked: true },
            Action::CpuEndinit { locked: true },
            Action::Failed,
        ]
    );
    // Under protection a failed program just ends.
    assert_eq!(run_of(inner, 0), vec![Action::Read { reg: Reg::Mcr }, Action::Failed]);
}

#[test]
fn clock_program_is_built_under_its_rules() {
    let mut program = ClockProgram::new();
    program.safety_endinit(false);
    program.push(lock(ClockReg::Ccucon5));
    program.push(ClockOp::SelectClock { clksel: 1 });
    program.push(lock(ClockReg::Ccucon0));
    program.safety_endinit(true);
    assert_eq!(program.into_ops().len(), 5);
}
