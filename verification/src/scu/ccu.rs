//! The clock control unit: what it is configured with, and what its
//! registers say of the frequencies.

use vstd::prelude::*;
use crate::scu::clock_ops::closes_protection;
use crate::scu::clock_ops::guard_through;
use crate::scu::clock_ops::has_no_unless;
use crate::scu::clock_ops::lemma_no_unless_both;
use crate::scu::clock_ops::lemma_no_unless_no_skips;
use crate::scu::clock_ops::skips_in_order;
use crate::scu::clock_ops::writes_wait_for_lock;
use crate::scu::clock_ops::ClockCondition;
use crate::scu::clock_ops::ClockOp;
use crate::scu::clock_ops::ClockProgram;
use crate::scu::clock_ops::ClockReg;

verus! {

/// The frequency of the back-up clock, in Hz.
pub const EVR_OSC_FREQUENCY: u32 = 100_000_000;

/// The frequency of the crystal, in Hz.
pub const XTAL_FREQUENCY: u32 = 20_000_000;

/// The frequency of the system clock input, in Hz.
pub const SYSCLK_FREQUENCY: u32 = 20_000_000;

/// How often the lock bit of a clock control register is read before the
/// wait for it is given up.
pub const CCUCON_LCK_BIT_TIMEOUT_COUNT: usize = 0x1000;

/// How often the status of the PLLs is read for their power before the
/// wait is given up.
pub const SYSPLLSTAT_PWDSTAT_TIMEOUT_COUNT: usize = 0x3000;

/// How often the oscillator is read for its range before the wait is given up.
pub const OSCCON_PLLLV_OR_HV_TIMEOUT_COUNT: usize = 0x493e0;

/// How often the status of the PLLs is read for their lock before the wait
/// is given up.
pub const PLL_LOCK_TIMEOUT_COUNT: usize = 0x3000;

/// How often the status of the PLLs is read for their dividers before the
/// wait is given up.
pub const PLL_KRDY_TIMEOUT_COUNT: usize = 0x6000;

/// The step at which the set-up of the clocks failed.
#[derive(Clone, Copy, Debug, PartialEq, Eq, Structural)]
pub enum InitError {
    ConfigureCCUInitialStep,
    ModulationInit,
    DistributeClockInline,
    ThrottleSysPllClockInline,
}

/// The dividers of the system PLL, each one less than it divides by.
#[derive(Clone, Copy, Debug)]
pub struct SysPllConfig {
    pub p_divider: u8,
    pub n_divider: u8,
    pub k2_divider: u8,
}

/// The dividers of the peripheral PLL, each one less than it divides by.
#[derive(Clone, Copy, Debug)]
pub struct PerPllConfig {
    pub p_divider: u8,
    pub n_divider: u8,
    pub k2_divider: u8,
    pub k3_divider: u8,
    pub k3_divider_bypass: u8,
}

/// The input clock of the PLLs.
#[derive(Clone, Copy, Debug, PartialEq, Eq, Structural)]
pub enum PllInputClockSelection {
    F0sc1,
    F0sc0,
    FSynclk,
}

impl PllInputClockSelection {
    /// What the input selection field holds for this clock.
    pub open spec fn value(self) -> u8 {
        match self {
            PllInputClockSelection::F0sc1 => 0,
            PllInputClockSelection::F0sc0 => 1,
            PllInputClockSelection::FSynclk => 2,
        }
    }

    /// What the input selection field holds for this clock.
    pub fn to_register_value(self) -> (value: u8)
        ensures
            value == self.value(),
    {
        match self {
            PllInputClockSelection::F0sc1 => 0,
            PllInputClockSelection::F0sc0 => 1,
            PllInputClockSelection::FSynclk => 2,
        }
    }

    /// Whether the oscillator is to be configured for this clock: for all
    /// but the first.
    pub fn needs_oscillator(self) -> (needed: bool)
        ensures
            needed == (self != PllInputClockSelection::F0sc1),
    {
        match self {
            PllInputClockSelection::F0sc1 => false,
            _ => true,
        }
    }
}

/// The parameters of both PLLs.
#[derive(Clone, Copy, Debug)]
pub struct PllsParameterConfig {
    pub xtal_frequency: u32,
    pub pll_input_clock_selection: PllInputClockSelection,
    pub sys_pll: SysPllConfig,
    pub per_pll: PerPllConfig,
}

/// The bits of a clock control register to change, and what to change them to.
#[derive(Clone, Copy, Debug, PartialEq, Eq, Structural)]
pub struct ConRegConfig {
    pub value: u32,
    pub mask: u32,
}

/// What the clock control registers are to hold.
#[derive(Clone, Copy, Debug)]
pub struct ClockDistributionConfig {
    pub ccucon0: ConRegConfig,
    pub ccucon1: ConRegConfig,
    pub ccucon2: ConRegConfig,
    pub ccucon5: ConRegConfig,
    pub ccucon6: ConRegConfig,
    pub ccucon7: ConRegConfig,
    pub ccucon8: ConRegConfig,
}

/// The wait states of the flash.
#[derive(Clone, Copy, Debug)]
pub struct FlashWaitStateConfig {
    pub value: u32,
    pub mask: u32,
}

/// Whether the frequency of the system PLL is modulated.
#[derive(Clone, Copy, Debug, PartialEq, Eq, Structural)]
pub enum ModulationEn {
    Disabled,
    Enabled,
}

/// By how many percent the frequency is modulated.
#[derive(Clone, Copy, Debug, PartialEq, Eq, Structural)]
pub enum ModulationAmplitude {
    _0p5,
    _1p0,
    _1p25,
    _1p5,
    _2p0,
    _2p5,
}

impl ModulationAmplitude {
    /// The amplitude in hundredths of a percent.
    pub open spec fn hundredths(self) -> int {
        match self {
            ModulationAmplitude::_0p5 => 50,
            ModulationAmplitude::_1p0 => 100,
            ModulationAmplitude::_1p25 => 125,
            ModulationAmplitude::_1p5 => 150,
            ModulationAmplitude::_2p0 => 200,
            ModulationAmplitude::_2p5 => 250,
        }
    }

    /// The amplitude in hundredths of a percent.
    pub fn in_hundredths(self) -> (amplitude: u32)
        ensures
            amplitude == self.hundredths(),
    {
        match self {
            ModulationAmplitude::_0p5 => 50,
            ModulationAmplitude::_1p0 => 100,
            ModulationAmplitude::_1p25 => 125,
            ModulationAmplitude::_1p5 => 150,
            ModulationAmplitude::_2p0 => 200,
            ModulationAmplitude::_2p5 => 250,
        }
    }
}

/// The modulation of the system PLL.
#[derive(Clone, Copy, Debug)]
pub struct ModulationConfig {
    pub enable: ModulationEn,
    pub amp: ModulationAmplitude,
}

/// The clock control registers as the default configuration wants them.
pub open spec fn default_distribution() -> ClockDistributionConfig {
    ClockDistributionConfig {
        ccucon0: ConRegConfig { value: 0x0723_0113, mask: 0x0fff_0fff },
        ccucon1: ConRegConfig { value: 0x2111_0212, mask: 0x3f3f_0fbf },
        ccucon2: ConRegConfig { value: 0x0000_1201, mask: 0x0000_3f0f },
        ccucon5: ConRegConfig { value: 0x0000_0032, mask: 0x0000_00ff },
        ccucon6: ConRegConfig { value: 0, mask: 0x3f },
        ccucon7: ConRegConfig { value: 0, mask: 0x3f },
        ccucon8: ConRegConfig { value: 0, mask: 0x3f },
    }
}

/// The parameters of the PLLs as the default configuration wants them: a
/// crystal of 20 MHz, the system PLL at 300 MHz before its last divider and
/// the peripheral PLL at 320 MHz.
pub open spec fn default_plls() -> PllsParameterConfig {
    PllsParameterConfig {
        xtal_frequency: 20_000_000,
        pll_input_clock_selection: PllInputClockSelection::F0sc0,
        sys_pll: SysPllConfig { p_divider: 0, n_divider: 29, k2_divider: 5 },
        per_pll: PerPllConfig {
            p_divider: 0,
            n_divider: 31,
            k2_divider: 1,
            k3_divider: 1,
            k3_divider_bypass: 0,
        },
    }
}

/// The clock control registers as the default configuration wants them.
pub fn default_clock_distribution() -> (distribution: ClockDistributionConfig)
    ensures
        distribution == default_distribution(),
        distribution.ccucon0.value == 0x0723_0113 && distribution.ccucon0.mask == 0x0fff_0fff,
        distribution.ccucon1.value == 0x2111_0212 && distribution.ccucon1.mask == 0x3f3f_0fbf,
        distribution.ccucon2.value == 0x0000_1201 && distribution.ccucon2.mask == 0x0000_3f0f,
        distribution.ccucon5.value == 0x0000_0032 && distribution.ccucon5.mask == 0x0000_00ff,
        distribution.ccucon6.value == 0 && distribution.ccucon6.mask == 0x3f,
        distribution.ccucon7.value == 0 && distribution.ccucon7.mask == 0x3f,
        distribution.ccucon8.value == 0 && distribution.ccucon8.mask == 0x3f,
{
    ClockDistributionConfig {
        ccucon0: ConRegConfig { value: 0x0723_0113, mask: 0x0fff_0fff },
        ccucon1: ConRegConfig { value: 0x2111_0212, mask: 0x3f3f_0fbf },
        ccucon2: ConRegConfig { value: 0x0000_1201, mask: 0x0000_3f0f },
        ccucon5: ConRegConfig { value: 0x0000_0032, mask: 0x0000_00ff },
        ccucon6: ConRegConfig { value: 0, mask: 0x3f },
        ccucon7: ConRegConfig { value: 0, mask: 0x3f },
        ccucon8: ConRegConfig { value: 0, mask: 0x3f },
    }
}

/// The parameters of the PLLs as the default configuration wants them: a
/// crystal of 20 MHz, the system PLL at 300 MHz before its last divider and
/// the peripheral PLL at 320 MHz.
pub fn default_plls_parameters() -> (parameters: PllsParameterConfig)
    ensures
        parameters == default_plls(),
        parameters.xtal_frequency == 20_000_000,
        parameters.pll_input_clock_selection == PllInputClockSelection::F0sc0,
        parameters.sys_pll.p_divider == 0 && parameters.sys_pll.n_divider == 29
            && parameters.sys_pll.k2_divider == 5,
        parameters.per_pll.p_divider == 0 && parameters.per_pll.n_divider == 31
            && parameters.per_pll.k2_divider == 1 && parameters.per_pll.k3_divider == 1
            && parameters.per_pll.k3_divider_bypass == 0,
{
    PllsParameterConfig {
        xtal_frequency: 20_000_000,
        pll_input_clock_selection: PllInputClockSelection::F0sc0,
        sys_pll: SysPllConfig { p_divider: 0, n_divider: 29, k2_divider: 5 },
        per_pll: PerPllConfig {
            p_divider: 0,
            n_divider: 31,
            k2_divider: 1,
            k3_divider: 1,
            k3_divider_bypass: 0,
        },
    }
}

/// The value of a clock control register with the bits of `config.mask`
/// changed to those of `config.value`.
pub open spec fn distributed(raw: u32, config: ConRegConfig) -> u32 {
    (raw & !config.mask) | (config.mask & config.value)
}

/// The value of a clock control register with the bits of `config.mask`
/// changed to those of `config.value`.
pub fn distribute(raw: u32, config: &ConRegConfig) -> (updated: u32)
    ensures
        updated == distributed(raw, *config),
{
    (raw & !config.mask) | (config.mask & config.value)
}

/// Whether one of the clocks of the CAN modules, the MSC and the QSPI is
/// not stopped, by their clock selections: they are stopped at 0, 1 and 2.
/// Such a clock is stopped before its divider is changed.
pub fn peripheral_clocks_run(clkselmcan: u8, clkselmsc: u8, clkselqspi: u8) -> (running: bool)
    ensures
        running == (clkselmcan != 0 || clkselmsc != 1 || clkselqspi != 2),
{
    clkselmcan != 0 || clkselmsc != 1 || clkselqspi != 2
}

/// Whether the clock of the ASCLIN modules is not stopped, by its clock
/// selection: it is stopped at 0.
pub fn asclin_clock_runs(clkselasclins: u8) -> (running: bool)
    ensures
        running == (clkselasclins != 0),
{
    clkselasclins != 0
}

/// What the oscillator value field holds for a crystal of `xtal_frequency`
/// Hz: its MHz less 15. Fails if that is less than 0 or more than a byte
/// holds.
pub open spec fn oscillator_field(xtal_frequency: u32) -> Option<u8> {
    if 15 <= xtal_frequency / 1_000_000 <= 270 {
        Some((xtal_frequency / 1_000_000 - 15) as u8)
    } else {
        None
    }
}

/// What the oscillator value field holds for a crystal of `xtal_frequency` Hz.
pub fn oscillator_value(xtal_frequency: u32) -> (oscval: Result<u8, ()>)
    ensures
        oscval is Ok <==> oscillator_field(xtal_frequency) is Some,
        oscval matches Ok(v) ==> oscillator_field(xtal_frequency) == Some(v),
{
    let mhz: u32 = xtal_frequency / 1000000;
    if 15 <= mhz && mhz <= 270 {
        Ok((mhz - 15) as u8)
    } else {
        Err(())
    }
}

/// What the modulation configuration field holds for a gain of `rgain_hex`.
pub fn modulation_configuration(rgain_hex: u16) -> (modcfg: u16)
    ensures
        modcfg == (0x3u16 << 10) | rgain_hex,
{
    (0x3u16 << 10) | rgain_hex
}

/// Whether `step` can have succeeded.
pub open spec fn succeeded<F: FnOnce() -> Result<(), ()>>(step: F) -> bool {
    exists|r: Result<(), ()>| r is Ok && step.ensures((), r)
}

/// Whether `step` can have failed.
pub open spec fn failed<F: FnOnce() -> Result<(), ()>>(step: F) -> bool {
    exists|r: Result<(), ()>| r is Err && step.ensures((), r)
}

/// Whether `result` is what the set-up of the clocks may return for these
/// four steps: the error of the first step that failed, all steps before
/// it having succeeded, or success if all four have succeeded.
pub open spec fn is_first_failure<
    A: FnOnce() -> Result<(), ()>,
    B: FnOnce() -> Result<(), ()>,
    C: FnOnce() -> Result<(), ()>,
    D: FnOnce() -> Result<(), ()>,
>(result: Result<(), InitError>, a: A, b: B, c: C, d: D) -> bool {
    match result {
        Err(InitError::ConfigureCCUInitialStep) => failed(a),
        Err(InitError::ModulationInit) => succeeded(a) && failed(b),
        Err(InitError::DistributeClockInline) => succeeded(a) && succeeded(b) && failed(c),
        Err(InitError::ThrottleSysPllClockInline) => succeeded(a) && succeeded(b) && succeeded(c)
            && failed(d),
        Ok(_) => succeeded(a) && succeeded(b) && succeeded(c) && succeeded(d),
    }
}

/// Sets up the clocks: runs the four steps in their order, each only if
/// those before it succeeded, and names the first one that failed.
pub fn init(
    configure_ccu_initial_step: impl FnOnce() -> Result<(), ()>,
    modulation_init: impl FnOnce() -> Result<(), ()>,
    distribute_clock_inline: impl FnOnce() -> Result<(), ()>,
    throttle_sys_pll_clock_inline: impl FnOnce() -> Result<(), ()>,
) -> (result: Result<(), InitError>)
    requires
        configure_ccu_initial_step.requires(()),
        modulation_init.requires(()),
        distribute_clock_inline.requires(()),
        throttle_sys_pll_clock_inline.requires(()),
    ensures
        is_first_failure(
            result,
            configure_ccu_initial_step,
            modulation_init,
            distribute_clock_inline,
            throttle_sys_pll_clock_inline,
        ),
{
    let initial_step = configure_ccu_initial_step();
    if initial_step.is_err() {
        return Err(InitError::ConfigureCCUInitialStep);
    }
    let modulation = modulation_init();
    if modulation.is_err() {
        return Err(InitError::ModulationInit);
    }
    let distribution = distribute_clock_inline();
    if distribution.is_err() {
        return Err(InitError::DistributeClockInline);
    }
    let throttle = throttle_sys_pll_clock_inline();
    if throttle.is_err() {
        return Err(InitError::ThrottleSysPllClockInline);
    }
    Ok(())
}

/// How a wait goes on after an answer of its condition.
#[derive(Clone, Copy, Debug, PartialEq, Eq, Structural)]
pub enum WaitStep {
    /// The condition has said no: the wait is over.
    Done,
    /// The condition has said yes, and that was the last try: the wait has
    /// failed.
    GiveUp,
    /// The condition has said yes, and is to be asked again.
    Again { tries_left: usize },
}

/// How a wait with `tries_left` tries left goes on after `answer`: a no
/// ends it; a yes uses up a try, and fails the wait if that was the last.
pub open spec fn wait_outcome(tries_left: usize, answer: bool) -> WaitStep {
    if !answer {
        WaitStep::Done
    } else if tries_left <= 1 {
        WaitStep::GiveUp
    } else {
        WaitStep::Again { tries_left: (tries_left - 1) as usize }
    }
}

/// How a wait with `tries_left` tries left goes on after `answer`.
pub fn wait_step(tries_left: usize, answer: bool) -> (step: WaitStep)
    ensures
        step == wait_outcome(tries_left, answer),
{
    if !answer {
        WaitStep::Done
    } else if tries_left <= 1 {
        WaitStep::GiveUp
    } else {
        WaitStep::Again { tries_left: tries_left - 1 }
    }
}

/// The result of a wait with `tries_left` tries left over the answers
/// `answers` of its condition, in their order; nothing if the wait is not
/// over with them.
pub open spec fn wait_over(tries_left: usize, answers: Seq<bool>) -> Option<Result<(), ()>>
    decreases answers.len(),
{
    if answers.len() == 0 {
        None
    } else {
        match wait_outcome(tries_left, answers[0]) {
            WaitStep::Done => Some(Ok(())),
            WaitStep::GiveUp => Some(Err(())),
            WaitStep::Again { tries_left: left } => wait_over(left, answers.skip(1)),
        }
    }
}

/// `count` times yes.
pub open spec fn yes(count: int) -> Seq<bool> {
    Seq::new(count as nat, |i: int| true)
}

/// A wait with `tries` tries succeeds if and only if the condition says no
/// before it has said yes `tries` times: after `k` times yes and a no it
/// succeeds with the no, for `k` below `tries`, and is not over before;
/// after `tries` times yes it has failed, and is not over before.
pub proof fn lemma_wait_counts(tries: usize, k: int)
    requires
        tries >= 1,
        0 <= k,
    ensures
        k < tries ==> wait_over(tries, yes(k).push(false)) == Some(Ok::<(), ()>(())),
        k < tries ==> wait_over(tries, yes(k)) == None::<Result<(), ()>>,
        k == tries ==> wait_over(tries, yes(k)) == Some(Err::<(), ()>(())),
    decreases k,
{
    if k == 0 {
        assert(yes(0).push(false)[0] == false);
    } else {
        assert(yes(k)[0]);
        assert(yes(k).push(false)[0]);
        assert(yes(k).skip(1) =~= yes(k - 1));
        assert(yes(k).push(false).skip(1) =~= yes(k - 1).push(false));
        if tries > 1 {
            lemma_wait_counts((tries - 1) as usize, k - 1);
        }
    }
}

/// Calls `cond` until it says no, at most `timeout_cycle_count` times.
/// Fails if `cond` has said yes that often. Each answer is taken as
/// `wait_step` says.
///
/// With no try at all, the condition must not say yes.
pub fn wait_cond(timeout_cycle_count: usize, cond: impl Fn() -> bool) -> (result: Result<(), ()>)
    requires
        timeout_cycle_count > 0 || forall|b: bool| cond.ensures((), b) ==> !b,
        cond.requires(()),
    ensures
        result is Ok ==> cond.ensures((), false),
        result is Err ==> cond.ensures((), true),
        result is Err ==> timeout_cycle_count > 0,
{
    let mut tries_left = timeout_cycle_count;
    loop
        invariant
            tries_left <= timeout_cycle_count,
            tries_left > 0 || forall|b: bool| cond.ensures((), b) ==> !b,
            cond.requires(()),
        decreases tries_left,
    {
        let answer = cond();
        match wait_step(tries_left, answer) {
            WaitStep::Done => {
                return Ok(());
            },
            WaitStep::GiveUp => {
                return Err(());
            },
            WaitStep::Again { tries_left: left } => {
                tries_left = left;
            },
        }
    }
}

/// The frequency of the back-up clock, in Hz.
pub fn get_evr_frequency() -> (hz: u32)
    ensures
        hz == EVR_OSC_FREQUENCY,
{
    EVR_OSC_FREQUENCY
}

/// The frequency of the oscillator, in Hz.
pub fn get_osc0_frequency() -> (hz: u32)
    ensures
        hz == XTAL_FREQUENCY,
{
    XTAL_FREQUENCY
}

/// The frequency of the input of the PLLs, in Hz, by the input selection
/// field of the system PLL; 0 where the field holds no selection.
pub open spec fn osc_frequency(insel: u8) -> u32 {
    if insel == 0 {
        EVR_OSC_FREQUENCY
    } else if insel == 1 {
        XTAL_FREQUENCY
    } else if insel == 2 {
        SYSCLK_FREQUENCY
    } else {
        0
    }
}

/// The frequency of the input of the PLLs, in Hz, by the input selection
/// field of the system PLL.
pub fn get_osc_frequency(insel: u8) -> (hz: u32)
    ensures
        hz == osc_frequency(insel),
{
    match insel {
        0 => EVR_OSC_FREQUENCY,
        1 => XTAL_FREQUENCY,
        2 => SYSCLK_FREQUENCY,
        _ => 0,
    }
}

/// The frequency of clock source `source`, in Hz, by the clock selection
/// field: the back-up clock for 0; for 1 the PLL that `source` names, the
/// first output of the peripheral PLL halved unless its divider is
/// disabled; else 0.
pub open spec fn source_frequency(
    clksel: u8,
    source: u32,
    pll_frequency: u32,
    per_pll_frequency1: u32,
    per_pll_frequency2: u32,
    pll1divdis: bool,
) -> u32 {
    if clksel == 0 {
        EVR_OSC_FREQUENCY
    } else if clksel == 1 {
        if source == 0 {
            pll_frequency
        } else if source == 1 {
            if pll1divdis {
                per_pll_frequency1
            } else {
                per_pll_frequency1 / 2
            }
        } else {
            per_pll_frequency2
        }
    } else {
        0
    }
}

/// The frequency of clock source `source`, in Hz. Where the clocks run on
/// the PLLs, `source` is 0, 1 or 2.
pub fn get_source_frequency(
    clksel: u8,
    source: u32,
    pll_frequency: u32,
    per_pll_frequency1: u32,
    per_pll_frequency2: u32,
    pll1divdis: bool,
) -> (hz: u32)
    requires
        clksel == 1 ==> source <= 2,
    ensures
        hz == source_frequency(
            clksel,
            source,
            pll_frequency,
            per_pll_frequency1,
            per_pll_frequency2,
            pll1divdis,
        ),
{
    match clksel {
        0 => get_evr_frequency(),
        1 => match source {
            0 => pll_frequency,
            1 => {
                if pll1divdis {
                    per_pll_frequency1
                } else {
                    per_pll_frequency1 / 2
                }
            },
            _ => per_pll_frequency2,
        },
        _ => 0,
    }
}

/// The frequency of the clock of the CAN modules, in Hz, by the clock
/// selection and the divider of the CAN modules: for selection 1 the
/// frequency of source 1, divided unless the divider is 0; for selection 2
/// that of the oscillator; else 0.
pub open spec fn mcan_frequency(clkselmcan: u32, mcandiv: u32, source_frequency: u32) -> u32 {
    if clkselmcan == 1 {
        if mcandiv == 0 {
            source_frequency
        } else {
            source_frequency / mcandiv
        }
    } else if clkselmcan == 2 {
        XTAL_FREQUENCY
    } else {
        0
    }
}

/// The frequency of the clock of the CAN modules, in Hz.
pub fn get_mcan_frequency(clkselmcan: u32, mcandiv: u32, source_frequency: u32) -> (hz: u32)
    ensures
        hz == mcan_frequency(clkselmcan, mcandiv, source_frequency),
{
    match clkselmcan {
        1 => {
            if mcandiv == 0 {
                source_frequency
            } else {
                source_frequency / mcandiv
            }
        },
        2 => get_osc0_frequency(),
        _ => 0,
    }
}


/// One step of the throttling of the system PLL.
#[derive(Clone, Copy, Debug)]
pub struct PllStepConfig {
    /// The divider K2 of the step, one less than it divides by.
    pub k2_step: u8,
    /// The time to stay at the step, in microseconds.
    pub wait_time_us: u32,
}

/// The wait for the lock bit of `reg`.
pub open spec fn wait_lock(reg: ClockReg) -> ClockOp {
    ClockOp::WaitWhile {
        condition: ClockCondition::Locked { reg },
        tries: CCUCON_LCK_BIT_TIMEOUT_COUNT,
    }
}

/// The wait for the dividers of the PLLs.
pub open spec fn wait_dividers() -> ClockOp {
    ClockOp::WaitWhile { condition: ClockCondition::DividersNotReady, tries: PLL_KRDY_TIMEOUT_COUNT }
}

/// The operations that power the PLLs up or down and wait for it.
pub open spec fn pll_power_program(sys: bool, per: bool) -> Seq<ClockOp> {
    seq![
        ClockOp::PllPower { sys, per },
        ClockOp::WaitWhile {
            condition: ClockCondition::PowerStatus { sys, per },
            tries: SYSPLLSTAT_PWDSTAT_TIMEOUT_COUNT,
        },
    ]
}

/// The start of the first step: under lifted protection, the clocks are
/// switched to the back-up clock and the alarms of the PLLs are masked.
pub open spec fn initial_step_head() -> Seq<ClockOp> {
    seq![
        ClockOp::SafetyEndinit { locked: false },
        wait_lock(ClockReg::Ccucon0),
        ClockOp::SelectClock { clksel: 0 },
        wait_lock(ClockReg::Ccucon0),
        ClockOp::SmuUnlock,
        ClockOp::SmuMaskPllAlarms { index: 0 },
        ClockOp::SmuMaskPllAlarms { index: 1 },
        ClockOp::SmuMaskPllAlarms { index: 2 },
        ClockOp::SmuLock,
    ]
}

/// The operations that configure the oscillator, where it is the input of
/// the PLLs, and set the dividers P and N of both PLLs.
pub open spec fn initial_step_dividers(params: PllsParameterConfig, oscval: u8) -> Seq<ClockOp> {
    (if params.pll_input_clock_selection != PllInputClockSelection::F0sc1 {
        seq![ClockOp::Oscillator { mode: 0, oscval }]
    } else {
        Seq::<ClockOp>::empty()
    }) + seq![
        ClockOp::SysPll {
            p_divider: params.sys_pll.p_divider,
            n_divider: params.sys_pll.n_divider,
            insel: params.pll_input_clock_selection.value(),
        },
        ClockOp::PerPll {
            divby: params.per_pll.k3_divider_bypass,
            p_divider: params.per_pll.p_divider,
            n_divider: params.per_pll.n_divider,
        },
    ]
}

/// The end of the first step: the dividers K are set once the PLLs are
/// ready for them; the oscillator is waited for, the PLLs lock anew, and
/// their alarms are cleared; the clocks are switched to the PLLs, and the
/// protection is restored.
pub open spec fn initial_step_tail(params: PllsParameterConfig) -> Seq<ClockOp> {
    seq![
        wait_dividers(),
        ClockOp::SysK2 { k2_divider: params.sys_pll.k2_divider },
        ClockOp::PerK {
            k2_divider: params.per_pll.k2_divider,
            k3_divider: params.per_pll.k3_divider,
        },
        wait_dividers(),
        ClockOp::WaitWhile {
            condition: ClockCondition::OscillatorFlagsClear,
            tries: OSCCON_PLLLV_OR_HV_TIMEOUT_COUNT,
        },
        ClockOp::RestartLock,
        ClockOp::WaitWhile {
            condition: ClockCondition::PllsNotLocked,
            tries: PLL_LOCK_TIMEOUT_COUNT,
        },
        ClockOp::SmuUnlock,
        ClockOp::SmuCommand { value: 5 },
        ClockOp::SmuClearPllAlarms,
        ClockOp::SmuLock,
        wait_lock(ClockReg::Ccucon0),
        ClockOp::SelectClock { clksel: 1 },
        wait_lock(ClockReg::Ccucon0),
        ClockOp::SafetyEndinit { locked: true },
    ]
}

/// The first step of the set-up of the clocks, with `oscval` for the
/// oscillator where it is configured: the start; the PLLs are powered
/// down; the oscillator and the dividers are set; the PLLs are powered up;
/// the end.
pub open spec fn initial_step_program(params: PllsParameterConfig, oscval: u8) -> Seq<ClockOp> {
    initial_step_head() + pll_power_program(false, false) + initial_step_dividers(params, oscval)
        + pll_power_program(true, true) + initial_step_tail(params)
}

/// What is known of a program for the clock control unit: it begins and
/// ends under protection and writes only while the protection is lifted;
/// each write to a register with a lock bit stands between two waits for
/// the bit; and it closes its protection, so that it ends under protection
/// also where a wait runs out of tries.
pub open spec fn program_in_order(program: Seq<ClockOp>) -> bool {
    &&& guard_through(program, true) == Some(true)
    &&& writes_wait_for_lock(program)
    &&& closes_protection(program)
}

/// The first step of the set-up of the clocks has no `Unless`.
proof fn lemma_initial_step_has_no_unless(params: PllsParameterConfig, oscval: u8)
    ensures
        has_no_unless(initial_step_program(params, oscval)),
{
    let head = initial_step_head();
    let down = pll_power_program(false, false);
    let dividers = initial_step_dividers(params, oscval);
    let up = pll_power_program(true, true);
    let tail = initial_step_tail(params);
    assert(has_no_unless(head));
    assert(has_no_unless(down));
    assert(has_no_unless(dividers));
    assert(has_no_unless(up));
    assert(has_no_unless(tail));
    lemma_no_unless_both(head, down);
    lemma_no_unless_both(head + down, dividers);
    lemma_no_unless_both(head + down + dividers, up);
    lemma_no_unless_both(head + down + dividers + up, tail);
}

/// Adds the operations that power the PLLs up or down and wait for it.
fn set_pll_power(program: &mut ClockProgram, syspllpower: bool, perpllpower: bool)
    requires
        old(program).wf(),
        !old(program).locked(),
        old(program).ops().len() > 0,
        old(program).ops().last().locked_register() is None,
    ensures
        final(program).wf(),
        !final(program).locked(),
        final(program).ops() == old(program).ops() + pll_power_program(syspllpower, perpllpower),
        final(program).ops().len() > 0,
        final(program).ops().last().locked_register() is None,
{
    program.push(ClockOp::PllPower { sys: syspllpower, per: perpllpower });
    program.push(
        ClockOp::WaitWhile {
            condition: ClockCondition::PowerStatus { sys: syspllpower, per: perpllpower },
            tries: SYSPLLSTAT_PWDSTAT_TIMEOUT_COUNT,
        },
    );
    assert(program.ops() =~= old(program).ops() + pll_power_program(syspllpower, perpllpower));
}

/// Begins the first step.
fn begin_initial_step(program: &mut ClockProgram)
    requires
        old(program).wf(),
        old(program).locked(),
        old(program).ops().len() == 0,
    ensures
        final(program).wf(),
        !final(program).locked(),
        final(program).ops() == initial_step_head(),
        final(program).ops().last().locked_register() is None,
{
    let lock = ClockOp::WaitWhile {
        condition: ClockCondition::Locked { reg: ClockReg::Ccucon0 },
        tries: CCUCON_LCK_BIT_TIMEOUT_COUNT,
    };
    program.safety_endinit(false);
    program.push(lock);
    program.push(ClockOp::SelectClock { clksel: 0 });
    program.push(lock);
    program.push(ClockOp::SmuUnlock);
    program.push(ClockOp::SmuMaskPllAlarms { index: 0 });
    program.push(ClockOp::SmuMaskPllAlarms { index: 1 });
    program.push(ClockOp::SmuMaskPllAlarms { index: 2 });
    program.push(ClockOp::SmuLock);
    assert(program.ops() =~= initial_step_head());
}

/// Adds the operations that configure the oscillator and set the dividers
/// P and N.
fn set_initial_dividers(program: &mut ClockProgram, plls_params: &PllsParameterConfig, oscval: u8)
    requires
        old(program).wf(),
        !old(program).locked(),
        old(program).ops().len() > 0,
        old(program).ops().last().locked_register() is None,
    ensures
        final(program).wf(),
        !final(program).locked(),
        final(program).ops() == old(program).ops() + initial_step_dividers(*plls_params, oscval),
        final(program).ops().len() > 0,
        final(program).ops().last().locked_register() is None,
{
    if plls_params.pll_input_clock_selection.needs_oscillator() {
        program.push(ClockOp::Oscillator { mode: 0, oscval });
    }
    program.push(
        ClockOp::SysPll {
            p_divider: plls_params.sys_pll.p_divider,
            n_divider: plls_params.sys_pll.n_divider,
            insel: plls_params.pll_input_clock_selection.to_register_value(),
        },
    );
    program.push(
        ClockOp::PerPll {
            divby: plls_params.per_pll.k3_divider_bypass,
            p_divider: plls_params.per_pll.p_divider,
            n_divider: plls_params.per_pll.n_divider,
        },
    );
    assert(program.ops() =~= old(program).ops() + initial_step_dividers(*plls_params, oscval));
}

/// Ends the first step.
fn end_initial_step(program: &mut ClockProgram, plls_params: &PllsParameterConfig)
    requires
        old(program).wf(),
        !old(program).locked(),
        old(program).ops().len() > 0,
        old(program).ops().last().locked_register() is None,
    ensures
        final(program).wf(),
        final(program).locked(),
        final(program).ops() == old(program).ops() + initial_step_tail(*plls_params),
{
    let lock = ClockOp::WaitWhile {
        condition: ClockCondition::Locked { reg: ClockReg::Ccucon0 },
        tries: CCUCON_LCK_BIT_TIMEOUT_COUNT,
    };
    let dividers = ClockOp::WaitWhile {
        condition: ClockCondition::DividersNotReady,
        tries: PLL_KRDY_TIMEOUT_COUNT,
    };
    program.push(dividers);
    program.push(ClockOp::SysK2 { k2_divider: plls_params.sys_pll.k2_divider });
    program.push(
        ClockOp::PerK {
            k2_divider: plls_params.per_pll.k2_divider,
            k3_divider: plls_params.per_pll.k3_divider,
        },
    );
    program.push(dividers);
    program.push(
        ClockOp::WaitWhile {
            condition: ClockCondition::OscillatorFlagsClear,
            tries: OSCCON_PLLLV_OR_HV_TIMEOUT_COUNT,
        },
    );
    program.push(ClockOp::RestartLock);
    program.push(
        ClockOp::WaitWhile { condition: ClockCondition::PllsNotLocked, tries: PLL_LOCK_TIMEOUT_COUNT },
    );
    let ghost locked_anew = program.ops();
    assert(locked_anew =~= old(program).ops() + initial_step_tail(*plls_params).take(7));
    program.push(ClockOp::SmuUnlock);
    program.push(ClockOp::SmuCommand { value: 5 });
    program.push(ClockOp::SmuClearPllAlarms);
    program.push(ClockOp::SmuLock);
    program.push(lock);
    program.push(ClockOp::SelectClock { clksel: 1 });
    program.push(lock);
    program.safety_endinit(true);
    assert(program.ops() =~= locked_anew + initial_step_tail(*plls_params).skip(7));
    assert(initial_step_tail(*plls_params) =~= initial_step_tail(*plls_params).take(7)
        + initial_step_tail(*plls_params).skip(7));
    assert(program.ops() =~= old(program).ops() + initial_step_tail(*plls_params));
}

/// The program of the first step of the set-up of the clocks.
///
/// Fails, before anything is asked of the hardware, if and only if the
/// oscillator is to be configured and its frequency has no value for the
/// oscillator value field.
pub fn configure_ccu_initial_step(plls_params: &PllsParameterConfig) -> (program: Result<Vec<ClockOp>, ()>)
    ensures
        program is Err <==> plls_params.pll_input_clock_selection != PllInputClockSelection::F0sc1
            && oscillator_field(plls_params.xtal_frequency) is None,
        program matches Ok(ops) ==> program_in_order(ops@) && exists|oscval: u8|
            ops@ == initial_step_program(*plls_params, oscval) && (
            plls_params.pll_input_clock_selection != PllInputClockSelection::F0sc1
                ==> oscillator_field(plls_params.xtal_frequency) == Some(oscval)),
{
    let oscval: u8 = if plls_params.pll_input_clock_selection.needs_oscillator() {
        match oscillator_value(plls_params.xtal_frequency) {
            Ok(oscval) => oscval,
            Err(_) => {
                return Err(());
            },
        }
    } else {
        0
    };
    let mut program = ClockProgram::new();
    begin_initial_step(&mut program);
    set_pll_power(&mut program, false, false);
    set_initial_dividers(&mut program, plls_params, oscval);
    set_pll_power(&mut program, true, true);
    end_initial_step(&mut program, plls_params);
    assert(program.ops() == initial_step_program(*plls_params, oscval));
    proof {
        lemma_initial_step_has_no_unless(*plls_params, oscval);
        lemma_no_unless_no_skips(program.ops());
        assert(program.ops().last() == initial_step_tail(*plls_params).last());
    }
    Ok(program.into_ops())
}

/// The program that sets the modulation of the system PLL up, for a gain
/// of `rgain_hex`: nothing unless the modulation is enabled.
pub open spec fn modulation_program(enabled: bool, rgain_hex: u16) -> Seq<ClockOp> {
    if enabled {
        seq![
            ClockOp::SafetyEndinit { locked: false },
            ClockOp::Modulation { modcfg: (0x3u16 << 10) | rgain_hex },
            ClockOp::ModulationEnable,
            ClockOp::SafetyEndinit { locked: true },
        ]
    } else {
        Seq::<ClockOp>::empty()
    }
}

/// The program that sets the modulation of the system PLL up.
pub fn modulation_init(modulation: &ModulationConfig, rgain_hex: u16) -> (program: Vec<ClockOp>)
    ensures
        program@ == modulation_program(modulation.enable == ModulationEn::Enabled, rgain_hex),
        program_in_order(program@),
{
    let mut program = ClockProgram::new();
    match modulation.enable {
        ModulationEn::Enabled => {
            program.safety_endinit(false);
            program.push(ClockOp::Modulation { modcfg: modulation_configuration(rgain_hex) });
            program.push(ClockOp::ModulationEnable);
            program.safety_endinit(true);
            assert(program.ops() =~= modulation_program(true, rgain_hex));
        },
        ModulationEn::Disabled => {},
    }
    proof {
        assert(has_no_unless(program.ops()));
        lemma_no_unless_no_skips(program.ops());
    }
    program.into_ops()
}

/// The operations that change one clock control register with a lock bit.
pub open spec fn locked_distribution(reg: ClockReg, config: ConRegConfig, stopped: bool, update: bool) -> Seq<
    ClockOp,
> {
    seq![wait_lock(reg), ClockOp::Distribute { reg, config, stopped, update }, wait_lock(reg)]
}

/// The program that distributes the clocks.
///
/// Under lifted protection the clock control registers are changed in
/// their order. Where the peripherals of a register run on a clock, the
/// register is first changed with their clocks stopped.
pub open spec fn distribution_program(d: ClockDistributionConfig) -> Seq<ClockOp> {
    seq![ClockOp::SafetyEndinit { locked: false }] + locked_distribution(
        ClockReg::Ccucon0,
        d.ccucon0,
        false,
        false,
    ) + seq![ClockOp::Unless { condition: ClockCondition::PeripheralClocksRun, skip: 3 }]
        + locked_distribution(ClockReg::Ccucon1, d.ccucon1, true, false) + locked_distribution(
        ClockReg::Ccucon1,
        d.ccucon1,
        false,
        false,
    ) + seq![ClockOp::Unless { condition: ClockCondition::AsclinClockRuns, skip: 3 }]
        + locked_distribution(ClockReg::Ccucon2, d.ccucon2, true, false) + locked_distribution(
        ClockReg::Ccucon2,
        d.ccucon2,
        false,
        false,
    ) + locked_distribution(ClockReg::Ccucon5, d.ccucon5, false, true) + seq![
        ClockOp::Distribute { reg: ClockReg::Ccucon6, config: d.ccucon6, stopped: false, update: false },
        ClockOp::Distribute { reg: ClockReg::Ccucon7, config: d.ccucon7, stopped: false, update: false },
        ClockOp::Distribute { reg: ClockReg::Ccucon8, config: d.ccucon8, stopped: false, update: false },
        ClockOp::SafetyEndinit { locked: true },
    ]
}

/// Adds the operations that change one clock control register with a lock bit.
fn distribute_locked(program: &mut ClockProgram, reg: ClockReg, config: ConRegConfig, stopped: bool, update: bool)
    requires
        old(program).wf(),
        !old(program).locked(),
        reg.has_lock(),
        old(program).ops().len() > 0,
        old(program).ops().last().locked_register() is None,
    ensures
        final(program).wf(),
        !final(program).locked(),
        final(program).ops() == old(program).ops() + locked_distribution(
            reg,
            config,
            stopped,
            update,
        ),
        final(program).ops().len() == old(program).ops().len() + 3,
        final(program).ops().last().locked_register() is None,
{
    let lock = ClockOp::WaitWhile {
        condition: ClockCondition::Locked { reg },
        tries: CCUCON_LCK_BIT_TIMEOUT_COUNT,
    };
    program.push(lock);
    program.push(ClockOp::Distribute { reg, config, stopped, update });
    program.push(lock);
    assert(program.ops() =~= old(program).ops() + locked_distribution(reg, config, stopped, update));
}

/// The program that distributes the clocks.
pub fn distribute_clock_inline(distribution: &ClockDistributionConfig) -> (program: Vec<ClockOp>)
    ensures
        program@ == distribution_program(*distribution),
        program_in_order(program@),
{
    let d = distribution;
    let mut program = ClockProgram::new();
    program.safety_endinit(false);
    distribute_locked(&mut program, ClockReg::Ccucon0, d.ccucon0, false, false);
    program.push(ClockOp::Unless { condition: ClockCondition::PeripheralClocksRun, skip: 3 });
    distribute_locked(&mut program, ClockReg::Ccucon1, d.ccucon1, true, false);
    distribute_locked(&mut program, ClockReg::Ccucon1, d.ccucon1, false, false);
    program.push(ClockOp::Unless { condition: ClockCondition::AsclinClockRuns, skip: 3 });
    distribute_locked(&mut program, ClockReg::Ccucon2, d.ccucon2, true, false);
    distribute_locked(&mut program, ClockReg::Ccucon2, d.ccucon2, false, false);
    distribute_locked(&mut program, ClockReg::Ccucon5, d.ccucon5, false, true);
    program.push(
        ClockOp::Distribute { reg: ClockReg::Ccucon6, config: d.ccucon6, stopped: false, update: false },
    );
    program.push(
        ClockOp::Distribute { reg: ClockReg::Ccucon7, config: d.ccucon7, stopped: false, update: false },
    );
    program.push(
        ClockOp::Distribute { reg: ClockReg::Ccucon8, config: d.ccucon8, stopped: false, update: false },
    );
    program.safety_endinit(true);
    assert(program.ops() =~= distribution_program(*distribution));
    program.into_ops()
}

/// The operations of one step of the throttling: under lifted protection,
/// the divider K2 of the system PLL is set once it is ready.
pub open spec fn throttle_step(k2_step: u8) -> Seq<ClockOp> {
    seq![
        ClockOp::SafetyEndinit { locked: false },
        ClockOp::WaitWhile { condition: ClockCondition::SysK2NotReady, tries: PLL_KRDY_TIMEOUT_COUNT },
        ClockOp::SysK2 { k2_divider: k2_step },
        ClockOp::SafetyEndinit { locked: true },
    ]
}

/// The program that brings the system PLL to its frequency, step by step.
pub open spec fn throttle_program(steps: Seq<PllStepConfig>) -> Seq<ClockOp>
    decreases steps.len(),
{
    if steps.len() == 0 {
        Seq::<ClockOp>::empty()
    } else {
        throttle_program(steps.drop_last()) + throttle_step(steps.last().k2_step)
    }
}

/// The program that brings the system PLL to its frequency, step by step.
pub fn throttle_sys_pll_clock_inline(sys_pll_throttle: &Vec<PllStepConfig>) -> (program: Vec<ClockOp>)
    ensures
        program@ == throttle_program(sys_pll_throttle@),
        program_in_order(program@),
{
    let mut program = ClockProgram::new();
    let mut pll_step_count: usize = 0;
    while pll_step_count < sys_pll_throttle.len()
        invariant
            0 <= pll_step_count <= sys_pll_throttle@.len(),
            program.wf(),
            program.locked(),
            program.ops() == throttle_program(sys_pll_throttle@.take(pll_step_count as int)),
            program.ops().len() > 0 ==> program.ops().last() == (ClockOp::SafetyEndinit {
                locked: true,
            }),
            has_no_unless(program.ops()),
        decreases sys_pll_throttle@.len() - pll_step_count,
    {
        let ghost before = program.ops();
        program.safety_endinit(false);
        program.push(
            ClockOp::WaitWhile {
                condition: ClockCondition::SysK2NotReady,
                tries: PLL_KRDY_TIMEOUT_COUNT,
            },
        );
        program.push(ClockOp::SysK2 { k2_divider: sys_pll_throttle[pll_step_count].k2_step });
        program.safety_endinit(true);
        proof {
            let taken = sys_pll_throttle@.take(pll_step_count as int + 1);
            assert(taken.drop_last() =~= sys_pll_throttle@.take(pll_step_count as int));
            assert(taken.last() == sys_pll_throttle@[pll_step_count as int]);
            assert(program.ops() =~= before + throttle_step(
                sys_pll_throttle@[pll_step_count as int].k2_step,
            ));
            assert(has_no_unless(throttle_step(sys_pll_throttle@[pll_step_count as int].k2_step)));
            lemma_no_unless_both(
                before,
                throttle_step(sys_pll_throttle@[pll_step_count as int].k2_step),
            );
        }
        pll_step_count = pll_step_count + 1;
    }
    assert(sys_pll_throttle@.take(sys_pll_throttle@.len() as int) =~= sys_pll_throttle@);
    proof {
        lemma_no_unless_no_skips(program.ops());
    }
    program.into_ops()
}


/// The first step of the set-up of the PLLs.
#[derive(Clone, Copy, Debug)]
pub struct InitialConfigStep {
    /// The parameters of the PLLs.
    pub plls_parameters: PllsParameterConfig,
    /// The time to stay at the step, in microseconds.
    pub wait_time_us: u32,
}

/// The configuration of the clocks.
#[derive(Clone, Debug)]
pub struct Config {
    /// The first step of the PLLs.
    pub pll_initial_step: InitialConfigStep,
    /// The steps that bring the system PLL to its frequency.
    pub sys_pll_throttle: Vec<PllStepConfig>,
    /// What the clock control registers are to hold.
    pub clock_distribution: ClockDistributionConfig,
    /// The wait states of the flash.
    pub flash_wait_state: FlashWaitStateConfig,
    /// The modulation of the system PLL.
    pub modulation: ModulationConfig,
}

/// The steps of the default configuration: the divider K2 of the system
/// PLL goes from 4 to 3 to 2, with 100 microseconds at each.
pub open spec fn default_steps() -> Seq<PllStepConfig> {
    seq![
        PllStepConfig { k2_step: 3, wait_time_us: 100 },
        PllStepConfig { k2_step: 2, wait_time_us: 100 },
        PllStepConfig { k2_step: 1, wait_time_us: 100 },
    ]
}

/// The steps of the default configuration.
pub fn default_pll_config_steps() -> (steps: Vec<PllStepConfig>)
    ensures
        steps@ == default_steps(),
        steps@.len() == 3,
        steps@[0].k2_step == 3 && steps@[1].k2_step == 2 && steps@[2].k2_step == 1,
        forall|i: int| 0 <= i < 3 ==> (#[trigger] steps@[i]).wait_time_us == 100,
{
    let mut steps: Vec<PllStepConfig> = Vec::new();
    steps.push(PllStepConfig { k2_step: 3, wait_time_us: 100 });
    steps.push(PllStepConfig { k2_step: 2, wait_time_us: 100 });
    steps.push(PllStepConfig { k2_step: 1, wait_time_us: 100 });
    assert(steps@ =~= default_steps());
    steps
}

/// The default configuration of the clocks: the default parameters of the
/// PLLs with 200 microseconds at the first step, the default steps, the
/// default distribution, the flash at 5 wait states for reads and 1 for
/// error correction, and no modulation.
pub fn default_clock_config() -> (config: Config)
    ensures
        config.pll_initial_step.plls_parameters == default_plls(),
        config.sys_pll_throttle@ == default_steps(),
        config.clock_distribution == default_distribution(),
        config.pll_initial_step.plls_parameters.xtal_frequency == 20_000_000,
        config.pll_initial_step.wait_time_us == 200,
        config.sys_pll_throttle@.len() == 3,
        config.flash_wait_state.value == 0x105 && config.flash_wait_state.mask == 0x73f,
        config.modulation.enable == ModulationEn::Disabled,
        config.modulation.amp == ModulationAmplitude::_0p5,
{
    Config {
        pll_initial_step: InitialConfigStep {
            plls_parameters: default_plls_parameters(),
            wait_time_us: 200,
        },
        sys_pll_throttle: default_pll_config_steps(),
        clock_distribution: default_clock_distribution(),
        flash_wait_state: FlashWaitStateConfig { value: 0x00000105, mask: 0x0000073F },
        modulation: ModulationConfig {
            enable: ModulationEn::Disabled,
            amp: ModulationAmplitude::_0p5,
        },
    }
}

} // verus!
