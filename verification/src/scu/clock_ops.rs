//! What is done to the clock control unit, as operations of a program.
//!
//! The operations name fields and conditions, not bits: where a field lies
//! in its register is known to what carries the program out. A program is
//! carried out in its order, step by step, by a sequencer that says what
//! is to be done next. A wait that runs out of tries ends the program as
//! failed, but not before the safety protection is restored if it is
//! lifted.

use vstd::prelude::*;
use crate::scu::ccu::wait_outcome;
use crate::scu::ccu::wait_step;
use crate::scu::ccu::ConRegConfig;
use crate::scu::ccu::WaitStep;

verus! {

/// A clock control register.
#[derive(Clone, Copy, Debug, PartialEq, Eq, Structural)]
pub enum ClockReg {
    Ccucon0,
    Ccucon1,
    Ccucon2,
    Ccucon5,
    Ccucon6,
    Ccucon7,
    Ccucon8,
}

/// What a wait waits on: the wait goes on while the condition holds.
#[derive(Clone, Copy, Debug, PartialEq, Eq, Structural)]
pub enum ClockCondition {
    /// The lock bit of the register is set: the register takes no write yet.
    Locked { reg: ClockReg },
    /// The power status of the system PLL is `sys`, or that of the
    /// peripheral PLL is `per`.
    PowerStatus { sys: bool, per: bool },
    /// One of the dividers of the PLLs at work is not ready.
    DividersNotReady,
    /// Neither of the two range flags of the oscillator is set.
    OscillatorFlagsClear,
    /// One of the PLLs has not locked.
    PllsNotLocked,
    /// The divider K2 of the system PLL is not ready.
    SysK2NotReady,
    /// One of the clocks of the CAN modules, the MSC and the QSPI is not stopped.
    PeripheralClocksRun,
    /// The clock of the ASCLIN modules is not stopped.
    AsclinClockRuns,
}

/// One operation on the clock control unit.
#[derive(Clone, Copy, Debug, PartialEq, Eq, Structural)]
pub enum ClockOp {
    /// Lift (`locked` false) or restore (`locked` true) the safety end of
    /// initialisation protection.
    SafetyEndinit { locked: bool },
    /// Read the condition while it holds, at most `tries` times. If it
    /// holds at the last of them, the program has failed and ends, with
    /// the safety protection restored.
    WaitWhile { condition: ClockCondition, tries: usize },
    /// Pass over the next `skip` operations unless the condition holds.
    Unless { condition: ClockCondition, skip: usize },
    /// Select the source of the clocks and ask for the update.
    SelectClock { clksel: u8 },
    /// Open the configuration of the safety management unit.
    SmuUnlock,
    /// Close the configuration of the safety management unit.
    SmuLock,
    /// Switch the reactions to the alarms of the PLLs off, in alarm
    /// configuration register `index` of group 8.
    SmuMaskPllAlarms { index: u8 },
    /// Give the safety management unit the command `value`.
    SmuCommand { value: u32 },
    /// Clear the status of the alarms of the PLLs.
    SmuClearPllAlarms,
    /// Power the PLLs up (`true`) or down.
    PllPower { sys: bool, per: bool },
    /// Configure the oscillator.
    Oscillator { mode: u8, oscval: u8 },
    /// Set the dividers P and N and the input of the system PLL.
    SysPll { p_divider: u8, n_divider: u8, insel: u8 },
    /// Set the bypass of K3 and the dividers P and N of the peripheral PLL.
    PerPll { divby: u8, p_divider: u8, n_divider: u8 },
    /// Set the divider K2 of the system PLL.
    SysK2 { k2_divider: u8 },
    /// Set the dividers K2 and K3 of the peripheral PLL.
    PerK { k2_divider: u8, k3_divider: u8 },
    /// Let both PLLs lock anew.
    RestartLock,
    /// Set the configuration of the modulation.
    Modulation { modcfg: u16 },
    /// Switch the modulation on.
    ModulationEnable,
    /// Change the bits of `config.mask` in the register to those of
    /// `config.value`; with `stopped`, select no clock for the peripherals
    /// that the register clocks; with `update`, ask for the update.
    Distribute { reg: ClockReg, config: ConRegConfig, stopped: bool, update: bool },
}

impl ClockReg {
    /// Whether the register has a lock bit, which is to be clear before
    /// and after a write.
    pub open spec fn has_lock(self) -> bool {
        self == ClockReg::Ccucon0 || self == ClockReg::Ccucon1 || self == ClockReg::Ccucon2
            || self == ClockReg::Ccucon5
    }
}

impl ClockOp {
    /// Whether the operation writes to a register that the safety
    /// protection guards.
    pub open spec fn writes(self) -> bool {
        match self {
            ClockOp::SafetyEndinit { locked } => false,
            ClockOp::WaitWhile { condition, tries } => false,
            ClockOp::Unless { condition, skip } => false,
            _ => true,
        }
    }

    /// The clock control register with a lock bit that the operation
    /// writes to, if it writes to one.
    pub open spec fn locked_register(self) -> Option<ClockReg> {
        match self {
            ClockOp::SelectClock { clksel } => Some(ClockReg::Ccucon0),
            ClockOp::Distribute { reg, config, stopped, update } => if reg.has_lock() {
                Some(reg)
            } else {
                None
            },
            _ => None,
        }
    }
}

/// Whether the safety protection is restored after `op`, where `locked`
/// says whether it is before; nothing if `op` is out of order: a write
/// under protection, or a protection that is lifted or restored twice.
pub open spec fn guard_after(locked: bool, op: ClockOp) -> Option<bool> {
    match op {
        ClockOp::SafetyEndinit { locked: next } => if next == locked {
            None
        } else {
            Some(next)
        },
        _ => if op.writes() && locked {
            None
        } else {
            Some(locked)
        },
    }
}

/// Whether the safety protection is restored after all of `program`; nothing
/// if an operation of it is out of order.
pub open spec fn guard_through(program: Seq<ClockOp>, locked: bool) -> Option<bool>
    decreases program.len(),
{
    if program.len() == 0 {
        Some(locked)
    } else {
        match guard_through(program.drop_last(), locked) {
            Some(before) => guard_after(before, program.last()),
            None => None,
        }
    }
}

/// Whether the operations that `Unless` passes over leave the protection
/// as it is: none of the `skip` operations behind each `Unless` lifts or
/// restores it, and all of them are there.
pub open spec fn skips_in_order(program: Seq<ClockOp>) -> bool {
    forall|i: int, j: int|
        0 <= i < program.len() && (#[trigger] program[i] matches ClockOp::Unless { condition, skip }
            && 0 < j <= skip) ==> i + j < program.len() && !(#[trigger] program[i
            + j] is SafetyEndinit) && !(program[i + j] is Unless)
}

/// Whether `op` waits for the lock bit of `reg`.
pub open spec fn waits_for_lock(op: ClockOp, reg: ClockReg) -> bool {
    op matches ClockOp::WaitWhile { condition, tries } && condition == (ClockCondition::Locked {
        reg,
    })
}

/// Whether each write to a clock control register with a lock bit stands
/// behind a wait for that bit, and before one unless it is the last
/// operation.
pub open spec fn writes_wait_for_lock(program: Seq<ClockOp>) -> bool {
    forall|i: int|
        0 <= i < program.len() && (#[trigger] program[i]).locked_register() is Some ==> {
            &&& 0 < i
            &&& waits_for_lock(program[i - 1], program[i].locked_register()->0)
            &&& i + 1 < program.len() ==> waits_for_lock(
                program[i + 1],
                program[i].locked_register()->0,
            )
        }
}

/// Whether `op` may stand behind `program` by the lock bits: a write to a
/// register with a lock bit stands behind a wait for it, and behind such a
/// write stands a wait for its lock bit.
pub open spec fn lock_allows(program: Seq<ClockOp>, op: ClockOp) -> bool {
    &&& op.locked_register() is Some ==> program.len() > 0 && waits_for_lock(
        program.last(),
        op.locked_register()->0,
    )
    &&& program.len() > 0 && program.last().locked_register() is Some ==> waits_for_lock(
        op,
        program.last().locked_register()->0,
    )
}

/// An operation that the lock bits allow keeps the writes of a program
/// between their waits.
pub proof fn lemma_lock_step(program: Seq<ClockOp>, op: ClockOp)
    requires
        writes_wait_for_lock(program),
        lock_allows(program, op),
    ensures
        writes_wait_for_lock(program.push(op)),
{
    let next = program.push(op);
    assert forall|i: int|
        0 <= i < next.len() && (#[trigger] next[i]).locked_register() is Some implies {
        &&& 0 < i
        &&& waits_for_lock(next[i - 1], next[i].locked_register()->0)
        &&& i + 1 < next.len() ==> waits_for_lock(next[i + 1], next[i].locked_register()->0)
    } by {
        if i < program.len() {
            assert(next[i] == program[i]);
            assert(program[i].locked_register() is Some);
            if i + 1 < program.len() {
                assert(next[i + 1] == program[i + 1]);
            }
        }
    }
}

/// One more operation leaves the protection as it leaves what the program
/// had left.
pub proof fn lemma_guard_step(program: Seq<ClockOp>, locked: bool, op: ClockOp)
    ensures
        guard_through(program.push(op), locked) == match guard_through(program, locked) {
            Some(before) => guard_after(before, op),
            None => None,
        },
{
    assert(program.push(op).drop_last() =~= program);
    assert(program.push(op).last() == op);
}

/// A program whose operations are all in order is so up to each of its
/// operations, and writes only while the protection is lifted.
pub proof fn lemma_writes_are_unprotected(program: Seq<ClockOp>, locked: bool, i: int)
    requires
        guard_through(program, locked) is Some,
        0 <= i < program.len(),
    ensures
        guard_through(program.take(i), locked) is Some,
        program[i].writes() ==> guard_through(program.take(i), locked) == Some(false),
    decreases program.len(),
{
    let head = program.drop_last();
    assert(head =~= program.take(program.len() - 1));
    if i < program.len() - 1 {
        lemma_writes_are_unprotected(head, locked, i);
        assert(head.take(i) =~= program.take(i));
    }
}

/// A program for the clock control unit, as far as it has been put together.
#[derive(Debug)]
pub struct ClockProgram {
    ops: Vec<ClockOp>,
    locked: bool,
}

impl ClockProgram {
    /// The operations so far.
    pub closed spec fn ops(&self) -> Seq<ClockOp> {
        self.ops@
    }

    /// Whether the safety protection is restored after the operations so far.
    pub closed spec fn locked(&self) -> bool {
        self.locked
    }

    /// What holds of every program: each operation is in order where it
    /// stands, begun under protection, and each write to a register with a
    /// lock bit stands behind a wait for the bit.
    pub open spec fn wf(&self) -> bool {
        guard_through(self.ops(), true) == Some(self.locked()) && writes_wait_for_lock(self.ops())
    }

    /// The program of no operation, under protection.
    pub fn new() -> (program: ClockProgram)
        ensures
            program.wf(),
            program.ops() == Seq::<ClockOp>::empty(),
            program.locked(),
    {
        ClockProgram { ops: Vec::new(), locked: true }
    }

    /// Lifts or restores the protection.
    pub fn safety_endinit(&mut self, locked: bool)
        requires
            old(self).wf(),
            old(self).locked() != locked,
            lock_allows(old(self).ops(), ClockOp::SafetyEndinit { locked }),
        ensures
            final(self).wf(),
            final(self).ops() == old(self).ops().push(ClockOp::SafetyEndinit { locked }),
            final(self).locked() == locked,
    {
        proof {
            lemma_guard_step(self.ops@, true, ClockOp::SafetyEndinit { locked });
            lemma_lock_step(self.ops@, ClockOp::SafetyEndinit { locked });
        }
        self.ops.push(ClockOp::SafetyEndinit { locked });
        self.locked = locked;
    }

    /// Adds an operation that writes, or waits, or passes over others.
    pub fn push(&mut self, op: ClockOp)
        requires
            old(self).wf(),
            !(op is SafetyEndinit),
            op.writes() ==> !old(self).locked(),
            lock_allows(old(self).ops(), op),
        ensures
            final(self).wf(),
            final(self).ops() == old(self).ops().push(op),
            final(self).locked() == old(self).locked(),
    {
        proof {
            lemma_guard_step(self.ops@, true, op);
            lemma_lock_step(self.ops@, op);
        }
        self.ops.push(op);
    }

    /// The operations.
    pub fn into_ops(self) -> (ops: Vec<ClockOp>)
        ensures
            ops@ == self.ops(),
    {
        self.ops
    }
}

/// What the caller is to do next for a program of the clock control unit.
#[derive(Clone, Copy, Debug, PartialEq, Eq, Structural)]
pub enum ClockAction {
    /// Find out whether the condition holds and hand that to the next step.
    Check { condition: ClockCondition },
    /// Carry the operation out: one that lifts or restores the protection,
    /// or one that writes.
    Perform { op: ClockOp },
    /// Nothing: the program has been carried out.
    Finished,
    /// Nothing: a wait has run out of tries and the program was ended.
    Failed,
}

/// Where a sequencer of a program of the clock control unit stands.
pub struct ClockSequencerView {
    /// The program.
    pub program: Seq<ClockOp>,
    /// The operation that is next, or the length of the program at its end.
    pub next: int,
    /// Whether the last step asked for the condition of the operation that
    /// is next.
    pub checking: bool,
    /// The tries that the wait that is next has left.
    pub tries_left: usize,
    /// Whether a wait has run out of tries.
    pub failed: bool,
    /// Whether the safety protection was lifted and not restored since.
    pub lifted: bool,
}

impl ClockSequencerView {
    /// The sequencer at the start of `program`, under protection.
    pub open spec fn start(program: Seq<ClockOp>) -> ClockSequencerView {
        ClockSequencerView {
            program,
            next: 0,
            checking: false,
            tries_left: 0,
            failed: false,
            lifted: false,
        }
    }

    /// What holds of every sequencer.
    pub open spec fn wf(self) -> bool {
        0 <= self.next <= self.program.len()
    }

    /// Whether the program is at its end.
    pub open spec fn done(self) -> bool {
        self.next >= self.program.len()
    }

    /// Behind the operation that is next, with nothing asked for the one
    /// after it.
    pub open spec fn advanced(self) -> ClockSequencerView {
        ClockSequencerView { next: self.next + 1, checking: false, ..self }
    }

    /// Behind the operation that is next and the `skip` operations after
    /// it, at most at the end of the program.
    pub open spec fn jumped(self, skip: usize) -> ClockSequencerView {
        ClockSequencerView {
            next: if self.next + 1 + skip < self.program.len() {
                self.next + 1 + skip
            } else {
                self.program.len() as int
            },
            checking: false,
            ..self
        }
    }

    /// At the end of the program, failed, under protection.
    pub open spec fn given_up(self) -> ClockSequencerView {
        ClockSequencerView {
            next: self.program.len() as int,
            checking: false,
            failed: true,
            lifted: false,
            ..self
        }
    }
}

/// One step: where the sequencer stands after it, and what the caller is
/// to do. `answer` says whether the condition holds that the last step
/// asked for, if it asked for one.
///
/// A wait asks for its condition, and takes each answer as `wait_outcome`
/// says: it is over with a no, and asks again after a yes while it has
/// tries left. A wait that runs out of tries ends the program as failed;
/// if the protection is lifted, the step asks for it to be restored
/// first. An `Unless` asks for its condition and passes over its
/// operations unless it holds. Everything else is asked of the caller as
/// it stands.
pub open spec fn clock_step_of(s: ClockSequencerView, answer: bool) -> (ClockSequencerView, ClockAction)
    decreases s.program.len() - s.next,
{
    if s.next < 0 || s.next >= s.program.len() {
        (
            s,
            if s.failed {
                ClockAction::Failed
            } else {
                ClockAction::Finished
            },
        )
    } else {
        match s.program[s.next] {
            ClockOp::SafetyEndinit { locked } => (
                ClockSequencerView { lifted: !locked, ..s.advanced() },
                ClockAction::Perform { op: s.program[s.next] },
            ),
            ClockOp::WaitWhile { condition, tries } => if !s.checking {
                (
                    ClockSequencerView { checking: true, tries_left: tries, ..s },
                    ClockAction::Check { condition },
                )
            } else {
                match wait_outcome(s.tries_left, answer) {
                    WaitStep::Done => clock_step_of(s.advanced(), answer),
                    WaitStep::Again { tries_left } => (
                        ClockSequencerView { tries_left, ..s },
                        ClockAction::Check { condition },
                    ),
                    WaitStep::GiveUp => (
                        s.given_up(),
                        if s.lifted {
                            ClockAction::Perform { op: ClockOp::SafetyEndinit { locked: true } }
                        } else {
                            ClockAction::Failed
                        },
                    ),
                }
            },
            ClockOp::Unless { condition, skip } => if !s.checking {
                (ClockSequencerView { checking: true, ..s }, ClockAction::Check { condition })
            } else if answer {
                clock_step_of(s.advanced(), answer)
            } else {
                clock_step_of(s.jumped(skip), answer)
            },
            _ => (s.advanced(), ClockAction::Perform { op: s.program[s.next] }),
        }
    }
}

/// Whether the safety protection is lifted once the caller has done
/// `action`, where `lifted` says whether it was before.
pub open spec fn lifted_after(lifted: bool, action: ClockAction) -> bool {
    match action {
        ClockAction::Perform { op: ClockOp::SafetyEndinit { locked } } => !locked,
        _ => lifted,
    }
}

/// Whether a step from `s` to `t` that asks for `action` is in order.
///
/// The sequencer stays within its program and never goes back. It takes
/// the protection for lifted or restored exactly as the caller was asked
/// to lift or restore it. A failure stays. The step in which a wait runs
/// out of tries ends the program under protection: it asks for the
/// protection to be restored if it was lifted, and else says `Failed`.
/// `Finished` and `Failed` are said at the end of the program only.
pub open spec fn clock_step_in_order(
    s: ClockSequencerView,
    t: ClockSequencerView,
    action: ClockAction,
) -> bool {
    &&& t.wf()
    &&& t.program == s.program
    &&& s.next <= t.next
    &&& t.lifted == lifted_after(s.lifted, action)
    &&& s.failed ==> t.failed
    &&& t.failed && !s.failed ==> t.done() && !t.lifted && action == (if s.lifted {
        ClockAction::Perform { op: ClockOp::SafetyEndinit { locked: true } }
    } else {
        ClockAction::Failed
    })
    &&& action is Finished ==> t.done() && !t.failed
    &&& action is Failed ==> t.done() && t.failed
}

/// Every step is in order.
pub proof fn lemma_clock_step_in_order(s: ClockSequencerView, answer: bool)
    requires
        s.wf(),
    ensures
        clock_step_in_order(s, clock_step_of(s, answer).0, clock_step_of(s, answer).1),
    decreases s.program.len() - s.next,
{
    if s.next < s.program.len() {
        match s.program[s.next] {
            ClockOp::WaitWhile { condition, tries } => {
                if s.checking && wait_outcome(s.tries_left, answer) is Done {
                    lemma_clock_step_in_order(s.advanced(), answer);
                }
            },
            ClockOp::Unless { condition, skip } => {
                if s.checking {
                    if answer {
                        lemma_clock_step_in_order(s.advanced(), answer);
                    } else {
                        lemma_clock_step_in_order(s.jumped(skip), answer);
                    }
                }
            },
            _ => {},
        }
    }
}

/// Whether the operation at place `k` of `program` is the last word on
/// the protection: it restores it, and no operation behind it lifts it
/// again.
pub open spec fn restores_for_good(program: Seq<ClockOp>, k: int) -> bool {
    &&& 0 <= k < program.len()
    &&& program[k] == (ClockOp::SafetyEndinit { locked: true })
    &&& forall|i: int|
        k < i < program.len() ==> #[trigger] program[i] != (ClockOp::SafetyEndinit {
            locked: false,
        })
}

/// Behind an operation that restores the protection for good, the
/// protection is restored: no step leads past the operation and leaves the
/// protection lifted, whether the program goes on or a wait runs out.
pub proof fn lemma_clock_step_keeps_restored(s: ClockSequencerView, answer: bool, k: int)
    requires
        s.wf(),
        restores_for_good(s.program, k),
        skips_in_order(s.program),
        s.next > k ==> !s.lifted,
    ensures
        clock_step_of(s, answer).0.next > k ==> !clock_step_of(s, answer).0.lifted,
    decreases s.program.len() - s.next,
{
    if s.next < s.program.len() {
        match s.program[s.next] {
            ClockOp::WaitWhile { condition, tries } => {
                if s.checking && wait_outcome(s.tries_left, answer) is Done {
                    lemma_clock_step_keeps_restored(s.advanced(), answer, k);
                }
            },
            ClockOp::Unless { condition, skip } => {
                if s.checking {
                    if answer {
                        lemma_clock_step_keeps_restored(s.advanced(), answer, k);
                    } else {
                        if s.next < k {
                            if k <= s.next + skip {
                                assert(!(s.program[s.next + (k - s.next)] is SafetyEndinit));
                            }
                        }
                        lemma_clock_step_keeps_restored(s.jumped(skip), answer, k);
                    }
                }
            },
            _ => {},
        }
    }
}

/// Where a sequencer stands after the steps for `answers`, from `s` on,
/// and what it asked for on the way. A step gets the answer at its place.
pub open spec fn clock_run_of(s: ClockSequencerView, answers: Seq<bool>) -> (
    ClockSequencerView,
    Seq<ClockAction>,
)
    decreases answers.len(),
{
    if answers.len() == 0 {
        (s, Seq::<ClockAction>::empty())
    } else {
        let (before, asked) = clock_run_of(s, answers.drop_last());
        let (after, action) = clock_step_of(before, answers.last());
        (after, asked.push(action))
    }
}

/// Whether the safety protection is lifted once the caller has done all
/// of `actions`, begun with the protection in place.
pub open spec fn lifted_by(actions: Seq<ClockAction>) -> bool
    decreases actions.len(),
{
    if actions.len() == 0 {
        false
    } else {
        lifted_after(lifted_by(actions.drop_last()), actions.last())
    }
}

/// Whether a program ends with the operation that restores the
/// protection, and what its `Unless` operations pass over leaves the
/// protection alone.
pub open spec fn closes_protection(program: Seq<ClockOp>) -> bool {
    &&& program.len() > 0 ==> program.last() == (ClockOp::SafetyEndinit { locked: true })
    &&& skips_in_order(program)
}

/// A program that closes its protection ends under protection, however
/// it is carried out from its start: whether it runs to its end or a wait
/// runs out of tries, at its end the caller was last asked to restore the
/// protection, if it was asked to lift it at all.
pub proof fn lemma_clock_program_is_restored(program: Seq<ClockOp>, answers: Seq<bool>)
    requires
        closes_protection(program),
    ensures
        clock_run_of(ClockSequencerView::start(program), answers).0.wf(),
        clock_run_of(ClockSequencerView::start(program), answers).0.program == program,
        clock_run_of(ClockSequencerView::start(program), answers).0.lifted == lifted_by(
            clock_run_of(ClockSequencerView::start(program), answers).1,
        ),
        clock_run_of(ClockSequencerView::start(program), answers).0.done() ==> !lifted_by(
            clock_run_of(ClockSequencerView::start(program), answers).1,
        ),
    decreases answers.len(),
{
    if answers.len() > 0 {
        lemma_clock_program_is_restored(program, answers.drop_last());
        let (before, asked) = clock_run_of(ClockSequencerView::start(program), answers.drop_last());
        lemma_clock_step_in_order(before, answers.last());
        let action = clock_step_of(before, answers.last()).1;
        assert(asked.push(action).drop_last() =~= asked);
        if program.len() > 0 {
            assert(restores_for_good(program, program.len() - 1));
            lemma_clock_step_keeps_restored(before, answers.last(), program.len() - 1);
        }
    }
}

/// A program of the clock control unit on its way through the hardware.
#[derive(Debug)]
pub struct ClockSequencer {
    program: Vec<ClockOp>,
    next: usize,
    checking: bool,
    tries_left: usize,
    failed: bool,
    lifted: bool,
}

impl View for ClockSequencer {
    type V = ClockSequencerView;

    closed spec fn view(&self) -> ClockSequencerView {
        ClockSequencerView {
            program: self.program@,
            next: self.next as int,
            checking: self.checking,
            tries_left: self.tries_left,
            failed: self.failed,
            lifted: self.lifted,
        }
    }
}

impl ClockSequencer {
    #[verifier::type_invariant]
    spec fn within_program(self) -> bool {
        self.next <= self.program.len()
    }

    /// The sequencer at the start of `program`.
    pub fn new(program: Vec<ClockOp>) -> (sequencer: ClockSequencer)
        ensures
            sequencer@ == ClockSequencerView::start(program@),
    {
        ClockSequencer {
            program,
            next: 0,
            checking: false,
            tries_left: 0,
            failed: false,
            lifted: false,
        }
    }

    /// Whether the program is at its end.
    pub fn is_done(&self) -> (done: bool)
        ensures
            done == self@.done(),
            self@.wf(),
    {
        proof {
            use_type_invariant(self);
        }
        self.next >= self.program.len()
    }

    /// Whether a wait has run out of tries.
    pub fn has_failed(&self) -> (failed: bool)
        ensures
            failed == self@.failed,
    {
        self.failed
    }

    /// The next step. `answer` says whether the condition holds that the
    /// last step asked for; else it is not looked at.
    pub fn step(&mut self, answer: bool) -> (action: ClockAction)
        ensures
            (final(self)@, action) == clock_step_of(old(self)@, answer),
            final(self)@.wf(),
    {
        proof {
            use_type_invariant(&*self);
        }
        loop
            invariant
                self.next <= self.program.len(),
                clock_step_of(self@, answer) == clock_step_of(old(self)@, answer),
            decreases self.program.len() - self.next,
        {
            if self.next >= self.program.len() {
                return if self.failed {
                    ClockAction::Failed
                } else {
                    ClockAction::Finished
                };
            }
            let op = self.program[self.next];
            match op {
                ClockOp::SafetyEndinit { locked } => {
                    self.checking = false;
                    self.next = self.next + 1;
                    self.lifted = !locked;
                    return ClockAction::Perform { op };
                },
                ClockOp::WaitWhile { condition, tries } => {
                    if !self.checking {
                        self.checking = true;
                        self.tries_left = tries;
                        return ClockAction::Check { condition };
                    }
                    match wait_step(self.tries_left, answer) {
                        WaitStep::Done => {
                            self.checking = false;
                            self.next = self.next + 1;
                        },
                        WaitStep::Again { tries_left } => {
                            self.tries_left = tries_left;
                            return ClockAction::Check { condition };
                        },
                        WaitStep::GiveUp => {
                            let restore = self.lifted;
                            self.checking = false;
                            self.next = self.program.len();
                            self.failed = true;
                            self.lifted = false;
                            return if restore {
                                ClockAction::Perform { op: ClockOp::SafetyEndinit { locked: true } }
                            } else {
                                ClockAction::Failed
                            };
                        },
                    }
                },
                ClockOp::Unless { condition, skip } => {
                    if !self.checking {
                        self.checking = true;
                        return ClockAction::Check { condition };
                    }
                    self.checking = false;
                    if answer {
                        self.next = self.next + 1;
                    } else if skip < self.program.len() - self.next - 1 {
                        self.next = self.next + 1 + skip;
                    } else {
                        self.next = self.program.len();
                    }
                },
                _ => {
                    self.checking = false;
                    self.next = self.next + 1;
                    return ClockAction::Perform { op };
                },
            }
        }
    }
}


/// Whether no operation of `program` is an `Unless`.
pub open spec fn has_no_unless(program: Seq<ClockOp>) -> bool {
    forall|i: int| 0 <= i < program.len() ==> !(#[trigger] program[i] is Unless)
}

/// In a program without `Unless` nothing is passed over.
pub proof fn lemma_no_unless_no_skips(program: Seq<ClockOp>)
    requires
        has_no_unless(program),
    ensures
        skips_in_order(program),
{
}

/// Two programs without `Unless` are one without `Unless` together.
pub proof fn lemma_no_unless_both(first: Seq<ClockOp>, second: Seq<ClockOp>)
    requires
        has_no_unless(first),
        has_no_unless(second),
    ensures
        has_no_unless(first + second),
{
    assert forall|i: int| 0 <= i < (first + second).len() implies !(#[trigger] (first + second)[i]
        is Unless) by {
        if i < first.len() {
            assert((first + second)[i] == first[i]);
        } else {
            assert((first + second)[i] == second[i - first.len()]);
        }
    }
}

} // verus!
