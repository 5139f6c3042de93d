//! The sequencer: it goes through a program and says, step by step, what is
//! to be done to the hardware next.
//!
//! The caller does what a step asks for and then asks for the next step. If
//! the step was a read, it hands the value read to the next step. Waiting for
//! the hardware is a read that is asked for again: the sequencer itself never
//! waits.
//!
//! The sequencer keeps track of the protections that the program has
//! lifted. Where a failed program stops, it first asks for each lifted
//! protection to be restored: no program ends as failed with a protection
//! lifted.

use vstd::prelude::*;
use crate::regs::modified;
use crate::regs::Op;
use crate::regs::Reg;

verus! {

/// What the caller is to do next.
#[derive(Clone, Copy, Debug, PartialEq, Eq, Structural)]
pub enum Action {
    /// Read the register and hand its value to the next step.
    Read { reg: Reg },
    /// Write `value` to the register.
    Write { reg: Reg, value: u32 },
    /// Let `cycles` cycles pass.
    Delay { cycles: u32 },
    /// Lift or restore the CPU's end of initialisation protection.
    CpuEndinit { locked: bool },
    /// Lift or restore the safety end of initialisation protection.
    SafetyEndinit { locked: bool },
    /// Nothing: the program has been carried out.
    Finished,
    /// Nothing: the program has failed and was ended.
    Failed,
}

/// Where a sequencer stands.
pub struct SequencerView {
    /// The program.
    pub program: Seq<Op>,
    /// The operation that is next, or the length of the program at its end.
    pub next: int,
    /// Whether the last step asked for a read for the operation that is next.
    pub reading: bool,
    /// Whether a value that was read was not the one expected.
    pub failed: bool,
    /// Whether the CPU's protection was lifted and not restored since.
    pub cpu_lifted: bool,
    /// Whether the safety protection was lifted and not restored since.
    pub safety_lifted: bool,
}

impl SequencerView {
    /// The sequencer at the start of `program`: nothing read, nothing
    /// failed, no protection lifted.
    pub open spec fn start(program: Seq<Op>) -> SequencerView {
        SequencerView {
            program,
            next: 0,
            reading: false,
            failed: false,
            cpu_lifted: false,
            safety_lifted: false,
        }
    }

    /// Behind the operation that is next, which lifts or restores the
    /// CPU's protection.
    pub open spec fn with_cpu(self, locked: bool) -> SequencerView {
        SequencerView { cpu_lifted: !locked, ..self.advanced() }
    }

    /// Behind the operation that is next, which lifts or restores the
    /// safety protection.
    pub open spec fn with_safety(self, locked: bool) -> SequencerView {
        SequencerView { safety_lifted: !locked, ..self.advanced() }
    }

    /// Behind the operation that is next, with nothing read for the one after it.
    pub open spec fn advanced(self) -> SequencerView {
        SequencerView { next: self.next + 1, reading: false, ..self }
    }

    /// At the same operation, with a read asked for.
    pub open spec fn awaiting(self) -> SequencerView {
        SequencerView { reading: true, ..self }
    }

    /// At the end of the program.
    pub open spec fn ended(self) -> SequencerView {
        SequencerView { next: self.program.len() as int, reading: false, ..self }
    }

    /// The same, and failed if `failed`.
    pub open spec fn failing(self, failed: bool) -> SequencerView {
        SequencerView { failed: self.failed || failed, ..self }
    }

    /// Whether the program is at its end.
    pub open spec fn done(self) -> bool {
        self.next >= self.program.len()
    }

    /// What holds of every sequencer.
    pub open spec fn wf(self) -> bool {
        0 <= self.next <= self.program.len()
    }
}

/// One step: where the sequencer stands after it, and what the caller is to
/// do. `input` is the value of the last read, if the last step asked for one.
///
/// Operations that ask nothing of the caller are passed over in the same
/// step: a wait that has come true, an expectation that was checked, a stop
/// that does not apply.
///
/// A stop that applies ends the program, but not before the protections
/// that are lifted have been restored: first the safety protection, then
/// the CPU's, one to a step, the sequencer staying at the stop.
pub open spec fn step_of(s: SequencerView, input: u32) -> (SequencerView, Action)
    decreases s.program.len() - s.next,
{
    if s.next < 0 || s.next >= s.program.len() {
        (
            s,
            if s.failed {
                Action::Failed
            } else {
                Action::Finished
            },
        )
    } else {
        match s.program[s.next] {
            Op::Modify { reg, clear, set } => if s.reading {
                (s.advanced(), Action::Write { reg, value: modified(input, clear, set) })
            } else {
                (s.awaiting(), Action::Read { reg })
            },
            Op::Write { reg, value } => (s.advanced(), Action::Write { reg, value }),
            Op::WaitFor { reg, mask, expect } => if s.reading && input & mask == expect {
                step_of(s.advanced(), input)
            } else {
                (s.awaiting(), Action::Read { reg })
            },
            Op::Delay { cycles } => (s.advanced(), Action::Delay { cycles }),
            Op::Expect { reg, mask, expect } => if s.reading {
                step_of(s.failing(input & mask != expect).advanced(), input)
            } else {
                (s.awaiting(), Action::Read { reg })
            },
            Op::StopIfFailed => if !s.failed {
                step_of(s.advanced(), input)
            } else if s.safety_lifted {
                (
                    SequencerView { safety_lifted: false, ..s },
                    Action::SafetyEndinit { locked: true },
                )
            } else if s.cpu_lifted {
                (
                    SequencerView { cpu_lifted: false, ..s },
                    Action::CpuEndinit { locked: true },
                )
            } else {
                (s.ended(), Action::Failed)
            },
            Op::CpuEndinit { locked } => (s.with_cpu(locked), Action::CpuEndinit { locked }),
            Op::SafetyEndinit { locked } => (
                s.with_safety(locked),
                Action::SafetyEndinit { locked },
            ),
        }
    }
}

/// Whether `action` carries out `op`, where `input` is the value that was
/// read for it.
pub open spec fn carries_out(action: Action, op: Op, input: u32) -> bool {
    match op {
        Op::Modify { reg, clear, set } => action == (Action::Write {
            reg,
            value: modified(input, clear, set),
        }),
        Op::Write { reg, value } => action == (Action::Write { reg, value }),
        Op::Delay { cycles } => action == (Action::Delay { cycles }),
        Op::CpuEndinit { locked } => action == (Action::CpuEndinit { locked }),
        Op::SafetyEndinit { locked } => action == (Action::SafetyEndinit { locked }),
        _ => false,
    }
}

/// Whether `action` is the read that `op` needs.
pub open spec fn reads_for(action: Action, op: Op) -> bool {
    match op {
        Op::Modify { reg, clear, set } => action == (Action::Read { reg }),
        Op::WaitFor { reg, mask, expect } => action == (Action::Read { reg }),
        Op::Expect { reg, mask, expect } => action == (Action::Read { reg }),
        _ => false,
    }
}

/// Whether `action` restores a protection that is lifted at `s`, where
/// the failed program stops at `t`.
pub open spec fn restores_at_stop(s: SequencerView, t: SequencerView, action: Action) -> bool {
    &&& t.failed
    &&& 0 <= t.next < t.program.len()
    &&& t.program[t.next] is StopIfFailed
    &&& (action == (Action::SafetyEndinit { locked: true }) && s.safety_lifted) || (action == (
    Action::CpuEndinit { locked: true }) && s.cpu_lifted)
}

/// Whether a step from `s` to `t` that asks for `action` is in order.
///
/// The sequencer stays within its program and never goes back, and a
/// failure stays. A read is the one that the operation that is next needs.
/// Anything else asked of the caller carries out an operation of the
/// program, the one that was passed last, or restores a lifted protection
/// where the failed program stops. `Finished` and `Failed` are said at the
/// end of the program only, `Failed` if and only if the program has failed.
/// The sequencer takes a protection for lifted or restored exactly as the
/// caller was asked to lift or restore it.
pub open spec fn step_in_order(s: SequencerView, input: u32, t: SequencerView, action: Action) -> bool {
    &&& t.wf()
    &&& t.program == s.program
    &&& s.next <= t.next
    &&& s.failed ==> t.failed
    &&& t.cpu_lifted == cpu_lifted_after(s.cpu_lifted, action)
    &&& t.safety_lifted == safety_lifted_after(s.safety_lifted, action)
    &&& match action {
        Action::Read { reg } => t.reading && t.next < t.program.len() && reads_for(
            action,
            t.program[t.next],
        ),
        Action::Finished => t.done() && !t.failed,
        Action::Failed => t.done() && t.failed,
        _ => (!t.reading && s.next < t.next && carries_out(action, t.program[t.next - 1], input))
            || restores_at_stop(s, t, action),
    }
}

/// Whether the CPU's protection is lifted once the caller has done
/// `action`, where `lifted` says whether it was before.
pub open spec fn cpu_lifted_after(lifted: bool, action: Action) -> bool {
    match action {
        Action::CpuEndinit { locked } => !locked,
        _ => lifted,
    }
}

/// Whether the safety protection is lifted once the caller has done
/// `action`, where `lifted` says whether it was before.
pub open spec fn safety_lifted_after(lifted: bool, action: Action) -> bool {
    match action {
        Action::SafetyEndinit { locked } => !locked,
        _ => lifted,
    }
}

/// Every step is in order.
pub proof fn lemma_step_in_order(s: SequencerView, input: u32)
    requires
        s.wf(),
    ensures
        step_in_order(s, input, step_of(s, input).0, step_of(s, input).1),
    decreases s.program.len() - s.next,
{
    if s.next < s.program.len() {
        match s.program[s.next] {
            Op::WaitFor { reg, mask, expect } => {
                if s.reading && input & mask == expect {
                    lemma_step_in_order(s.advanced(), input);
                }
            },
            Op::Expect { reg, mask, expect } => {
                if s.reading {
                    lemma_step_in_order(s.failing(input & mask != expect).advanced(), input);
                }
            },
            Op::StopIfFailed => {
                if !s.failed {
                    lemma_step_in_order(s.advanced(), input);
                }
            },
            _ => {},
        }
    }
}

/// How far a sequencer is from the end of its program: three for each
/// operation left, less one if the read for the next one was asked for,
/// and one for each protection that is lifted.
pub open spec fn steps_left(s: SequencerView) -> int {
    3 * (s.program.len() - s.next) - (if s.reading {
        1int
    } else {
        0int
    }) + (if s.cpu_lifted {
        1int
    } else {
        0int
    }) + (if s.safety_lifted {
        1int
    } else {
        0int
    })
}

/// Whether the sequencer waits at `s` for the hardware, and `input` is
/// not what it waits for.
pub open spec fn waits_on(s: SequencerView, input: u32) -> bool {
    &&& 0 <= s.next < s.program.len()
    &&& s.reading
    &&& s.program[s.next] matches Op::WaitFor { reg, mask, expect }
    &&& input & mask != expect
}

/// Every step brings a sequencer nearer to the end of its program, but
/// for a wait that the hardware has not answered yet: there the sequencer
/// stays as it is and asks for the same read again. Nothing else holds a
/// program up, and nothing ends a wait but the hardware.
pub proof fn lemma_step_advances(s: SequencerView, input: u32)
    requires
        s.wf(),
        !s.done(),
    ensures
        waits_on(s, input) ==> step_of(s, input).0 == s && reads_for(
            step_of(s, input).1,
            s.program[s.next],
        ),
        !waits_on(s, input) ==> steps_left(step_of(s, input).0) < steps_left(s),
    decreases s.program.len() - s.next,
{
    match s.program[s.next] {
        Op::WaitFor { reg, mask, expect } => {
            if s.reading && input & mask == expect {
                lemma_steps_never_grow(s.advanced(), input);
            }
        },
        Op::Expect { reg, mask, expect } => {
            if s.reading {
                lemma_steps_never_grow(s.failing(input & mask != expect).advanced(), input);
            }
        },
        Op::StopIfFailed => {
            if !s.failed {
                lemma_steps_never_grow(s.advanced(), input);
            }
        },
        _ => {},
    }
}

/// A step from a state in which no read was asked for never leads away
/// from the end of the program.
proof fn lemma_steps_never_grow(s: SequencerView, input: u32)
    requires
        s.wf(),
        !s.reading,
    ensures
        steps_left(step_of(s, input).0) <= steps_left(s),
        s.done() || steps_left(step_of(s, input).0) < steps_left(s),
    decreases s.program.len() - s.next,
{
    if s.next < s.program.len() {
        match s.program[s.next] {
            Op::StopIfFailed => {
                if !s.failed {
                    lemma_steps_never_grow(s.advanced(), input);
                }
            },
            _ => {},
        }
    }
}

/// At its end a sequencer stays as it is.
pub proof fn lemma_done_stays_done(s: SequencerView, input: u32)
    requires
        s.wf(),
        s.done(),
    ensures
        step_of(s, input).0 == s,
        step_of(s, input).1 == if s.failed {
            Action::Failed
        } else {
            Action::Finished
        },
{
}

/// Where a sequencer stands after the steps for `inputs`, from `s` on, and
/// what it asked for on the way. A step gets the input at its place.
pub open spec fn run_of(s: SequencerView, inputs: Seq<u32>) -> (SequencerView, Seq<Action>)
    decreases inputs.len(),
{
    if inputs.len() == 0 {
        (s, Seq::<Action>::empty())
    } else {
        let (before, asked) = run_of(s, inputs.drop_last());
        let (after, action) = step_of(before, inputs.last());
        (after, asked.push(action))
    }
}

/// Whether the CPU's protection is lifted once the caller has done all of
/// `actions`, begun with the protection in place.
pub open spec fn cpu_lifted_by(actions: Seq<Action>) -> bool
    decreases actions.len(),
{
    if actions.len() == 0 {
        false
    } else {
        cpu_lifted_after(cpu_lifted_by(actions.drop_last()), actions.last())
    }
}

/// Whether the safety protection is lifted once the caller has done all of
/// `actions`, begun with the protection in place.
pub open spec fn safety_lifted_by(actions: Seq<Action>) -> bool
    decreases actions.len(),
{
    if actions.len() == 0 {
        false
    } else {
        safety_lifted_after(safety_lifted_by(actions.drop_last()), actions.last())
    }
}

/// However a program is carried out from its start, the sequencer takes a
/// protection for lifted exactly if the caller was last asked to lift it.
pub proof fn lemma_run_tracks_protection(program: Seq<Op>, inputs: Seq<u32>)
    ensures
        run_of(SequencerView::start(program), inputs).0.wf(),
        run_of(SequencerView::start(program), inputs).0.program == program,
        run_of(SequencerView::start(program), inputs).0.cpu_lifted == cpu_lifted_by(
            run_of(SequencerView::start(program), inputs).1,
        ),
        run_of(SequencerView::start(program), inputs).0.safety_lifted == safety_lifted_by(
            run_of(SequencerView::start(program), inputs).1,
        ),
    decreases inputs.len(),
{
    if inputs.len() > 0 {
        lemma_run_tracks_protection(program, inputs.drop_last());
        let (before, asked) = run_of(SequencerView::start(program), inputs.drop_last());
        lemma_step_in_order(before, inputs.last());
        let action = step_of(before, inputs.last()).1;
        assert(asked.push(action).drop_last() =~= asked);
    }
}

/// Whether `op` restores a protection: the safety protection if `safety`,
/// else the CPU's.
pub open spec fn is_restore(op: Op, safety: bool) -> bool {
    if safety {
        op == (Op::SafetyEndinit { locked: true })
    } else {
        op == (Op::CpuEndinit { locked: true })
    }
}

/// Whether `op` lifts a protection: the safety protection if `safety`,
/// else the CPU's.
pub open spec fn is_lift(op: Op, safety: bool) -> bool {
    if safety {
        op == (Op::SafetyEndinit { locked: false })
    } else {
        op == (Op::CpuEndinit { locked: false })
    }
}

/// Whether the sequencer takes a protection for lifted: the safety
/// protection if `safety`, else the CPU's.
pub open spec fn lifted(s: SequencerView, safety: bool) -> bool {
    if safety {
        s.safety_lifted
    } else {
        s.cpu_lifted
    }
}

/// Whether the operation at place `k` of `program` is the last word on a
/// protection: it restores it, and no operation behind it lifts it again.
pub open spec fn restores_for_good(program: Seq<Op>, k: int, safety: bool) -> bool {
    &&& 0 <= k < program.len()
    &&& is_restore(program[k], safety)
    &&& forall|i: int| k < i < program.len() ==> !is_lift(#[trigger] program[i], safety)
}

/// Behind an operation that restores a protection for good, the protection
/// is restored: no step leads past the operation and leaves the protection
/// lifted, whether the program goes on or fails and stops.
pub proof fn lemma_step_keeps_restored(s: SequencerView, input: u32, k: int, safety: bool)
    requires
        s.wf(),
        restores_for_good(s.program, k, safety),
        s.next > k ==> !lifted(s, safety),
    ensures
        step_of(s, input).0.next > k ==> !lifted(step_of(s, input).0, safety),
    decreases s.program.len() - s.next,
{
    if s.next < s.program.len() {
        match s.program[s.next] {
            Op::WaitFor { reg, mask, expect } => {
                if s.reading && input & mask == expect {
                    lemma_step_keeps_restored(s.advanced(), input, k, safety);
                }
            },
            Op::Expect { reg, mask, expect } => {
                if s.reading {
                    lemma_step_keeps_restored(
                        s.failing(input & mask != expect).advanced(),
                        input,
                        k,
                        safety,
                    );
                }
            },
            Op::StopIfFailed => {
                if !s.failed {
                    lemma_step_keeps_restored(s.advanced(), input, k, safety);
                }
            },
            _ => {},
        }
    }
}

/// However a program is carried out from its start: once the sequencer is
/// behind an operation that restores a protection for good, the caller was
/// last asked to restore that protection, not to lift it.
pub proof fn lemma_run_keeps_restored(program: Seq<Op>, inputs: Seq<u32>, k: int, safety: bool)
    requires
        restores_for_good(program, k, safety),
    ensures
        run_of(SequencerView::start(program), inputs).0.next > k ==> !(if safety {
            safety_lifted_by(run_of(SequencerView::start(program), inputs).1)
        } else {
            cpu_lifted_by(run_of(SequencerView::start(program), inputs).1)
        }),
        run_of(SequencerView::start(program), inputs).0.next > k ==> !lifted(
            run_of(SequencerView::start(program), inputs).0,
            safety,
        ),
    decreases inputs.len(),
{
    lemma_run_tracks_protection(program, inputs);
    if inputs.len() > 0 {
        lemma_run_keeps_restored(program, inputs.drop_last(), k, safety);
        lemma_run_tracks_protection(program, inputs.drop_last());
        let before = run_of(SequencerView::start(program), inputs.drop_last()).0;
        lemma_step_keeps_restored(before, inputs.last(), k, safety);
    }
}

/// What the caller is asked for when a protection is to be restored
/// (`locked` true) or lifted: the safety protection if `safety`, else the
/// CPU's.
pub open spec fn protection_action(safety: bool, locked: bool) -> Action {
    if safety {
        Action::SafetyEndinit { locked }
    } else {
        Action::CpuEndinit { locked }
    }
}

/// Whether a protection is lifted once the caller has done all of
/// `actions`, begun with the protection in place.
pub open spec fn lifted_by(actions: Seq<Action>, safety: bool) -> bool {
    if safety {
        safety_lifted_by(actions)
    } else {
        cpu_lifted_by(actions)
    }
}

/// Whether `actions` asked for a protection to be restored, and did not
/// ask for it to be lifted after that.
pub open spec fn restored_at_last(actions: Seq<Action>, safety: bool) -> bool {
    exists|i: int|
        0 <= i < actions.len() && #[trigger] actions[i] == protection_action(safety, true)
            && forall|j: int|
            i < j < actions.len() ==> #[trigger] actions[j] != protection_action(safety, false)
}

/// Where the caller was asked to lift a protection and the protection is
/// not lifted at the end, the caller was asked to restore it, and not to
/// lift it after that.
pub proof fn lemma_lift_is_answered(actions: Seq<Action>, k: int, safety: bool)
    requires
        0 <= k < actions.len(),
        actions[k] == protection_action(safety, false),
        !lifted_by(actions, safety),
    ensures
        restored_at_last(actions, safety),
    decreases actions.len(),
{
    let n = actions.len() - 1;
    let before = actions.drop_last();
    if actions[n] == protection_action(safety, true) {
    } else {
        assert(actions[n] != protection_action(safety, false));
        assert(lifted_by(before, safety) == lifted_by(actions, safety));
        assert(before[k] == actions[k]);
        lemma_lift_is_answered(before, k, safety);
        let i = choose|i: int|
            0 <= i < before.len() && #[trigger] before[i] == protection_action(safety, true)
                && forall|j: int|
                i < j < before.len() ==> #[trigger] before[j] != protection_action(safety, false);
        assert(actions[i] == before[i]);
        assert forall|j: int| i < j < actions.len() implies #[trigger] actions[j]
            != protection_action(safety, false) by {
            if j < n {
                assert(actions[j] == before[j]);
            }
        }
    }
}

/// A run asks for one action for each input.
pub proof fn lemma_run_length(s: SequencerView, inputs: Seq<u32>)
    ensures
        run_of(s, inputs).1.len() == inputs.len(),
    decreases inputs.len(),
{
    if inputs.len() > 0 {
        lemma_run_length(s, inputs.drop_last());
    }
}

/// What a run asks for at place `i` is what the step asks for that comes
/// after the run for the first `i` inputs.
pub proof fn lemma_run_asks_in_turn(s: SequencerView, inputs: Seq<u32>, i: int)
    requires
        0 <= i < inputs.len(),
    ensures
        run_of(s, inputs).1.len() == inputs.len(),
        run_of(s, inputs).1[i] == step_of(run_of(s, inputs.take(i)).0, inputs[i]).1,
    decreases inputs.len(),
{
    lemma_run_length(s, inputs);
    lemma_run_length(s, inputs.drop_last());
    if i < inputs.len() - 1 {
        lemma_run_asks_in_turn(s, inputs.drop_last(), i);
        assert(inputs.drop_last().take(i) =~= inputs.take(i));
    } else {
        assert(inputs.drop_last() =~= inputs.take(i));
    }
}

/// A program on its way through the hardware.
#[derive(Debug)]
pub struct Sequencer {
    program: Vec<Op>,
    next: usize,
    reading: bool,
    failed: bool,
    cpu_lifted: bool,
    safety_lifted: bool,
}

impl View for Sequencer {
    type V = SequencerView;

    closed spec fn view(&self) -> SequencerView {
        SequencerView {
            program: self.program@,
            next: self.next as int,
            reading: self.reading,
            failed: self.failed,
            cpu_lifted: self.cpu_lifted,
            safety_lifted: self.safety_lifted,
        }
    }
}

impl Sequencer {
    #[verifier::type_invariant]
    spec fn within_program(self) -> bool {
        self.next <= self.program.len()
    }

    /// The sequencer at the start of `program`.
    pub fn new(program: Vec<Op>) -> (sequencer: Sequencer)
        ensures
            sequencer@ == SequencerView::start(program@),
    {
        Sequencer {
            program,
            next: 0,
            reading: false,
            failed: false,
            cpu_lifted: false,
            safety_lifted: false,
        }
    }

    /// Whether the program is at its end: every further step says `Finished`
    /// or `Failed`.
    pub fn is_done(&self) -> (done: bool)
        ensures
            done == self@.done(),
            self@.wf(),
    {
        proof {
            use_type_invariant(self);
        }
        self.next >= self.program.len()
    }

    /// Whether a value that was read was not the one expected.
    pub fn has_failed(&self) -> (failed: bool)
        ensures
            failed == self@.failed,
    {
        self.failed
    }

    /// The program.
    pub fn program(&self) -> (program: &Vec<Op>)
        ensures
            program@ == self@.program,
    {
        &self.program
    }

    /// The next step. `input` is the value that was read, if the last step
    /// asked for a read; else it is not looked at.
    pub fn step(&mut self, input: u32) -> (action: Action)
        ensures
            (final(self)@, action) == step_of(old(self)@, input),
            final(self)@.wf(),
            final(self)@.program == old(self)@.program,
    {
        proof {
            use_type_invariant(&*self);
        }
        loop
            invariant
                self.next <= self.program.len(),
                self@.program == old(self)@.program,
                step_of(self@, input) == step_of(old(self)@, input),
            decreases self.program.len() - self.next,
        {
            if self.next >= self.program.len() {
                return if self.failed {
                    Action::Failed
                } else {
                    Action::Finished
                };
            }
            let op = self.program[self.next];
            match op {
                Op::Modify { reg, clear, set } => {
                    if self.reading {
                        self.reading = false;
                        self.next = self.next + 1;
                        return Action::Write { reg, value: (input & !clear) | set };
                    } else {
                        self.reading = true;
                        return Action::Read { reg };
                    }
                },
                Op::Write { reg, value } => {
                    self.reading = false;
                    self.next = self.next + 1;
                    return Action::Write { reg, value };
                },
                Op::WaitFor { reg, mask, expect } => {
                    if self.reading && input & mask == expect {
                        self.reading = false;
                        self.next = self.next + 1;
                    } else {
                        self.reading = true;
                        return Action::Read { reg };
                    }
                },
                Op::Delay { cycles } => {
                    self.reading = false;
                    self.next = self.next + 1;
                    return Action::Delay { cycles };
                },
                Op::Expect { reg, mask, expect } => {
                    if self.reading {
                        if input & mask != expect {
                            self.failed = true;
                        }
                        self.reading = false;
                        self.next = self.next + 1;
                    } else {
                        self.reading = true;
                        return Action::Read { reg };
                    }
                },
                Op::StopIfFailed => {
                    if !self.failed {
                        self.reading = false;
                        self.next = self.next + 1;
                    } else if self.safety_lifted {
                        self.safety_lifted = false;
                        return Action::SafetyEndinit { locked: true };
                    } else if self.cpu_lifted {
                        self.cpu_lifted = false;
                        return Action::CpuEndinit { locked: true };
                    } else {
                        self.reading = false;
                        self.next = self.program.len();
                        return Action::Failed;
                    }
                },
                Op::CpuEndinit { locked } => {
                    self.reading = false;
                    self.next = self.next + 1;
                    self.cpu_lifted = !locked;
                    return Action::CpuEndinit { locked };
                },
                Op::SafetyEndinit { locked } => {
                    self.reading = false;
                    self.next = self.next + 1;
                    self.safety_lifted = !locked;
                    return Action::SafetyEndinit { locked };
                },
            }
        }
    }
}


/// A program that did not run to its end: a value that was read was not the
/// one expected.
#[derive(Clone, Copy, Debug, PartialEq, Eq, Structural)]
pub struct ProgramFailed;

/// Something that is to be had once a program has been carried out: the
/// program on its way, and what it leads to.
#[derive(Debug)]
pub struct Pending<T> {
    sequencer: Sequencer,
    outcome: T,
}

impl<T> Pending<T> {
    /// Where the program stands.
    pub closed spec fn progress(&self) -> SequencerView {
        self.sequencer@
    }

    /// What the program leads to.
    pub closed spec fn outcome(&self) -> T {
        self.outcome
    }

    /// `outcome`, to be had once `program` has been carried out.
    pub fn new(program: Vec<Op>, outcome: T) -> (pending: Pending<T>)
        ensures
            pending.progress() == SequencerView::start(program@),
            pending.outcome() == outcome,
    {
        Pending { sequencer: Sequencer::new(program), outcome }
    }

    /// The program.
    pub fn program(&self) -> (program: &Vec<Op>)
        ensures
            program@ == self.progress().program,
    {
        self.sequencer.program()
    }

    /// The next step of the program; see `Sequencer::step`.
    pub fn step(&mut self, input: u32) -> (action: Action)
        ensures
            (final(self).progress(), action) == step_of(old(self).progress(), input),
            final(self).outcome() == old(self).outcome(),
    {
        self.sequencer.step(input)
    }

    /// Whether the program is at its end.
    pub fn is_done(&self) -> (done: bool)
        ensures
            done == self.progress().done(),
    {
        self.sequencer.is_done()
    }

    /// What the program has led to: the outcome, if the program is at its
    /// end and has not failed.
    pub fn finish(self) -> (result: Result<T, ProgramFailed>)
        requires
            self.progress().done(),
        ensures
            self.progress().failed ==> result is Err,
            !self.progress().failed ==> result == Ok::<T, ProgramFailed>(self.outcome()),
    {
        if self.sequencer.has_failed() {
            Err(ProgramFailed)
        } else {
            Ok(self.outcome)
        }
    }
}

} // verus!
