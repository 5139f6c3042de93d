//! Programs that run with the end of initialisation protection lifted.
//!
//! A protected register takes a write only while its protection is lifted.
//! The functions here put a program between the operation that lifts a
//! protection and the one that restores it. However such a program is
//! carried out by a sequencer, at its end the protection is restored: if
//! the program runs to its end, by the operation that stands there; if it
//! fails and stops, by the sequencer before it ends the program.

use vstd::prelude::*;
use crate::regs::Op;
use crate::sequencer::cpu_lifted_by;
use crate::sequencer::lemma_lift_is_answered;
use crate::sequencer::lemma_run_asks_in_turn;
use crate::sequencer::lemma_run_keeps_restored;
use crate::sequencer::lemma_run_tracks_protection;
use crate::sequencer::restored_at_last;
use crate::sequencer::restores_for_good;
use crate::sequencer::run_of;
use crate::sequencer::safety_lifted_by;
use crate::sequencer::step_of;
use crate::sequencer::SequencerView;

verus! {

/// `program` between the operations that lift and restore the CPU's protection.
pub open spec fn without_cpu_endinit(program: Seq<Op>) -> Seq<Op> {
    seq![Op::CpuEndinit { locked: false }] + program + seq![Op::CpuEndinit { locked: true }]
}

/// `program` between the operations that lift and restore the safety protection.
pub open spec fn without_safety_endinit(program: Seq<Op>) -> Seq<Op> {
    seq![Op::SafetyEndinit { locked: false }] + program + seq![Op::SafetyEndinit { locked: true }]
}

/// `program` with `first` before it and `last` behind it.
fn bracket(first: Op, program: Vec<Op>, last: Op) -> (bracketed: Vec<Op>)
    ensures
        bracketed@ == seq![first] + program@ + seq![last],
{
    let mut bracketed: Vec<Op> = Vec::new();
    bracketed.push(first);
    let mut i: usize = 0;
    while i < program.len()
        invariant
            0 <= i <= program@.len(),
            bracketed@ == seq![first] + program@.take(i as int),
        decreases program@.len() - i,
    {
        bracketed.push(program[i]);
        assert(program@.take(i as int).push(program@[i as int]) =~= program@.take(i as int + 1));
        i = i + 1;
    }
    assert(program@.take(program@.len() as int) =~= program@);
    bracketed.push(last);
    bracketed
}

/// The program that `f` gives, with both protections lifted around it: the
/// CPU's outside, the safety protection inside.
pub fn call_without_endinit(f: impl FnOnce() -> Vec<Op>) -> (program: Vec<Op>)
    requires
        f.requires(()),
    ensures
        exists|inner: Vec<Op>|
            f.ensures((), inner) && program@ == without_cpu_endinit(
                without_safety_endinit(inner@),
            ),
{
    let inner = call_without_safety_endinit(f);
    bracket(Op::CpuEndinit { locked: false }, inner, Op::CpuEndinit { locked: true })
}

/// The program that `f` gives, with the CPU's protection lifted around it.
pub fn call_without_cpu_endinit(f: impl FnOnce() -> Vec<Op>) -> (program: Vec<Op>)
    requires
        f.requires(()),
    ensures
        exists|inner: Vec<Op>| f.ensures((), inner) && program@ == without_cpu_endinit(inner@),
{
    let result = f();
    bracket(Op::CpuEndinit { locked: false }, result, Op::CpuEndinit { locked: true })
}

/// The program that `f` gives, with the safety protection lifted around it.
pub fn call_without_safety_endinit(f: impl FnOnce() -> Vec<Op>) -> (program: Vec<Op>)
    requires
        f.requires(()),
    ensures
        exists|inner: Vec<Op>| f.ensures((), inner) && program@ == without_safety_endinit(inner@),
{
    let result = f();
    bracket(Op::SafetyEndinit { locked: false }, result, Op::SafetyEndinit { locked: true })
}

/// A program under the CPU's protection ends with the protection
/// restored, however it is carried out and whatever the program is: at the
/// end, the caller was asked to restore the protection, and was not asked
/// to lift it after that.
pub proof fn lemma_cpu_endinit_is_restored(inner: Seq<Op>, inputs: Seq<u32>)
    ensures
        ({
            let start = SequencerView::start(without_cpu_endinit(inner));
            let (end, asked) = run_of(start, inputs);
            end.done() ==> !cpu_lifted_by(asked) && restored_at_last(asked, false)
        }),
{
    let program = without_cpu_endinit(inner);
    let start = SequencerView::start(program);
    assert(restores_for_good(program, program.len() - 1, false));
    lemma_run_keeps_restored(program, inputs, program.len() - 1, false);
    lemma_run_tracks_protection(program, inputs);
    if run_of(start, inputs).0.done() {
        lemma_run_asks_in_turn(start, inputs, 0);
        assert(inputs.take(0) =~= Seq::<u32>::empty());
        lemma_lift_is_answered(run_of(start, inputs).1, 0, false);
    }
}

/// A program under the safety protection ends with the protection
/// restored, however it is carried out and whatever the program is: at the
/// end, the caller was asked to restore the protection, and was not asked
/// to lift it after that.
pub proof fn lemma_safety_endinit_is_restored(inner: Seq<Op>, inputs: Seq<u32>)
    ensures
        ({
            let start = SequencerView::start(without_safety_endinit(inner));
            let (end, asked) = run_of(start, inputs);
            end.done() ==> !safety_lifted_by(asked) && restored_at_last(asked, true)
        }),
{
    let program = without_safety_endinit(inner);
    let start = SequencerView::start(program);
    assert(restores_for_good(program, program.len() - 1, true));
    lemma_run_keeps_restored(program, inputs, program.len() - 1, true);
    lemma_run_tracks_protection(program, inputs);
    if run_of(start, inputs).0.done() {
        lemma_run_asks_in_turn(start, inputs, 0);
        assert(inputs.take(0) =~= Seq::<u32>::empty());
        lemma_lift_is_answered(run_of(start, inputs).1, 0, true);
    }
}

/// A program under both protections ends with both restored, however it
/// is carried out and whatever the program is: at the end, the caller was
/// asked to restore each, and was not asked to lift it after that.
pub proof fn lemma_endinit_is_restored(inner: Seq<Op>, inputs: Seq<u32>)
    ensures
        ({
            let program = without_cpu_endinit(without_safety_endinit(inner));
            let (end, asked) = run_of(SequencerView::start(program), inputs);
            end.done() ==> {
                &&& !cpu_lifted_by(asked)
                &&& !safety_lifted_by(asked)
                &&& restored_at_last(asked, false)
                &&& restored_at_last(asked, true)
            }
        }),
{
    let program = without_cpu_endinit(without_safety_endinit(inner));
    let start = SequencerView::start(program);
    assert(restores_for_good(program, program.len() - 1, false));
    assert(restores_for_good(program, program.len() - 2, true));
    lemma_run_keeps_restored(program, inputs, program.len() - 1, false);
    lemma_run_keeps_restored(program, inputs, program.len() - 2, true);
    lemma_run_tracks_protection(program, inputs);
    if run_of(start, inputs).0.done() {
        let asked = run_of(start, inputs).1;
        lemma_run_asks_in_turn(start, inputs, 0);
        assert(inputs.take(0) =~= Seq::<u32>::empty());
        lemma_lift_is_answered(asked, 0, false);
        let first = inputs.take(1);
        assert(first.drop_last() =~= Seq::<u32>::empty());
        assert(run_of(start, first).0 == step_of(start, first.last()).0) by {
            reveal_with_fuel(run_of, 2);
        }
        if inputs.len() >= 2 {
            lemma_run_asks_in_turn(start, inputs, 1);
            lemma_lift_is_answered(asked, 1, true);
        } else {
            assert(first =~= inputs);
        }
    }
}

} // verus!
