//! What is done to the registers of a node, as operations of a program.
//!
//! The effects of a node collect the program that configures it, and keep
//! track of where the program has brought the node: registers that the
//! controller protects are written only between the operations that enable
//! the configuration change and those that disable it.

use vstd::prelude::*;
use crate::bits::bit;
use crate::bits::bit_of;
use crate::bits::field_bits;
use crate::bits::field_mask;
use crate::bits::field_of;
use crate::bits::get_bit;
use crate::bits::get_field;
use crate::can::baud_rate::DataBitTiming;
use crate::can::baud_rate::NominalBitTiming;
use crate::can::can_node::data_field_bytes;
use crate::can::can_node::data_field_size_in_bytes;
use crate::can::can_node::DataFieldSize;
use crate::can::can_node::Interrupt;
use crate::can::can_node::ReadFrom;
use crate::can::can_node::RxBufferId;
use crate::can::can_node::RxFifoMode;
use crate::can::can_node::RxSel;
use crate::can::can_node::TxBufferId;
use crate::can::can_node::TxMode;
use crate::bits::low_mask;
use crate::regs::lemma_narrow_values;
use crate::regs::lemma_update_fields;
use crate::regs::register_after;
use crate::regs::FieldUpdate;
use crate::regs::Op;
use crate::regs::Reg;

verus! {

/// Mask of the CC control register: the bit that requests
/// initialisation, bit 0.
pub const CCCR_INIT: u32 = 1;

/// Mask of the CC control register: the bit that enables the
/// configuration change, bit 1.
pub const CCCR_CCE: u32 = 2;

/// Mask of the CC control register: both handshake bits, bits 0 and 1.
pub const CCCR_HANDSHAKE: u32 = 3;

/// Number of a bit of the CC control register: FD operation.
pub const CCCR_FDOE: u32 = 8;

/// Number of a bit of the CC control register: bit rate switching.
pub const CCCR_BRSE: u32 = 9;

/// Number of a bit of the CC control register: transmit pause.
pub const CCCR_TXP: u32 = 14;

/// Where a program has brought a node.
#[derive(Clone, Copy, Debug, PartialEq, Eq, Structural)]
pub enum NodePhase {
    /// Taken from the module; nothing is known of the hardware.
    Claimed,
    /// Initialisation has been requested.
    InitRequested,
    /// The hardware has confirmed initialisation.
    InitSet,
    /// The configuration change is enabled: protected registers may be written.
    ConfigurationChangeEnabled,
    /// The end of the configuration change has been requested.
    CceClearRequested,
    /// The hardware has confirmed the end of the configuration change.
    CceCleared,
    /// The end of initialisation has been requested.
    InitClearRequested,
    /// The hardware has confirmed the end of initialisation: the node runs.
    Configured,
}

/// Whether the controller accepts writes to `reg` only while the
/// configuration change is enabled.
pub open spec fn is_protected(reg: Reg) -> bool {
    ||| reg == Reg::Nbtp
    ||| reg == Reg::Dbtp
    ||| reg == Reg::Tdcr
    ||| reg == Reg::Rxesc
    ||| reg == Reg::Rxf0c
    ||| reg == Reg::Rxf1c
    ||| reg == Reg::Rxbc
    ||| reg == Reg::Txesc
    ||| reg == Reg::Txbc
    ||| reg == Reg::Txefc
    ||| reg == Reg::Sidfc
    ||| reg == Reg::Xidfc
    ||| reg == Reg::Gfc
}

/// The phase after a change of the CC control register, if the change is
/// in order in phase `phase`.
///
/// The handshake bits are changed alone and in the order of the protocol;
/// a node that was only claimed may clear them, to leave a configuration
/// that was begun before. The other bits are protected.
pub open spec fn phase_after_control(phase: NodePhase, clear: u32, set: u32) -> Option<NodePhase> {
    if clear == CCCR_CCE && set == 0 {
        if phase == NodePhase::ConfigurationChangeEnabled {
            Some(NodePhase::CceClearRequested)
        } else if phase == NodePhase::Claimed {
            Some(NodePhase::Claimed)
        } else {
            None
        }
    } else if clear == CCCR_INIT && set == 0 {
        if phase == NodePhase::CceCleared {
            Some(NodePhase::InitClearRequested)
        } else if phase == NodePhase::Claimed {
            Some(NodePhase::Claimed)
        } else {
            None
        }
    } else if clear == CCCR_INIT && set == CCCR_INIT {
        if phase == NodePhase::Claimed {
            Some(NodePhase::InitRequested)
        } else {
            None
        }
    } else if clear == CCCR_HANDSHAKE && set == CCCR_HANDSHAKE {
        if phase == NodePhase::InitSet {
            Some(NodePhase::ConfigurationChangeEnabled)
        } else {
            None
        }
    } else if (clear | set) & CCCR_HANDSHAKE == 0 && phase == NodePhase::ConfigurationChangeEnabled {
        Some(phase)
    } else {
        None
    }
}

/// The phase after a wait for the CC control register, if the wait is in
/// order in phase `phase`.
pub open spec fn phase_after_wait(phase: NodePhase, mask: u32, expect: u32) -> Option<NodePhase> {
    if mask == CCCR_INIT && expect == CCCR_INIT {
        if phase == NodePhase::InitRequested {
            Some(NodePhase::InitSet)
        } else {
            None
        }
    } else if mask == CCCR_CCE && expect == 0 {
        if phase == NodePhase::CceClearRequested {
            Some(NodePhase::CceCleared)
        } else if phase == NodePhase::Claimed {
            Some(NodePhase::Claimed)
        } else {
            None
        }
    } else if mask == CCCR_INIT && expect == 0 {
        if phase == NodePhase::InitClearRequested {
            Some(NodePhase::Configured)
        } else if phase == NodePhase::Claimed {
            Some(NodePhase::Claimed)
        } else {
            None
        }
    } else {
        None
    }
}

/// The phase after `op`, if `op` is in order in phase `phase`.
pub open spec fn phase_after(phase: NodePhase, op: Op) -> Option<NodePhase> {
    match op {
        Op::Modify { reg, clear, set } => if reg == Reg::Cccr {
            phase_after_control(phase, clear, set)
        } else if is_protected(reg) && phase != NodePhase::ConfigurationChangeEnabled {
            None
        } else {
            Some(phase)
        },
        Op::Write { reg, value } => if reg == Reg::Cccr || (is_protected(reg) && phase
            != NodePhase::ConfigurationChangeEnabled) {
            None
        } else {
            Some(phase)
        },
        Op::WaitFor { reg, mask, expect } => if reg == Reg::Cccr {
            phase_after_wait(phase, mask, expect)
        } else {
            Some(phase)
        },
        _ => Some(phase),
    }
}

/// The phase after all of `program`, begun in phase `start`, if every
/// operation of it is in order where it stands.
pub open spec fn phase_through(program: Seq<Op>, start: NodePhase) -> Option<NodePhase>
    decreases program.len(),
{
    if program.len() == 0 {
        Some(start)
    } else {
        match phase_through(program.drop_last(), start) {
            Some(phase) => phase_after(phase, program.last()),
            None => None,
        }
    }
}

/// The operation that makes `update` to `reg`.
pub open spec fn update_op(reg: Reg, update: FieldUpdate) -> Op {
    Op::Modify { reg, clear: update.clear, set: update.set }
}

/// The operation that stores `value` in the field of `reg` at `offset`.
pub open spec fn field_op(reg: Reg, offset: u32, width: u32, value: u32) -> Op {
    update_op(reg, FieldUpdate::none().with(offset, width, value))
}

/// The operation that sets bit `index` of `reg` to `on`.
pub open spec fn flag_op(reg: Reg, index: u32, on: bool) -> Op {
    update_op(reg, FieldUpdate::none().with_flag(index, on))
}

/// The change of the nominal bit timing register for `timing`.
pub open spec fn nominal_timing_update(timing: NominalBitTiming) -> FieldUpdate {
    FieldUpdate::none().with(16, 9, timing.brp as u32).with(25, 7, timing.sjw as u32).with(
        8,
        8,
        timing.tseg1 as u32,
    ).with(0, 7, timing.tseg2 as u32)
}

/// The change of the data phase bit timing register for `timing`.
pub open spec fn data_timing_update(timing: DataBitTiming) -> FieldUpdate {
    FieldUpdate::none().with(16, 5, timing.brp as u32).with(0, 4, timing.sjw as u32).with(
        8,
        5,
        timing.tseg1 as u32,
    ).with(4, 4, timing.tseg2 as u32)
}

/// The change of the CC control register for a frame format.
pub open spec fn frame_mode_update(fdoe: bool, brse: bool) -> FieldUpdate {
    FieldUpdate::none().with_flag(CCCR_FDOE, fdoe).with_flag(CCCR_BRSE, brse)
}

/// The operations that bring a node from `Claimed` to
/// `ConfigurationChangeEnabled`, where the CC control register held `cccr`
/// on entry. If initialisation was requested there already, the request and
/// the configuration change are withdrawn first.
pub open spec fn enable_change_ops(cccr: u32) -> Seq<Op> {
    let leave = seq![
        Op::Modify { reg: Reg::Cccr, clear: CCCR_CCE, set: 0 },
        Op::WaitFor { reg: Reg::Cccr, mask: CCCR_CCE, expect: 0 },
        Op::Modify { reg: Reg::Cccr, clear: CCCR_INIT, set: 0 },
        Op::WaitFor { reg: Reg::Cccr, mask: CCCR_INIT, expect: 0 },
    ];
    let enter = seq![
        Op::Modify { reg: Reg::Cccr, clear: CCCR_INIT, set: CCCR_INIT },
        Op::WaitFor { reg: Reg::Cccr, mask: CCCR_INIT, expect: CCCR_INIT },
        Op::Modify { reg: Reg::Cccr, clear: CCCR_HANDSHAKE, set: CCCR_HANDSHAKE },
    ];
    if cccr & CCCR_INIT != 0 {
        leave + enter
    } else {
        enter
    }
}

/// The operations that bring a node from `ConfigurationChangeEnabled` to
/// `Configured`.
pub open spec fn disable_change_ops() -> Seq<Op> {
    seq![
        Op::Modify { reg: Reg::Cccr, clear: CCCR_CCE, set: 0 },
        Op::WaitFor { reg: Reg::Cccr, mask: CCCR_CCE, expect: 0 },
        Op::Modify { reg: Reg::Cccr, clear: CCCR_INIT, set: 0 },
        Op::WaitFor { reg: Reg::Cccr, mask: CCCR_INIT, expect: 0 },
    ]
}

/// One more operation brings a program where it brings the phase that the
/// program had reached.
pub proof fn lemma_phase_step(program: Seq<Op>, start: NodePhase, op: Op)
    ensures
        phase_through(program.push(op), start) == match phase_through(program, start) {
            Some(phase) => phase_after(phase, op),
            None => None,
        },
{
    assert(program.push(op).drop_last() =~= program);
    assert(program.push(op).last() == op);
}

/// What the CC control register holds after `program`, if it held `cccr`
/// before and holds whatever was written to it last.
pub open spec fn control_after(program: Seq<Op>, cccr: u32) -> u32 {
    register_after(program, Reg::Cccr, cccr)
}

/// What a phase says of the handshake bits of the CC control register.
pub open spec fn phase_holds(phase: NodePhase, cccr: u32) -> bool {
    match phase {
        NodePhase::Claimed => true,
        NodePhase::InitRequested => cccr & CCCR_INIT == CCCR_INIT,
        NodePhase::InitSet => cccr & CCCR_INIT == CCCR_INIT,
        NodePhase::ConfigurationChangeEnabled => cccr & CCCR_HANDSHAKE == CCCR_HANDSHAKE,
        NodePhase::CceClearRequested => cccr & CCCR_HANDSHAKE == CCCR_INIT,
        NodePhase::CceCleared => cccr & CCCR_HANDSHAKE == CCCR_INIT,
        NodePhase::InitClearRequested => cccr & CCCR_HANDSHAKE == 0,
        NodePhase::Configured => cccr & CCCR_HANDSHAKE == 0,
    }
}

/// Whether `op` writes to a register that the controller protects.
pub open spec fn writes_protected(op: Op) -> bool {
    match op {
        Op::Modify { reg, clear, set } => is_protected(reg),
        Op::Write { reg, value } => is_protected(reg),
        _ => false,
    }
}

/// What the changes of the handshake do to the handshake bits.
proof fn lemma_handshake_bits(c: u32, clear: u32, set: u32)
    by (bit_vector)
    ensures
        ((c & !1u32) | 1u32) & 1 == 1,
        ((c & !3u32) | 3u32) & 3 == 3,
        c & 3 == 3 ==> ((c & !2u32) | 0u32) & 3 == 1,
        c & 3 == 1 ==> ((c & !1u32) | 0u32) & 3 == 0,
        (clear | set) & 3 == 0 ==> ((c & !clear) | set) & 3 == c & 3,
        c & 3 == 3 ==> c & 1 == 1,
{
}

/// A program whose operations are all in order leaves the handshake bits
/// of the CC control register as the phase that it reaches says, in a
/// controller that holds what was written to it last.
pub proof fn lemma_phase_holds(program: Seq<Op>, cccr: u32)
    requires
        phase_through(program, NodePhase::Claimed) is Some,
    ensures
        phase_holds(phase_through(program, NodePhase::Claimed)->0, control_after(program, cccr)),
    decreases program.len(),
{
    if program.len() > 0 {
        let head = program.drop_last();
        lemma_phase_holds(head, cccr);
        let before = control_after(head, cccr);
        match program.last() {
            Op::Modify { reg, clear, set } => {
                lemma_handshake_bits(before, clear, set);
            },
            _ => {},
        }
    }
}

/// A program whose operations are all in order is so up to each of its
/// operations, and each operation is in order in the phase reached before it.
pub proof fn lemma_phase_of_prefix(program: Seq<Op>, start: NodePhase, i: int)
    requires
        phase_through(program, start) is Some,
        0 <= i < program.len(),
    ensures
        phase_through(program.take(i), start) is Some,
        phase_after(phase_through(program.take(i), start)->0, program[i]) is Some,
    decreases program.len(),
{
    let head = program.drop_last();
    assert(head =~= program.take(program.len() - 1));
    if i < program.len() - 1 {
        lemma_phase_of_prefix(head, start, i);
        assert(head.take(i) =~= program.take(i));
    }
}

/// A protected register is written only while the configuration change is
/// enabled: where a program whose operations are all in order writes to
/// one, both handshake bits of the CC control register are set, in a
/// controller that holds what was written to it last.
pub proof fn lemma_protected_writes_are_guarded(program: Seq<Op>, cccr: u32, i: int)
    requires
        phase_through(program, NodePhase::Claimed) is Some,
        0 <= i < program.len(),
        writes_protected(program[i]),
    ensures
        phase_through(program.take(i), NodePhase::Claimed) == Some(
            NodePhase::ConfigurationChangeEnabled,
        ),
        control_after(program.take(i), cccr) & CCCR_HANDSHAKE == CCCR_HANDSHAKE,
{
    lemma_phase_of_prefix(program, NodePhase::Claimed, i);
    lemma_phase_holds(program.take(i), cccr);
}

/// The nominal bit timing register holds a timing in its four fields: the
/// prescaler in bits 24 to 16, the jump width in bits 31 to 25, the first
/// segment in bits 15 to 8 and the second in bits 6 to 0, each cut to its
/// field.
pub proof fn lemma_nominal_timing_fields(timing: NominalBitTiming, raw: u32)
    ensures
        field_of(nominal_timing_update(timing).apply(raw), 16, 9) == timing.brp as u32 & low_mask(9),
        field_of(nominal_timing_update(timing).apply(raw), 25, 7) == timing.sjw as u32 & low_mask(7),
        field_of(nominal_timing_update(timing).apply(raw), 8, 8) == timing.tseg1 as u32,
        field_of(nominal_timing_update(timing).apply(raw), 0, 7) == timing.tseg2 as u32 & low_mask(
            7,
        ),
        timing.brp <= 0x1ff ==> field_of(nominal_timing_update(timing).apply(raw), 16, 9)
            == timing.brp,
        timing.sjw <= 0x7f ==> field_of(nominal_timing_update(timing).apply(raw), 25, 7)
            == timing.sjw,
        timing.tseg2 <= 0x7f ==> field_of(nominal_timing_update(timing).apply(raw), 0, 7)
            == timing.tseg2,
{
    let u0 = FieldUpdate::none();
    let u1 = u0.with(16, 9, timing.brp as u32);
    let u2 = u1.with(25, 7, timing.sjw as u32);
    let u3 = u2.with(8, 8, timing.tseg1 as u32);
    lemma_narrow_values();
    lemma_update_fields(u0, raw, 16, 9, timing.brp as u32, 0, 0);
    lemma_update_fields(u1, raw, 25, 7, timing.sjw as u32, 16, 9);
    lemma_update_fields(u2, raw, 8, 8, timing.tseg1 as u32, 16, 9);
    lemma_update_fields(u2, raw, 8, 8, timing.tseg1 as u32, 25, 7);
    lemma_update_fields(u3, raw, 0, 7, timing.tseg2 as u32, 16, 9);
    lemma_update_fields(u3, raw, 0, 7, timing.tseg2 as u32, 25, 7);
    lemma_update_fields(u3, raw, 0, 7, timing.tseg2 as u32, 8, 8);
}

/// The data phase bit timing register holds a timing in its four fields:
/// the prescaler in bits 20 to 16, the jump width in bits 3 to 0, the first
/// segment in bits 12 to 8 and the second in bits 7 to 4, each cut to its
/// field.
pub proof fn lemma_data_timing_fields(timing: DataBitTiming, raw: u32)
    ensures
        field_of(data_timing_update(timing).apply(raw), 16, 5) == timing.brp as u32 & low_mask(5),
        field_of(data_timing_update(timing).apply(raw), 0, 4) == timing.sjw as u32 & low_mask(4),
        field_of(data_timing_update(timing).apply(raw), 8, 5) == timing.tseg1 as u32 & low_mask(5),
        field_of(data_timing_update(timing).apply(raw), 4, 4) == timing.tseg2 as u32 & low_mask(4),
        timing.brp <= 0x1f ==> field_of(data_timing_update(timing).apply(raw), 16, 5)
            == timing.brp,
        timing.sjw <= 0xf ==> field_of(data_timing_update(timing).apply(raw), 0, 4) == timing.sjw,
        timing.tseg1 <= 0x1f ==> field_of(data_timing_update(timing).apply(raw), 8, 5)
            == timing.tseg1,
        timing.tseg2 <= 0xf ==> field_of(data_timing_update(timing).apply(raw), 4, 4)
            == timing.tseg2,
{
    let u0 = FieldUpdate::none();
    let u1 = u0.with(16, 5, timing.brp as u32);
    let u2 = u1.with(0, 4, timing.sjw as u32);
    let u3 = u2.with(8, 5, timing.tseg1 as u32);
    lemma_narrow_values();
    lemma_update_fields(u0, raw, 16, 5, timing.brp as u32, 0, 0);
    lemma_update_fields(u1, raw, 0, 4, timing.sjw as u32, 16, 5);
    lemma_update_fields(u2, raw, 8, 5, timing.tseg1 as u32, 16, 5);
    lemma_update_fields(u2, raw, 8, 5, timing.tseg1 as u32, 0, 4);
    lemma_update_fields(u3, raw, 4, 4, timing.tseg2 as u32, 16, 5);
    lemma_update_fields(u3, raw, 4, 4, timing.tseg2 as u32, 0, 4);
    lemma_update_fields(u3, raw, 4, 4, timing.tseg2 as u32, 8, 5);
}

/// A change of the CC control register that leaves the handshake bits alone.
proof fn lemma_control_flags(index: u32, on: bool)
    requires
        2 <= index < 32,
    ensures
        (FieldUpdate::none().with_flag(index, on).clear | FieldUpdate::none().with_flag(
            index,
            on,
        ).set) & CCCR_HANDSHAKE == 0,
{
    let v: u32 = if on { 1 } else { 0 };
    let m = field_mask(index, 1);
    let b = field_bits(index, 1, v);
    assert(((0u32 | m) | ((0u32 & !m) | b)) & 3 == 0) by (bit_vector)
        requires
            2 <= index < 32,
            m == field_mask(index, 1),
            b == field_bits(index, 1, v),
    ;
}

/// The change for a frame format leaves the handshake bits alone.
proof fn lemma_frame_mode_update(fdoe: bool, brse: bool)
    ensures
        (frame_mode_update(fdoe, brse).clear | frame_mode_update(fdoe, brse).set) & CCCR_HANDSHAKE
            == 0,
{
    let f: u32 = if fdoe { 1 } else { 0 };
    let b: u32 = if brse { 1 } else { 0 };
    let m8 = field_mask(8, 1);
    let b8 = field_bits(8, 1, f);
    let m9 = field_mask(9, 1);
    let b9 = field_bits(9, 1, b);
    assert((((0u32 | m8) | m9) | ((((0u32 & !m8) | b8) & !m9) | b9)) & 3 == 0) by (bit_vector)
        requires
            m8 == field_mask(8, 1),
            b8 == field_bits(8, 1, f),
            m9 == field_mask(9, 1),
            b9 == field_bits(9, 1, b),
    ;
}

/// The program that configures a node, as far as it has been put together.
#[derive(Debug)]
pub struct NodeEffects {
    program: Vec<Op>,
    phase: NodePhase,
}

impl NodeEffects {
    /// The program so far.
    pub closed spec fn program(&self) -> Seq<Op> {
        self.program@
    }

    /// Where the program so far brings the node.
    pub closed spec fn phase(&self) -> NodePhase {
        self.phase
    }

    /// What holds of all effects: every operation of the program is in
    /// order where it stands, and the program brings the node to `phase`.
    pub open spec fn wf(&self) -> bool {
        phase_through(self.program(), NodePhase::Claimed) == Some(self.phase())
    }

    /// The effects of a node that was just claimed: no operation yet.
    pub fn new() -> (effects: NodeEffects)
        ensures
            effects.wf(),
            effects.program() == Seq::<Op>::empty(),
            effects.phase() == NodePhase::Claimed,
    {
        NodeEffects { program: Vec::new(), phase: NodePhase::Claimed }
    }

    /// Where the program so far brings the node.
    pub fn current_phase(&self) -> (phase: NodePhase)
        ensures
            phase == self.phase(),
    {
        self.phase
    }

    /// The program so far.
    pub fn into_program(self) -> (program: Vec<Op>)
        ensures
            program@ == self.program(),
    {
        self.program
    }

    /// Adds `op`, which brings the node to `next`.
    fn push(&mut self, op: Op, next: NodePhase)
        requires
            old(self).wf(),
            phase_after(old(self).phase(), op) == Some(next),
        ensures
            final(self).wf(),
            final(self).program() == old(self).program().push(op),
            final(self).phase() == next,
    {
        proof {
            lemma_phase_step(self.program@, NodePhase::Claimed, op);
        }
        self.program.push(op);
        self.phase = next;
    }

    /// Adds the operation that makes `update` to the protected register `reg`.
    fn update_protected(&mut self, reg: Reg, update: FieldUpdate)
        requires
            old(self).wf(),
            old(self).phase() == NodePhase::ConfigurationChangeEnabled,
            reg != Reg::Cccr,
        ensures
            final(self).wf(),
            final(self).program() == old(self).program().push(update_op(reg, update)),
            final(self).phase() == old(self).phase(),
    {
        self.push(update.on(reg), NodePhase::ConfigurationChangeEnabled);
    }

    /// Adds the operation that makes `update` to the register `reg`, which
    /// is not protected.
    fn update_free(&mut self, reg: Reg, update: FieldUpdate)
        requires
            old(self).wf(),
            reg != Reg::Cccr,
            !is_protected(reg),
        ensures
            final(self).wf(),
            final(self).program() == old(self).program().push(update_op(reg, update)),
            final(self).phase() == old(self).phase(),
    {
        let phase = self.phase;
        self.push(update.on(reg), phase);
    }

    /// Adds the operation that makes `update` to the CC control register,
    /// where `update` leaves the handshake bits alone.
    fn update_control(&mut self, update: FieldUpdate)
        requires
            old(self).wf(),
            old(self).phase() == NodePhase::ConfigurationChangeEnabled,
            (update.clear | update.set) & CCCR_HANDSHAKE == 0,
        ensures
            final(self).wf(),
            final(self).program() == old(self).program().push(update_op(Reg::Cccr, update)),
            final(self).phase() == old(self).phase(),
    {
        let clear = update.clear;
        let set = update.set;
        assert(clear != 1 && clear != 2 && clear != 3) by (bit_vector)
            requires
                (clear | set) & 3 == 0,
        ;
        self.push(update.on(Reg::Cccr), NodePhase::ConfigurationChangeEnabled);
    }

    /// Adds `ops`, which no node phase forbids and which leave the phase as
    /// it is.
    pub fn append_neutral(&mut self, ops: &Vec<Op>)
        requires
            old(self).wf(),
            forall|i: int, phase: NodePhase|
                0 <= i < ops@.len() ==> #[trigger] phase_after(phase, ops@[i]) == Some(phase),
        ensures
            final(self).wf(),
            final(self).program() == old(self).program() + ops@,
            final(self).phase() == old(self).phase(),
    {
        let phase = self.phase;
        let mut i: usize = 0;
        while i < ops.len()
            invariant
                0 <= i <= ops@.len(),
                self.wf(),
                self.phase() == phase,
                self.program() == old(self).program() + ops@.take(i as int),
                forall|k: int, p: NodePhase|
                    0 <= k < ops@.len() ==> #[trigger] phase_after(p, ops@[k]) == Some(p),
            decreases ops@.len() - i,
        {
            let ghost before = self.program();
            self.push(ops[i], phase);
            assert(before.push(ops@[i as int]) =~= old(self).program() + ops@.take(i as int + 1));
            i = i + 1;
        }
        assert(ops@.take(ops@.len() as int) =~= ops@);
    }

    /// Brings the node from `Claimed` to `ConfigurationChangeEnabled`.
    /// `cccr` is what the CC control register held when the node was taken.
    pub fn enable_configuration_change(&mut self, cccr: u32)
        requires
            old(self).wf(),
            old(self).phase() == NodePhase::Claimed,
        ensures
            final(self).wf(),
            final(self).program() == old(self).program() + enable_change_ops(cccr),
            final(self).phase() == NodePhase::ConfigurationChangeEnabled,
    {
        if cccr & CCCR_INIT != 0 {
            self.push(Op::Modify { reg: Reg::Cccr, clear: CCCR_CCE, set: 0 }, NodePhase::Claimed);
            self.push(
                Op::WaitFor { reg: Reg::Cccr, mask: CCCR_CCE, expect: 0 },
                NodePhase::Claimed,
            );
            self.push(Op::Modify { reg: Reg::Cccr, clear: CCCR_INIT, set: 0 }, NodePhase::Claimed);
            self.push(
                Op::WaitFor { reg: Reg::Cccr, mask: CCCR_INIT, expect: 0 },
                NodePhase::Claimed,
            );
        }
        self.push(
            Op::Modify { reg: Reg::Cccr, clear: CCCR_INIT, set: CCCR_INIT },
            NodePhase::InitRequested,
        );
        self.push(
            Op::WaitFor { reg: Reg::Cccr, mask: CCCR_INIT, expect: CCCR_INIT },
            NodePhase::InitSet,
        );
        self.push(
            Op::Modify { reg: Reg::Cccr, clear: CCCR_HANDSHAKE, set: CCCR_HANDSHAKE },
            NodePhase::ConfigurationChangeEnabled,
        );
        assert(self.program() =~= old(self).program() + enable_change_ops(cccr));
    }

    /// Brings the node from `ConfigurationChangeEnabled` to `Configured`.
    pub fn disable_configuration_change(&mut self)
        requires
            old(self).wf(),
            old(self).phase() == NodePhase::ConfigurationChangeEnabled,
        ensures
            final(self).wf(),
            final(self).program() == old(self).program() + disable_change_ops(),
            final(self).phase() == NodePhase::Configured,
    {
        self.push(
            Op::Modify { reg: Reg::Cccr, clear: CCCR_CCE, set: 0 },
            NodePhase::CceClearRequested,
        );
        self.push(
            Op::WaitFor { reg: Reg::Cccr, mask: CCCR_CCE, expect: 0 },
            NodePhase::CceCleared,
        );
        self.push(
            Op::Modify { reg: Reg::Cccr, clear: CCCR_INIT, set: 0 },
            NodePhase::InitClearRequested,
        );
        self.push(
            Op::WaitFor { reg: Reg::Cccr, mask: CCCR_INIT, expect: 0 },
            NodePhase::Configured,
        );
        assert(self.program() =~= old(self).program() + disable_change_ops());
    }

    /// Sets the nominal bit timing.
    pub fn set_nominal_bit_timing(&mut self, timing: &NominalBitTiming)
        requires
            old(self).wf(),
            old(self).phase() == NodePhase::ConfigurationChangeEnabled,
        ensures
            final(self).wf(),
            final(self).program() == old(self).program().push(
                update_op(Reg::Nbtp, nominal_timing_update(*timing)),
            ),
            final(self).phase() == old(self).phase(),
    {
        let update = FieldUpdate::new().field(16, 9, timing.brp as u32).field(
            25,
            7,
            timing.sjw as u32,
        ).field(8, 8, timing.tseg1 as u32).field(0, 7, timing.tseg2 as u32);
        self.update_protected(Reg::Nbtp, update);
    }

    /// Sets the bit timing of the data phase.
    pub fn set_data_bit_timing(&mut self, timing: &DataBitTiming)
        requires
            old(self).wf(),
            old(self).phase() == NodePhase::ConfigurationChangeEnabled,
        ensures
            final(self).wf(),
            final(self).program() == old(self).program().push(
                update_op(Reg::Dbtp, data_timing_update(*timing)),
            ),
            final(self).phase() == old(self).phase(),
    {
        let update = FieldUpdate::new().field(16, 5, timing.brp as u32).field(
            0,
            4,
            timing.sjw as u32,
        ).field(8, 5, timing.tseg1 as u32).field(4, 4, timing.tseg2 as u32);
        self.update_protected(Reg::Dbtp, update);
    }

    /// Switches the transmitter delay compensation on, with an offset of `delay`.
    pub fn set_transceiver_delay_compensation_offset(&mut self, delay: u8)
        requires
            old(self).wf(),
            old(self).phase() == NodePhase::ConfigurationChangeEnabled,
        ensures
            final(self).wf(),
            final(self).program() == old(self).program().push(flag_op(Reg::Dbtp, 23, true)).push(
                field_op(Reg::Tdcr, 8, 7, delay as u32),
            ),
            final(self).phase() == old(self).phase(),
    {
        self.update_protected(Reg::Dbtp, FieldUpdate::new().flag(23, true));
        self.update_protected(Reg::Tdcr, FieldUpdate::new().field(8, 7, delay as u32));
    }

    /// Sets the frame format: FD operation and bit rate switching.
    pub fn set_frame_mode(&mut self, fdoe: bool, brse: bool)
        requires
            old(self).wf(),
            old(self).phase() == NodePhase::ConfigurationChangeEnabled,
        ensures
            final(self).wf(),
            final(self).program() == old(self).program().push(
                update_op(Reg::Cccr, frame_mode_update(fdoe, brse)),
            ),
            final(self).phase() == old(self).phase(),
    {
        proof {
            lemma_frame_mode_update(fdoe, brse);
        }
        self.update_control(FieldUpdate::new().flag(CCCR_FDOE, fdoe).flag(CCCR_BRSE, brse));
    }

    /// Pauses two bit times between transmissions, or not.
    pub fn pause_trasmission(&mut self, enable: bool)
        requires
            old(self).wf(),
            old(self).phase() == NodePhase::ConfigurationChangeEnabled,
        ensures
            final(self).wf(),
            final(self).program() == old(self).program().push(flag_op(Reg::Cccr, CCCR_TXP, enable)),
            final(self).phase() == old(self).phase(),
    {
        proof {
            lemma_control_flags(CCCR_TXP, enable);
        }
        self.update_control(FieldUpdate::new().flag(CCCR_TXP, enable));
    }

    /// Lets the interrupt of transmit buffer `tx_buffer_id` through.
    pub fn enable_tx_buffer_transmission_interrupt(&mut self, tx_buffer_id: TxBufferId)
        requires
            old(self).wf(),
            tx_buffer_id.0 < 32,
        ensures
            final(self).wf(),
            final(self).program() == old(self).program().push(
                flag_op(Reg::Txbtie, tx_buffer_id.0 as u32, true),
            ),
            final(self).phase() == old(self).phase(),
    {
        self.update_free(Reg::Txbtie, FieldUpdate::new().flag(tx_buffer_id.0 as u32, true));
    }

    /// Lets `interrupt` through.
    pub fn enable_interrupt(&mut self, interrupt: Interrupt)
        requires
            old(self).wf(),
        ensures
            final(self).wf(),
            final(self).program() == old(self).program().push(
                flag_op(Reg::Ie, interrupt.bit_index() as u32, true),
            ),
            final(self).phase() == old(self).phase(),
    {
        self.update_free(Reg::Ie, FieldUpdate::new().flag(interrupt.to_bit_index(), true));
    }

    /// Clears the flag of `interrupt`.
    pub fn clear_interrupt_flag(&mut self, interrupt: Interrupt)
        requires
            old(self).wf(),
        ensures
            final(self).wf(),
            final(self).program() == old(self).program().push(
                Op::Write { reg: Reg::Ir, value: bit(interrupt.bit_index() as u32) },
            ),
            final(self).phase() == old(self).phase(),
    {
        let phase = self.phase;
        self.push(Op::Write { reg: Reg::Ir, value: 1u32 << interrupt.to_bit_index() }, phase);
    }

    /// Routes the interrupt group at bit `group` of groups 0 to 7 to `line`.
    pub fn set_interrupt_routing_group_1(&mut self, line: u32, group: u32)
        requires
            old(self).wf(),
            group < 32,
        ensures
            final(self).wf(),
            final(self).program() == old(self).program().push(
                Op::Modify { reg: Reg::Grint1, clear: 0, set: line << group },
            ),
            final(self).phase() == old(self).phase(),
    {
        let phase = self.phase;
        self.push(Op::Modify { reg: Reg::Grint1, clear: 0, set: line << group }, phase);
    }

    /// Routes the interrupt group at bit `group` of groups 8 to 15 to `line`.
    pub fn set_interrupt_routing_group_2(&mut self, line: u32, group: u32)
        requires
            old(self).wf(),
            group < 32,
        ensures
            final(self).wf(),
            final(self).program() == old(self).program().push(
                Op::Modify { reg: Reg::Grint2, clear: 0, set: line << group },
            ),
            final(self).phase() == old(self).phase(),
    {
        let phase = self.phase;
        self.push(Op::Modify { reg: Reg::Grint2, clear: 0, set: line << group }, phase);
    }

    /// Sets the size of the data field of the receive buffers.
    pub fn set_rx_buffer_data_field_size(&mut self, size: DataFieldSize)
        requires
            old(self).wf(),
            old(self).phase() == NodePhase::ConfigurationChangeEnabled,
        ensures
            final(self).wf(),
            final(self).program() == old(self).program().push(field_op(Reg::Rxesc, 8, 3, size.code() as u32)),
            final(self).phase() == old(self).phase(),
    {
        self.update_protected(Reg::Rxesc, FieldUpdate::new().field(8, 3, size.to_esci_register_value() as u32));
    }

    /// Sets the size of the data field of the elements of receive FIFO 0.
    pub fn set_rx_fifo0_data_field_size(&mut self, size: DataFieldSize)
        requires
            old(self).wf(),
            old(self).phase() == NodePhase::ConfigurationChangeEnabled,
        ensures
            final(self).wf(),
            final(self).program() == old(self).program().push(field_op(Reg::Rxesc, 0, 3, size.code() as u32)),
            final(self).phase() == old(self).phase(),
    {
        self.update_protected(Reg::Rxesc, FieldUpdate::new().field(0, 3, size.to_esci_register_value() as u32));
    }

    /// Sets the size of the data field of the elements of receive FIFO 1.
    pub fn set_rx_fifo1_data_field_size(&mut self, size: DataFieldSize)
        requires
            old(self).wf(),
            old(self).phase() == NodePhase::ConfigurationChangeEnabled,
        ensures
            final(self).wf(),
            final(self).program() == old(self).program().push(field_op(Reg::Rxesc, 4, 3, size.code() as u32)),
            final(self).phase() == old(self).phase(),
    {
        self.update_protected(Reg::Rxesc, FieldUpdate::new().field(4, 3, size.to_esci_register_value() as u32));
    }

    /// Sets where receive FIFO 0 starts in the message RAM. The address is a multiple of 4.
    pub fn set_rx_fifo0_start_address(&mut self, address: u16)
        requires
            old(self).wf(),
            old(self).phase() == NodePhase::ConfigurationChangeEnabled,
            address % 4 == 0,
        ensures
            final(self).wf(),
            final(self).program() == old(self).program().push(field_op(Reg::Rxf0c, 2, 14, (address >> 2) as u32)),
            final(self).phase() == old(self).phase(),
    {
        self.update_protected(Reg::Rxf0c, FieldUpdate::new().field(2, 14, (address >> 2) as u32));
    }

    /// Sets the number of elements of receive FIFO 0.
    pub fn set_rx_fifo0_size(&mut self, size: u8)
        requires
            old(self).wf(),
            old(self).phase() == NodePhase::ConfigurationChangeEnabled,
        ensures
            final(self).wf(),
            final(self).program() == old(self).program().push(field_op(Reg::Rxf0c, 16, 7, size as u32)),
            final(self).phase() == old(self).phase(),
    {
        self.update_protected(Reg::Rxf0c, FieldUpdate::new().field(16, 7, size as u32));
    }

    /// Sets the fill level at which receive FIFO 0 raises its watermark interrupt.
    pub fn set_rx_fifo0_watermark_level(&mut self, level: u8)
        requires
            old(self).wf(),
            old(self).phase() == NodePhase::ConfigurationChangeEnabled,
        ensures
            final(self).wf(),
            final(self).program() == old(self).program().push(field_op(Reg::Rxf0c, 24, 7, level as u32)),
            final(self).phase() == old(self).phase(),
    {
        self.update_protected(Reg::Rxf0c, FieldUpdate::new().field(24, 7, level as u32));
    }

    /// Sets whether receive FIFO 0, when full, overwrites its oldest element or blocks.
    pub fn set_rx_fifo0_operating_mode(&mut self, mode: RxFifoMode)
        requires
            old(self).wf(),
            old(self).phase() == NodePhase::ConfigurationChangeEnabled,
        ensures
            final(self).wf(),
            final(self).program() == old(self).program().push(flag_op(Reg::Rxf0c, 31, mode == RxFifoMode::Overwrite)),
            final(self).phase() == old(self).phase(),
    {
        self.update_protected(Reg::Rxf0c, FieldUpdate::new().flag(31, mode == RxFifoMode::Overwrite));
    }

    /// Sets where receive FIFO 1 starts in the message RAM. The address is a multiple of 4.
    pub fn set_rx_fifo1_start_address(&mut self, address: u16)
        requires
            old(self).wf(),
            old(self).phase() == NodePhase::ConfigurationChangeEnabled,
            address % 4 == 0,
        ensures
            final(self).wf(),
            final(self).program() == old(self).program().push(field_op(Reg::Rxf1c, 2, 14, (address >> 2) as u32)),
            final(self).phase() == old(self).phase(),
    {
        self.update_protected(Reg::Rxf1c, FieldUpdate::new().field(2, 14, (address >> 2) as u32));
    }

    /// Sets the number of elements of receive FIFO 1.
    pub fn set_rx_fifo1_size(&mut self, size: u8)
        requires
            old(self).wf(),
            old(self).phase() == NodePhase::ConfigurationChangeEnabled,
        ensures
            final(self).wf(),
            final(self).program() == old(self).program().push(field_op(Reg::Rxf1c, 16, 7, size as u32)),
            final(self).phase() == old(self).phase(),
    {
        self.update_protected(Reg::Rxf1c, FieldUpdate::new().field(16, 7, size as u32));
    }

    /// Sets the fill level at which receive FIFO 1 raises its watermark interrupt.
    pub fn set_rx_fifo1_watermark_level(&mut self, level: u8)
        requires
            old(self).wf(),
            old(self).phase() == NodePhase::ConfigurationChangeEnabled,
        ensures
            final(self).wf(),
            final(self).program() == old(self).program().push(field_op(Reg::Rxf1c, 24, 7, level as u32)),
            final(self).phase() == old(self).phase(),
    {
        self.update_protected(Reg::Rxf1c, FieldUpdate::new().field(24, 7, level as u32));
    }

    /// Sets whether receive FIFO 1, when full, overwrites its oldest element or blocks.
    pub fn set_rx_fifo1_operating_mode(&mut self, mode: RxFifoMode)
        requires
            old(self).wf(),
            old(self).phase() == NodePhase::ConfigurationChangeEnabled,
        ensures
            final(self).wf(),
            final(self).program() == old(self).program().push(flag_op(Reg::Rxf1c, 31, mode == RxFifoMode::Overwrite)),
            final(self).phase() == old(self).phase(),
    {
        self.update_protected(Reg::Rxf1c, FieldUpdate::new().flag(31, mode == RxFifoMode::Overwrite));
    }

    /// Sets where the receive buffers start in the message RAM. The address is a multiple of 4.
    pub fn set_rx_buffer_start_address(&mut self, address: u16)
        requires
            old(self).wf(),
            old(self).phase() == NodePhase::ConfigurationChangeEnabled,
            address % 4 == 0,
        ensures
            final(self).wf(),
            final(self).program() == old(self).program().push(field_op(Reg::Rxbc, 2, 14, (address >> 2) as u32)),
            final(self).phase() == old(self).phase(),
    {
        self.update_protected(Reg::Rxbc, FieldUpdate::new().field(2, 14, (address >> 2) as u32));
    }

    /// Sets the code of the size of the data field of the transmit buffers.
    pub fn set_tx_buffer_data_field_size(&mut self, tdbs: u8)
        requires
            old(self).wf(),
            old(self).phase() == NodePhase::ConfigurationChangeEnabled,
        ensures
            final(self).wf(),
            final(self).program() == old(self).program().push(field_op(Reg::Txesc, 0, 3, tdbs as u32)),
            final(self).phase() == old(self).phase(),
    {
        self.update_protected(Reg::Txesc, FieldUpdate::new().field(0, 3, tdbs as u32));
    }

    /// Sets where the transmit buffers start in the message RAM. The address is a multiple of 4.
    pub fn set_tx_buffer_start_address(&mut self, address: u16)
        requires
            old(self).wf(),
            old(self).phase() == NodePhase::ConfigurationChangeEnabled,
            address % 4 == 0,
        ensures
            final(self).wf(),
            final(self).program() == old(self).program().push(field_op(Reg::Txbc, 2, 14, (address >> 2) as u32)),
            final(self).phase() == old(self).phase(),
    {
        self.update_protected(Reg::Txbc, FieldUpdate::new().field(2, 14, (address >> 2) as u32));
    }

    /// Sets the number of dedicated transmit buffers.
    pub fn set_dedicated_tx_buffers_number(&mut self, number: u8)
        requires
            old(self).wf(),
            old(self).phase() == NodePhase::ConfigurationChangeEnabled,
        ensures
            final(self).wf(),
            final(self).program() == old(self).program().push(field_op(Reg::Txbc, 16, 6, number as u32)),
            final(self).phase() == old(self).phase(),
    {
        self.update_protected(Reg::Txbc, FieldUpdate::new().field(16, 6, number as u32));
    }

    /// Sets the number of elements of the transmit FIFO or queue.
    pub fn set_transmit_fifo_queue_size(&mut self, number: u8)
        requires
            old(self).wf(),
            old(self).phase() == NodePhase::ConfigurationChangeEnabled,
        ensures
            final(self).wf(),
            final(self).program() == old(self).program().push(field_op(Reg::Txbc, 24, 6, number as u32)),
            final(self).phase() == old(self).phase(),
    {
        self.update_protected(Reg::Txbc, FieldUpdate::new().field(24, 6, number as u32));
    }

    /// Sets the mode bit of the transmit FIFO or queue: set for every mode but dedicated buffers.
    pub fn set_transmit_fifo_queue_mode(&mut self, mode: TxMode)
        requires
            old(self).wf(),
            old(self).phase() == NodePhase::ConfigurationChangeEnabled,
        ensures
            final(self).wf(),
            final(self).program() == old(self).program().push(flag_op(Reg::Txbc, 30, mode != TxMode::DedicatedBuffers)),
            final(self).phase() == old(self).phase(),
    {
        self.update_protected(Reg::Txbc, FieldUpdate::new().flag(30, mode != TxMode::DedicatedBuffers));
    }

    /// Sets where the transmit event FIFO starts in the message RAM. The address is a multiple of 4.
    pub fn set_tx_event_fifo_start_address(&mut self, address: u16)
        requires
            old(self).wf(),
            old(self).phase() == NodePhase::ConfigurationChangeEnabled,
            address % 4 == 0,
        ensures
            final(self).wf(),
            final(self).program() == old(self).program().push(field_op(Reg::Txefc, 2, 14, (address >> 2) as u32)),
            final(self).phase() == old(self).phase(),
    {
        self.update_protected(Reg::Txefc, FieldUpdate::new().field(2, 14, (address >> 2) as u32));
    }

    /// Sets the number of elements of the transmit event FIFO.
    pub fn set_tx_event_fifo_size(&mut self, size: u8)
        requires
            old(self).wf(),
            old(self).phase() == NodePhase::ConfigurationChangeEnabled,
        ensures
            final(self).wf(),
            final(self).program() == old(self).program().push(field_op(Reg::Txefc, 16, 6, size as u32)),
            final(self).phase() == old(self).phase(),
    {
        self.update_protected(Reg::Txefc, FieldUpdate::new().field(16, 6, size as u32));
    }

    /// Sets where the filters for standard identifiers start in the message RAM. The address is a multiple of 4.
    pub fn set_standard_filter_list_start_address(&mut self, address: u16)
        requires
            old(self).wf(),
            old(self).phase() == NodePhase::ConfigurationChangeEnabled,
            address % 4 == 0,
        ensures
            final(self).wf(),
            final(self).program() == old(self).program().push(field_op(Reg::Sidfc, 2, 14, (address >> 2) as u32)),
            final(self).phase() == old(self).phase(),
    {
        self.update_protected(Reg::Sidfc, FieldUpdate::new().field(2, 14, (address >> 2) as u32));
    }

    /// Sets the number of filters for standard identifiers.
    pub fn set_standard_filter_list_size(&mut self, size: u8)
        requires
            old(self).wf(),
            old(self).phase() == NodePhase::ConfigurationChangeEnabled,
        ensures
            final(self).wf(),
            final(self).program() == old(self).program().push(field_op(Reg::Sidfc, 16, 8, size as u32)),
            final(self).phase() == old(self).phase(),
    {
        self.update_protected(Reg::Sidfc, FieldUpdate::new().field(16, 8, size as u32));
    }

    /// Rejects remote frames with a standard identifier.
    pub fn reject_remote_frames_with_standard_id(&mut self)
        requires
            old(self).wf(),
            old(self).phase() == NodePhase::ConfigurationChangeEnabled,
        ensures
            final(self).wf(),
            final(self).program() == old(self).program().push(flag_op(Reg::Gfc, 1, true)),
            final(self).phase() == old(self).phase(),
    {
        self.update_protected(Reg::Gfc, FieldUpdate::new().flag(1, true));
    }

    /// Sets where the filters for extended identifiers start in the message RAM. The address is a multiple of 4.
    pub fn set_extended_filter_list_start_address(&mut self, address: u16)
        requires
            old(self).wf(),
            old(self).phase() == NodePhase::ConfigurationChangeEnabled,
            address % 4 == 0,
        ensures
            final(self).wf(),
            final(self).program() == old(self).program().push(field_op(Reg::Xidfc, 2, 14, (address >> 2) as u32)),
            final(self).phase() == old(self).phase(),
    {
        self.update_protected(Reg::Xidfc, FieldUpdate::new().field(2, 14, (address >> 2) as u32));
    }

    /// Sets the number of filters for extended identifiers.
    pub fn set_extended_filter_list_size(&mut self, size: u8)
        requires
            old(self).wf(),
            old(self).phase() == NodePhase::ConfigurationChangeEnabled,
        ensures
            final(self).wf(),
            final(self).program() == old(self).program().push(field_op(Reg::Xidfc, 16, 7, size as u32)),
            final(self).phase() == old(self).phase(),
    {
        self.update_protected(Reg::Xidfc, FieldUpdate::new().field(16, 7, size as u32));
    }

    /// Rejects remote frames with an extended identifier.
    pub fn reject_remote_frames_with_extended_id(&mut self)
        requires
            old(self).wf(),
            old(self).phase() == NodePhase::ConfigurationChangeEnabled,
        ensures
            final(self).wf(),
            final(self).program() == old(self).program().push(flag_op(Reg::Gfc, 0, true)),
            final(self).phase() == old(self).phase(),
    {
        self.update_protected(Reg::Gfc, FieldUpdate::new().flag(0, true));
    }

    /// Connects the node's output to its own input.
    pub fn enable_loopback(&mut self)
        requires
            old(self).wf(),
        ensures
            final(self).wf(),
            final(self).program() == old(self).program().push(flag_op(Reg::Npcr, 8, true)),
            final(self).phase() == old(self).phase(),
    {
        self.update_free(Reg::Npcr, FieldUpdate::new().flag(8, true));
    }

    /// Selects the input pin.
    pub fn connect_pin_rx(&mut self, rx_sel: RxSel)
        requires
            old(self).wf(),
        ensures
            final(self).wf(),
            final(self).program() == old(self).program().push(field_op(Reg::Npcr, 0, 3, rx_sel.value() as u32)),
            final(self).phase() == old(self).phase(),
    {
        self.update_free(Reg::Npcr, FieldUpdate::new().field(0, 3, rx_sel.to_register_value() as u32));
    }
}

/// The elements in receive FIFO 0, by its status register.
pub fn get_rx_fifo0_fill_level(rxf0s: u32) -> (value: u8)
    ensures
        value == field_of(rxf0s, 0, 7),
{
    let field = get_field(rxf0s, 0, 7);
    assert(field_of(rxf0s, 0, 7) < 128) by (bit_vector);
    field as u8
}

/// The elements in receive FIFO 1, by its status register.
pub fn get_rx_fifo1_fill_level(rxf1s: u32) -> (value: u8)
    ensures
        value == field_of(rxf1s, 0, 7),
{
    let field = get_field(rxf1s, 0, 7);
    assert(field_of(rxf1s, 0, 7) < 128) by (bit_vector);
    field as u8
}

/// Whether an element of the transmit event FIFO was lost, by its status register.
pub fn is_tx_event_fifo_element_lost(txefs: u32) -> (on: bool)
    ensures
        on == bit_of(txefs, 25),
{
    get_bit(txefs, 25)
}

/// Whether the transmit event FIFO is full, by its status register.
pub fn is_tx_event_fifo_full(txefs: u32) -> (on: bool)
    ensures
        on == bit_of(txefs, 24),
{
    get_bit(txefs, 24)
}

/// Whether the transmit FIFO or queue is full, by its status register.
pub fn is_tx_fifo_queue_full(txfqs: u32) -> (on: bool)
    ensures
        on == bit_of(txfqs, 21),
{
    get_bit(txfqs, 21)
}

/// The buffer that the transmit FIFO or queue fills next, by its status register.
pub fn get_tx_fifo_queue_put_index(txfqs: u32) -> (value: u8)
    ensures
        value == field_of(txfqs, 16, 5),
{
    let field = get_field(txfqs, 16, 5);
    assert(field_of(txfqs, 16, 5) < 32) by (bit_vector);
    field as u8
}

/// The element that receive FIFO 0 hands out next, by its status register.
pub fn get_rx_fifo0_get_index(rxf0s: u32) -> (id: RxBufferId)
    ensures
        id.index() == field_of(rxf0s, 8, 6),
{
    let field = get_field(rxf0s, 8, 6);
    assert(field_of(rxf0s, 8, 6) < 64) by (bit_vector);
    RxBufferId::new(field as u8)
}

/// The element that receive FIFO 1 hands out next, by its status register.
pub fn get_rx_fifo1_get_index(rxf1s: u32) -> (id: RxBufferId)
    ensures
        id.index() == field_of(rxf1s, 8, 6),
{
    let field = get_field(rxf1s, 8, 6);
    assert(field_of(rxf1s, 8, 6) < 64) by (bit_vector);
    RxBufferId::new(field as u8)
}

/// Whether receive buffer `rx_buffer_id` holds new data, by the two new
/// data registers: the first has the flags of buffers 0 to 31, the second
/// those of buffers 32 to 63.
pub fn is_rx_buffer_new_data_updated(rx_buffer_id: RxBufferId, ndat1: u32, ndat2: u32) -> (updated: bool)
    ensures
        updated == if rx_buffer_id.index() < 32 {
            bit_of(ndat1, rx_buffer_id.index() as u32)
        } else {
            bit_of(ndat2, (rx_buffer_id.index() - 32) as u32)
        },
{
    let id = rx_buffer_id.as_u8();
    if id < 32 {
        get_bit(ndat1, id as u32)
    } else {
        get_bit(ndat2, (id - 32) as u32)
    }
}

/// The operation that clears the new data flag of receive buffer
/// `rx_buffer_id`: a flag is cleared by writing 1 to it.
pub fn clear_rx_buffer_new_data_flag(rx_buffer_id: RxBufferId) -> (op: Op)
    ensures
        op == if rx_buffer_id.index() < 32 {
            Op::Write { reg: Reg::Ndat1, value: bit(rx_buffer_id.index() as u32) }
        } else {
            Op::Write { reg: Reg::Ndat2, value: bit((rx_buffer_id.index() - 32) as u32) }
        },
{
    let id = rx_buffer_id.as_u8();
    if id < 32 {
        Op::Write { reg: Reg::Ndat1, value: 1u32 << (id as u32) }
    } else {
        Op::Write { reg: Reg::Ndat2, value: 1u32 << ((id - 32) as u32) }
    }
}

/// The operation that hands element `rx_buffer_id` of receive FIFO 0 back
/// to the controller.
pub fn set_rx_fifo0_acknowledge_index(rx_buffer_id: RxBufferId) -> (op: Op)
    ensures
        op == field_op(Reg::Rxf0a, 0, 6, rx_buffer_id.index() as u32),
{
    FieldUpdate::new().field(0, 6, rx_buffer_id.as_u8() as u32).on(Reg::Rxf0a)
}

/// The operation that hands element `rx_buffer_id` of receive FIFO 1 back
/// to the controller.
pub fn set_rx_fifo1_acknowledge_index(rx_buffer_id: RxBufferId) -> (op: Op)
    ensures
        op == field_op(Reg::Rxf1a, 0, 6, rx_buffer_id.index() as u32),
{
    FieldUpdate::new().field(0, 6, rx_buffer_id.as_u8() as u32).on(Reg::Rxf1a)
}

/// Whether transmit buffer `tx_buffer_id` has sent its frame, by the
/// transmission occurred register. Buffers from 32 on do not exist.
pub fn is_tx_buffer_transmission_occured(tx_buffer_id: u8, txbto: u32) -> (occured: bool)
    ensures
        occured == (tx_buffer_id < 32 && bit_of(txbto, tx_buffer_id as u32)),
{
    tx_buffer_id < 32 && get_bit(txbto, tx_buffer_id as u32)
}

/// Whether transmit buffer `tx_buffer_id` waits to send its frame, by the
/// request pending register. Buffers from 32 on do not exist.
pub fn is_tx_buffer_request_pending(tx_buffer_id: TxBufferId, txbrp: u32) -> (pending: bool)
    ensures
        pending == (tx_buffer_id.0 < 32 && bit_of(txbrp, tx_buffer_id.0 as u32)),
{
    tx_buffer_id.0 < 32 && get_bit(txbrp, tx_buffer_id.0 as u32)
}

/// The operation that asks for the frame in transmit buffer `id` to be
/// sent, if there is such a buffer.
pub fn set_tx_buffer_add_request(id: u8) -> (op: Option<Op>)
    ensures
        op == if id < 32 {
            Some(flag_op(Reg::Txbar, id as u32, true))
        } else {
            None
        },
{
    if id < 32 {
        Some(FieldUpdate::new().flag(id as u32, true).on(Reg::Txbar))
    } else {
        None
    }
}

/// The offset of the field of the receive element size register that
/// holds the size code of `from`.
pub open spec fn size_field_offset(from: ReadFrom) -> u32 {
    match from {
        ReadFrom::Buffer(_) => 8,
        ReadFrom::RxFifo0 => 0,
        ReadFrom::RxFifo1 => 4,
    }
}

/// The bytes of the data field of the elements of `from`, by the receive
/// element size register.
pub fn get_data_field_size(rxesc: u32, from: ReadFrom) -> (bytes: u8)
    ensures
        bytes == data_field_bytes(field_of(rxesc, size_field_offset(from), 3) as int),
        8 <= bytes <= 64,
{
    let offset: u32 = match from {
        ReadFrom::Buffer(_) => 8,
        ReadFrom::RxFifo0 => 0,
        ReadFrom::RxFifo1 => 4,
    };
    let size_code = get_field(rxesc, offset, 3);
    assert(field_of(rxesc, offset, 3) < 8) by (bit_vector)
        requires
            offset < 32,
    ;
    data_field_size_in_bytes(size_code as u8)
}

/// The bytes of the data field of the transmit buffers, by the transmit
/// element size register.
pub fn get_tx_buffer_data_field_size(txesc: u32) -> (bytes: u8)
    ensures
        bytes == data_field_bytes(field_of(txesc, 0, 3) as int),
        8 <= bytes <= 64,
{
    let size_code = get_field(txesc, 0, 3);
    assert(field_of(txesc, 0, 3) < 8) by (bit_vector);
    data_field_size_in_bytes(size_code as u8)
}

/// The address of element `buffer_number` of the region that starts at
/// `start_address` of the message RAM at `ram_base_address`, where the data
/// field of an element has `data_field_size` bytes behind the 8 bytes of
/// its head.
pub fn get_rx_element_address(
    ram_base_address: u32,
    start_address: u16,
    data_field_size: u8,
    buffer_number: RxBufferId,
) -> (address: u32)
    requires
        ram_base_address <= 0xfff0_0000,
    ensures
        address == ram_base_address + start_address + (8 + data_field_size)
            * buffer_number.index(),
{
    let element: u32 = 8u32 + data_field_size as u32;
    let number: u32 = buffer_number.as_u8() as u32;
    assert(element * number <= 263 * 63) by (nonlinear_arith)
        requires
            element <= 263,
            number <= 63,
    ;
    ram_base_address + start_address as u32 + element * number
}

} // verus!
