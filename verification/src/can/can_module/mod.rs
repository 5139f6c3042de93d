//! A CAN module: which of its nodes are taken, and the programs that switch
//! it on and select the clock of a node.

use vstd::prelude::*;
use core::marker::PhantomData;
use crate::can::can_node::CanNode;
use crate::can::can_node::NewCanNode;
use crate::can::can_node::NodeId;
use crate::regs::FieldUpdate;
use crate::regs::Op;
use crate::regs::Reg;
use crate::scu::wdt_call::without_cpu_endinit;
use crate::sequencer::cpu_lifted_by;
use crate::sequencer::lemma_run_keeps_restored;
use crate::sequencer::lemma_run_tracks_protection;
use crate::sequencer::restores_for_good;
use crate::sequencer::run_of;
use crate::sequencer::Pending;
use crate::sequencer::SequencerView;

verus! {

/// The nodes of a module.
pub const NODES_PER_MODULE: usize = 4;

/// Bit of the clock control register: request to switch the module off.
pub const CLC_DISR: u32 = 0;

/// Bit of the clock control register: the module is switched off.
pub const CLC_DISS: u32 = 1;

/// Bit of the module control register: clock change enable.
pub const MCR_CCCE: u32 = 31;

/// Bit of the module control register: change init.
pub const MCR_CI: u32 = 30;

/// Cycles to let pass before the clock selection is read back.
pub const CLOCK_SWITCH_CYCLES: u32 = 10;

/// The types that name a module.
pub trait ModuleId {

}

/// The first CAN module.
#[derive(Debug)]
pub struct Module0;

impl ModuleId for Module0 {

}

/// The second CAN module.
#[derive(Debug)]
pub struct Module1;

impl ModuleId for Module1 {

}

/// The state of a module that has not been switched on.
#[derive(Debug)]
pub struct Disabled;

/// The state of a module that is switched on.
#[derive(Debug)]
pub struct Enabled;

/// A module: `Id` names it, `Regs` is the type through which its registers
/// are reached, `State` is `Disabled` or `Enabled`.
pub struct Module<Id, Regs, State> {
    nodes_taken: [bool; 4],
    _phantom: PhantomData<(Id, Regs, State)>,
}

/// The slot is taken: a node is handed out once.
#[derive(Clone, Copy, Debug, PartialEq, Eq, Structural)]
pub struct AlreadyClaimed;

/// The clocks that a node can run on.
#[derive(Clone, Copy, Debug, PartialEq, Eq, Structural)]
pub enum ClockSource {
    /// The asynchronous clock.
    Asynchronous,
    /// The synchronous clock.
    Synchronous,
    /// Both.
    Both,
}

/// Which of the clock selection fields of the module: the one of the node
/// with the same number.
#[derive(Clone, Copy, Debug)]
pub struct ClockSelect(pub(crate) u8);

impl ClockSource {
    /// What the clock selection field holds for this source.
    pub open spec fn value(self) -> u8 {
        match self {
            ClockSource::Asynchronous => 1,
            ClockSource::Synchronous => 2,
            ClockSource::Both => 3,
        }
    }
}

impl vstd::std_specs::convert::FromSpecImpl<ClockSource> for u8 {
    open spec fn obeys_from_spec() -> bool {
        true
    }

    open spec fn from_spec(x: ClockSource) -> u8 {
        x.value()
    }
}

impl From<ClockSource> for u8 {
    fn from(x: ClockSource) -> (value: u8) {
        match x {
            ClockSource::Asynchronous => 1,
            ClockSource::Synchronous => 2,
            ClockSource::Both => 3,
        }
    }
}

impl Default for ClockSource {
    fn default() -> (source: ClockSource)
        ensures
            source == ClockSource::Both,
    {
        ClockSource::Both
    }
}

impl ClockSelect {
    #[verifier::type_invariant]
    spec fn names_a_node(self) -> bool {
        self.0 < 4
    }

    /// The number of the field.
    pub closed spec fn index(self) -> int {
        self.0 as int
    }

    /// The clock selection field of node `node_id`.
    pub fn new(node_id: NodeId) -> (select: ClockSelect)
        ensures
            select.index() == node_id.index(),
            0 <= select.index() < 4,
    {
        ClockSelect(node_id.as_index() as u8)
    }

    /// The lowest bit of the field in the module control register.
    pub fn offset(&self) -> (offset: u32)
        ensures
            offset == 2 * self.index(),
            offset <= 6,
    {
        proof {
            use_type_invariant(self);
        }
        2 * (self.0 as u32)
    }
}

/// The slots after slot `slot` was asked for, and whether it was handed out.
pub open spec fn claim_of(taken: Seq<bool>, slot: int) -> (Seq<bool>, bool) {
    if taken[slot] {
        (taken, false)
    } else {
        (taken.update(slot, true), true)
    }
}

/// A slot that is taken is not handed out and the slots stay as they are;
/// and a slot that was asked for is taken from then on, so that asking for
/// it again fails, however often.
pub proof fn lemma_claim_once(taken: Seq<bool>, slot: int)
    requires
        0 <= slot < taken.len(),
    ensures
        taken[slot] ==> claim_of(taken, slot) == (taken, false),
        claim_of(taken, slot).0[slot],
        claim_of(claim_of(taken, slot).0, slot) == (claim_of(taken, slot).0, false),
        forall|other: int|
            0 <= other < taken.len() && other != slot ==> claim_of(taken, slot).0[other]
                == taken[other],
{
}

/// The program that switches a module on: with the CPU's protection lifted,
/// the request to switch off is withdrawn, and the module is waited for.
pub open spec fn enable_program() -> Seq<Op> {
    seq![
        Op::CpuEndinit { locked: false },
        Op::Modify {
            reg: Reg::Clc,
            clear: FieldUpdate::none().with_flag(CLC_DISR, false).clear,
            set: FieldUpdate::none().with_flag(CLC_DISR, false).set,
        },
        Op::WaitFor { reg: Reg::Clc, mask: crate::bits::bit(CLC_DISS), expect: 0 },
        Op::CpuEndinit { locked: true },
    ]
}

/// The change of the module control register that opens (`on`) or closes
/// the clock change.
pub open spec fn clock_change(on: bool) -> FieldUpdate {
    FieldUpdate::none().with_flag(MCR_CCCE, on).with_flag(MCR_CI, on)
}

/// The change of the module control register that selects `source` in field `select`.
pub open spec fn clock_choice(select: int, source: ClockSource) -> FieldUpdate {
    FieldUpdate::none().with((2 * select) as u32, 2, source.value() as u32)
}

/// The operations that switch the clock of a node: the clock change is
/// opened, the selection is written, after a delay it is read back and
/// compared, and the clock change is closed.
pub open spec fn clock_switch(select: int, source: ClockSource) -> Seq<Op> {
    seq![
        Op::Modify { reg: Reg::Mcr, clear: clock_change(true).clear, set: clock_change(true).set },
        Op::Modify {
            reg: Reg::Mcr,
            clear: clock_choice(select, source).clear,
            set: clock_choice(select, source).set,
        },
        Op::Delay { cycles: CLOCK_SWITCH_CYCLES },
        Op::Expect {
            reg: Reg::Mcr,
            mask: clock_choice(select, source).clear,
            expect: clock_choice(select, source).set,
        },
        Op::Modify { reg: Reg::Mcr, clear: clock_change(false).clear, set: clock_change(false).set },
    ]
}

/// The program that selects the clock of a node: the clock is switched
/// with the CPU's protection lifted, and the protection is restored. If
/// the selection did not take, the program has failed and ends here, with
/// the clock change closed and the protection restored.
pub open spec fn clock_source_program(select: int, source: ClockSource) -> Seq<Op> {
    without_cpu_endinit(clock_switch(select, source)) + seq![Op::StopIfFailed]
}

/// The program that selects `clock_source` in field `clock_select`.
pub fn set_clock_source(clock_select: ClockSelect, clock_source: ClockSource) -> (program: Vec<Op>)
    ensures
        program@ == clock_source_program(clock_select.index(), clock_source),
{
    let open = FieldUpdate::new().flag(MCR_CCCE, true).flag(MCR_CI, true);
    let close = FieldUpdate::new().flag(MCR_CCCE, false).flag(MCR_CI, false);
    let value: u8 = u8::from(clock_source);
    let choice = FieldUpdate::new().field(clock_select.offset(), 2, value as u32);
    let mut program: Vec<Op> = Vec::new();
    program.push(Op::CpuEndinit { locked: false });
    program.push(open.on(Reg::Mcr));
    program.push(choice.on(Reg::Mcr));
    program.push(Op::Delay { cycles: CLOCK_SWITCH_CYCLES });
    program.push(Op::Expect { reg: Reg::Mcr, mask: choice.clear, expect: choice.set });
    program.push(close.on(Reg::Mcr));
    program.push(Op::CpuEndinit { locked: true });
    program.push(Op::StopIfFailed);
    assert(program@ =~= clock_source_program(clock_select.index(), clock_source));
    program
}

/// However the program that selects a clock is carried out, it ends with
/// the CPU's protection restored: also where the selection did not take.
pub proof fn lemma_clock_switch_is_protected(select: int, source: ClockSource, inputs: Seq<u32>)
    ensures
        ({
            let program = clock_source_program(select, source);
            let (end, asked) = run_of(SequencerView::start(program), inputs);
            end.done() ==> !cpu_lifted_by(asked)
        }),
{
    let program = clock_source_program(select, source);
    assert(restores_for_good(program, 6, false));
    lemma_run_keeps_restored(program, inputs, 6, false);
    lemma_run_tracks_protection(program, inputs);
}

impl<Id, Regs, State> Module<Id, Regs, State> {
    /// Which slots are taken, from slot 0.
    pub closed spec fn taken(&self) -> Seq<bool> {
        self.nodes_taken@
    }
}

impl<Id, Regs> Module<Id, Regs, Disabled> {
    /// A module that is not switched on, with no node taken.
    pub fn new(_module_id: Id) -> (module: Self)
        ensures
            module.taken() == seq![false, false, false, false],
    {
        let module = Self { nodes_taken: [false;4], _phantom: PhantomData };
        assert(module.nodes_taken@ =~= seq![false, false, false, false]);
        module
    }

    /// Whether the module is switched on, by what its clock control register holds.
    pub fn is_enabled(clc: u32) -> (enabled: bool)
        ensures
            enabled == !crate::bits::bit_of(clc, CLC_DISS),
    {
        !crate::bits::get_bit(clc, CLC_DISS)
    }

    /// The module switched on, to be had once the program that switches it
    /// on has been carried out. No node of it is taken.
    pub fn enable(self) -> (pending: Pending<Module<Id, Regs, Enabled>>)
        ensures
            pending.progress() == SequencerView::start(enable_program()),
            pending.outcome().taken() == seq![false, false, false, false],
    {
        let mut program: Vec<Op> = Vec::new();
        program.push(Op::CpuEndinit { locked: false });
        program.push(FieldUpdate::new().flag(CLC_DISR, false).on(Reg::Clc));
        program.push(Op::WaitFor { reg: Reg::Clc, mask: 1u32 << CLC_DISS, expect: 0 });
        program.push(Op::CpuEndinit { locked: true });
        assert(program@ =~= enable_program());
        let module = Module::<Id, Regs, Enabled> { nodes_taken: [false;4], _phantom: PhantomData };
        assert(module.nodes_taken@ =~= seq![false, false, false, false]);
        Pending::new(program, module)
    }
}

impl<Id, Regs> Module<Id, Regs, Enabled> {
    /// Hands out node `node_id`, once.
    ///
    /// Fails if the node has been handed out before; the module is then as
    /// it was. There is no way to hand a node back.
    pub fn claim(&mut self, node_id: NodeId) -> (node: Result<NewCanNode<Id>, AlreadyClaimed>)
        ensures
            old(self).taken().len() == 4,
            final(self).taken() == claim_of(old(self).taken(), node_id.index()).0,
            node is Ok == claim_of(old(self).taken(), node_id.index()).1,
            node is Ok == !old(self).taken()[node_id.index()],
            node is Err ==> final(self).taken() == old(self).taken(),
            node matches Ok(n) ==> n.node_id() == node_id,
    {
        let node_index = node_id.as_index();
        if self.nodes_taken[node_index] {
            return Err(AlreadyClaimed);
        }
        self.nodes_taken[node_index] = true;
        Ok(CanNode::new(node_id))
    }

    /// Whether node `node_id` has been handed out.
    pub fn is_claimed(&self, node_id: NodeId) -> (claimed: bool)
        ensures
            claimed == self.taken()[node_id.index()],
    {
        self.nodes_taken[node_id.as_index()]
    }

    /// The program that selects `clock_source` in field `clock_select`; see
    /// `set_clock_source`.
    pub fn set_clock_source(&self, clock_select: ClockSelect, clock_source: ClockSource) -> (program:
        Vec<Op>)
        ensures
            program@ == clock_source_program(clock_select.index(), clock_source),
    {
        set_clock_source(clock_select, clock_source)
    }

    /// The address of the module's message RAM, from the address of its
    /// access enable register 0, which lies 33020 bytes behind it.
    pub fn ram_base_address(&self, accen0_address: u32) -> (base: u32)
        requires
            accen0_address >= 33020,
        ensures
            base == accen0_address - 33020,
    {
        accen0_address - 33020u32
    }
}

} // verus!
