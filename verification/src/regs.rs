//! Registers by name, and what is done to them as data.
//!
//! Nothing in this crate touches the hardware. A function that the hardware
//! is to follow returns a program: a list of operations on named registers.
//! The caller carries them out, with the help of a sequencer.

use vstd::prelude::*;
use crate::bits::field_bits;
use crate::bits::field_fits;
use crate::bits::field_of;
use crate::bits::fields_disjoint;
use crate::bits::lemma_field_read_back;
use crate::bits::lemma_field_untouched;
use crate::bits::field_mask;
use crate::bits::low_mask;
use crate::bits::mask_of_width;
use crate::bits::with_field;

verus! {

/// A register of the CAN module, of one of its nodes, or of a port.
#[derive(Clone, Copy, Debug, PartialEq, Eq, Structural)]
pub enum Reg {
    /// Clock control of the CAN module.
    Clc,
    /// Module control of the CAN module: clock selection of the nodes.
    Mcr,
    /// CC control of a node.
    Cccr,
    /// Nominal bit timing and prescaler.
    Nbtp,
    /// Data phase bit timing and prescaler.
    Dbtp,
    /// Transmitter delay compensation.
    Tdcr,
    /// Node port control.
    Npcr,
    /// Interrupt enable.
    Ie,
    /// Interrupt flags.
    Ir,
    /// Interrupt routing, groups 0 to 7.
    Grint1,
    /// Interrupt routing, groups 8 to 15.
    Grint2,
    /// Receive element sizes.
    Rxesc,
    /// Receive FIFO 0 configuration.
    Rxf0c,
    /// Receive FIFO 0 status.
    Rxf0s,
    /// Receive FIFO 0 acknowledge.
    Rxf0a,
    /// Receive FIFO 1 configuration.
    Rxf1c,
    /// Receive FIFO 1 status.
    Rxf1s,
    /// Receive FIFO 1 acknowledge.
    Rxf1a,
    /// Receive buffer configuration.
    Rxbc,
    /// New data flags of receive buffers 0 to 31.
    Ndat1,
    /// New data flags of receive buffers 32 to 63.
    Ndat2,
    /// Transmit element size.
    Txesc,
    /// Transmit buffer configuration.
    Txbc,
    /// Transmit FIFO or queue status.
    Txfqs,
    /// Transmit buffer add request.
    Txbar,
    /// Transmit buffer request pending.
    Txbrp,
    /// Transmit buffer transmission occurred.
    Txbto,
    /// Transmit buffer transmission interrupt enable.
    Txbtie,
    /// Transmit event FIFO configuration.
    Txefc,
    /// Transmit event FIFO status.
    Txefs,
    /// Standard identifier filter configuration.
    Sidfc,
    /// Extended identifier filter configuration.
    Xidfc,
    /// Global filter configuration.
    Gfc,
    /// Output modification of a port.
    Omr,
}

/// One operation on the hardware.
#[derive(Clone, Copy, Debug, PartialEq, Eq, Structural)]
pub enum Op {
    /// Read the register, clear the bits of `clear`, set those of `set`, and
    /// write the result back.
    Modify { reg: Reg, clear: u32, set: u32 },
    /// Write `value` to the register.
    Write { reg: Reg, value: u32 },
    /// Read the register again and again, until its bits under `mask` are `expect`.
    WaitFor { reg: Reg, mask: u32, expect: u32 },
    /// Let `cycles` cycles pass.
    Delay { cycles: u32 },
    /// Read the register once. If its bits under `mask` are not `expect`, the
    /// program has failed, and goes on to the next `StopIfFailed`.
    Expect { reg: Reg, mask: u32, expect: u32 },
    /// End the program here if it has failed, with each protection that it
    /// has lifted restored first.
    StopIfFailed,
    /// Lift (`locked` false) or restore (`locked` true) the CPU's end of
    /// initialisation protection.
    CpuEndinit { locked: bool },
    /// Lift or restore the safety end of initialisation protection.
    SafetyEndinit { locked: bool },
}

/// What a register holds after `Modify` with `clear` and `set`, if it held `raw`.
pub open spec fn modified(raw: u32, clear: u32, set: u32) -> u32 {
    (raw & !clear) | set
}

/// What a register holds after `Modify` with `clear` and `set`, if it held `raw`.
pub fn modify(raw: u32, clear: u32, set: u32) -> (updated: u32)
    ensures
        updated == modified(raw, clear, set),
{
    (raw & !clear) | set
}

/// The bits to clear and to set for a change of some fields of a register.
#[derive(Clone, Copy, Debug, PartialEq, Eq, Structural)]
pub struct FieldUpdate {
    /// The bits of the fields that change.
    pub clear: u32,
    /// The new values of those fields, in place.
    pub set: u32,
}

impl FieldUpdate {
    /// The update that changes nothing.
    pub open spec fn none() -> FieldUpdate {
        FieldUpdate { clear: 0, set: 0 }
    }

    /// This update, and then `value` in the field at `offset`.
    pub open spec fn with(self, offset: u32, width: u32, value: u32) -> FieldUpdate {
        FieldUpdate {
            clear: self.clear | field_mask(offset, width),
            set: (self.set & !field_mask(offset, width)) | field_bits(offset, width, value),
        }
    }

    /// This update, and then bit `index` set to `on`.
    pub open spec fn with_flag(self, index: u32, on: bool) -> FieldUpdate {
        self.with(
            index,
            1,
            if on {
                1
            } else {
                0
            },
        )
    }

    /// What a register holds after this update, if it held `raw`.
    pub open spec fn apply(self, raw: u32) -> u32 {
        modified(raw, self.clear, self.set)
    }

    /// The update that changes nothing.
    pub fn new() -> (update: FieldUpdate)
        ensures
            update == FieldUpdate::none(),
    {
        FieldUpdate { clear: 0, set: 0 }
    }

    /// This update, and then `value` in the field at `offset`.
    pub fn field(self, offset: u32, width: u32, value: u32) -> (update: FieldUpdate)
        requires
            offset < 32,
        ensures
            update == self.with(offset, width, value),
    {
        let mask = mask_of_width(width);
        FieldUpdate {
            clear: self.clear | (mask << offset),
            set: (self.set & !(mask << offset)) | ((value & mask) << offset),
        }
    }

    /// This update, and then bit `index` set to `on`.
    pub fn flag(self, index: u32, on: bool) -> (update: FieldUpdate)
        requires
            index < 32,
        ensures
            update == self.with_flag(index, on),
    {
        self.field(
            index,
            1,
            if on {
                1
            } else {
                0
            },
        )
    }

    /// The operation that makes this update to `reg`.
    pub fn on(self, reg: Reg) -> (op: Op)
        ensures
            op == (Op::Modify { reg, clear: self.clear, set: self.set }),
    {
        Op::Modify { reg, clear: self.clear, set: self.set }
    }
}

/// An update with one more field leaves the register as the update without
/// it does, but for that field, which holds the new value.
pub proof fn lemma_update_stores_field(update: FieldUpdate, raw: u32, offset: u32, width: u32, value: u32)
    ensures
        update.with(offset, width, value).apply(raw) == with_field(
            update.apply(raw),
            offset,
            width,
            value,
        ),
        FieldUpdate::none().apply(raw) == raw,
{
    let c = update.clear;
    let s = update.set;
    let m = field_mask(offset, width);
    let b = field_bits(offset, width, value);
    assert((raw & !(c | m)) | ((s & !m) | b) == (((raw & !c) | s) & !m) | b) by (bit_vector);
    assert((raw & !0u32) | 0u32 == raw) by (bit_vector);
}


/// Whether `op` writes to `reg`.
pub open spec fn writes_to(op: Op, reg: Reg) -> bool {
    match op {
        Op::Modify { reg: r, clear, set } => r == reg,
        Op::Write { reg: r, value } => r == reg,
        _ => false,
    }
}

/// What `reg` holds after `op`, if it held `raw` before, in a device whose
/// registers hold what was written to them last.
pub open spec fn register_after_op(op: Op, reg: Reg, raw: u32) -> u32 {
    match op {
        Op::Modify { reg: r, clear, set } => if r == reg {
            modified(raw, clear, set)
        } else {
            raw
        },
        Op::Write { reg: r, value } => if r == reg {
            value
        } else {
            raw
        },
        _ => raw,
    }
}

/// What `reg` holds after all of `program`, if it held `raw` before, in a
/// device whose registers hold what was written to them last.
pub open spec fn register_after(program: Seq<Op>, reg: Reg, raw: u32) -> u32
    decreases program.len(),
{
    if program.len() == 0 {
        raw
    } else {
        register_after_op(program.last(), reg, register_after(program.drop_last(), reg, raw))
    }
}

/// Whether no operation of `program` writes to `reg`.
pub open spec fn leaves_alone(program: Seq<Op>, reg: Reg) -> bool {
    forall|i: int| 0 <= i < program.len() ==> !writes_to(#[trigger] program[i], reg)
}

/// A register holds after two programs what it holds after the second,
/// begun with what it held after the first.
pub proof fn lemma_register_after_both(first: Seq<Op>, second: Seq<Op>, reg: Reg, raw: u32)
    ensures
        register_after(first + second, reg, raw) == register_after(
            second,
            reg,
            register_after(first, reg, raw),
        ),
    decreases second.len(),
{
    if second.len() == 0 {
        assert(first + second =~= first);
    } else {
        assert((first + second).drop_last() =~= first + second.drop_last());
        assert((first + second).last() == second.last());
        lemma_register_after_both(first, second.drop_last(), reg, raw);
    }
}

/// A program that does not write to a register leaves it as it was.
pub proof fn lemma_register_left_alone(program: Seq<Op>, reg: Reg, raw: u32)
    requires
        leaves_alone(program, reg),
    ensures
        register_after(program, reg, raw) == raw,
    decreases program.len(),
{
    if program.len() > 0 {
        let head = program.drop_last();
        assert forall|i: int| 0 <= i < head.len() implies !writes_to(#[trigger] head[i], reg) by {
            assert(head[i] == program[i]);
        }
        lemma_register_left_alone(head, reg, raw);
        assert(!writes_to(program[program.len() - 1], reg));
    }
}

/// Two programs that leave a register alone leave it alone together.
pub proof fn lemma_leaves_alone_both(first: Seq<Op>, second: Seq<Op>, reg: Reg)
    requires
        leaves_alone(first, reg),
        leaves_alone(second, reg),
    ensures
        leaves_alone(first + second, reg),
{
    assert forall|i: int| 0 <= i < (first + second).len() implies !writes_to(
        #[trigger] (first + second)[i],
        reg,
    ) by {
        if i < first.len() {
            assert((first + second)[i] == first[i]);
        } else {
            assert((first + second)[i] == second[i - first.len()]);
        }
    }
}


/// The field that an update stores last holds the value stored, cut to
/// the field's width; and every field apart from it holds what it holds
/// under the update without it. The update that changes nothing leaves the
/// register as it is.
pub proof fn lemma_update_fields(
    update: FieldUpdate,
    raw: u32,
    offset: u32,
    width: u32,
    value: u32,
    other_offset: u32,
    other_width: u32,
)
    requires
        field_fits(offset, width),
    ensures
        field_of(update.with(offset, width, value).apply(raw), offset, width) == value & low_mask(
            width,
        ),
        field_fits(other_offset, other_width) && fields_disjoint(
            offset,
            width,
            other_offset,
            other_width,
        ) ==> field_of(update.with(offset, width, value).apply(raw), other_offset, other_width)
            == field_of(update.apply(raw), other_offset, other_width),
        FieldUpdate::none().apply(raw) == raw,
{
    lemma_update_stores_field(update, raw, offset, width, value);
    lemma_field_read_back(update.apply(raw), offset, width, value);
    if field_fits(other_offset, other_width) && fields_disjoint(
        offset,
        width,
        other_offset,
        other_width,
    ) {
        lemma_field_untouched(update.apply(raw), offset, width, value, other_offset, other_width);
    }
}

/// Values that fit fields of the widths that the registers of a node have
/// are stored whole.
pub proof fn lemma_narrow_values()
    by (bit_vector)
    ensures
        forall|v: u32| v <= 1 ==> #[trigger] (v & low_mask(1)) == v,
        forall|v: u32| v <= 0x7 ==> #[trigger] (v & low_mask(3)) == v,
        forall|v: u32| v <= 0xf ==> #[trigger] (v & low_mask(4)) == v,
        forall|v: u32| v <= 0x1f ==> #[trigger] (v & low_mask(5)) == v,
        forall|v: u32| v <= 0x3f ==> #[trigger] (v & low_mask(6)) == v,
        forall|v: u32| v <= 0x7f ==> #[trigger] (v & low_mask(7)) == v,
        forall|v: u32| v <= 0xff ==> #[trigger] (v & low_mask(8)) == v,
        forall|v: u32| v <= 0x1ff ==> #[trigger] (v & low_mask(9)) == v,
        forall|v: u32| v <= 0x3fff ==> #[trigger] (v & low_mask(14)) == v,
{
}

} // verus!
