//! The password sequence of a watchdog's control register.
//!
//! The register holds the end of initialisation bit in bit 0, its lock bit
//! in bit 1, the password in bits 15 to 2 and the reload value above. It
//! takes a write only with the password that it expects next: the one it
//! holds, with its lowest six bits inverted. A write with the lock bit
//! clear unlocks it; the write that sets the lock bit again also sets or
//! clears the end of initialisation bit.

use vstd::prelude::*;
use crate::bits::bit_of;
use crate::bits::field_of;
use crate::bits::get_bit;

verus! {

/// The password that the control register expects next, where it holds `con0`.
pub open spec fn password_after(con0: u32) -> u32 {
    field_of(con0, 2, 14) ^ 0x3f
}

/// Whether `value` is a write to the control register that holds `con0`,
/// with the password expected, the reload value kept, the lock bit `lock`
/// and the end of initialisation bit `endinit`.
pub open spec fn is_password_write(con0: u32, value: u32, lock: bool, endinit: bool) -> bool {
    &&& field_of(value, 16, 16) == field_of(con0, 16, 16)
    &&& field_of(value, 2, 14) == password_after(con0)
    &&& bit_of(value, 1) == lock
    &&& bit_of(value, 0) == endinit
}

/// The password that the control register expects next, where it holds `con0`.
pub fn next_password(con0: u32) -> (password: u32)
    ensures
        password == password_after(con0),
        password <= 0x3fff,
{
    let password = ((con0 >> 2) & 0x3fff) ^ 0x003f;
    assert(password == field_of(con0, 2, 14) ^ 0x3f && password <= 0x3fff) by (bit_vector)
        requires
            password == ((con0 >> 2) & 0x3fff) ^ 0x003f,
    ;
    password
}

/// Whether the control register is locked, where it holds `con0`: then it
/// is unlocked before it is written.
pub fn is_locked(con0: u32) -> (locked: bool)
    ensures
        locked == bit_of(con0, 1),
{
    get_bit(con0, 1)
}

/// Whether the end of initialisation bit is set, where the control
/// register holds `con0`.
pub fn endinit_is_set(con0: u32) -> (set: bool)
    ensures
        set == bit_of(con0, 0),
{
    get_bit(con0, 0)
}

/// The two writes that set (`endinit` true) or clear the end of
/// initialisation bit of a control register that holds `con0`: the one
/// that unlocks the register, with the end of initialisation bit set, and
/// the one that writes the bit and locks the register again. Both carry
/// the password expected and keep the reload value.
pub fn sequence(con0: u32, endinit: bool) -> (writes: (u32, u32))
    ensures
        is_password_write(con0, writes.0, false, true),
        is_password_write(con0, writes.1, true, endinit),
{
    let reload = con0 & 0xffff_0000;
    let expected = next_password(con0);
    let password = expected << 2;
    let bit: u32 = if endinit {
        0x1
    } else {
        0x0
    };
    let unlock = reload | password | 0x1;
    let modify = reload | password | 0x2 | bit;
    assert(field_of(unlock, 16, 16) == field_of(con0, 16, 16) && field_of(unlock, 2, 14)
        == expected && bit_of(unlock, 0) && !bit_of(unlock, 1) && field_of(modify, 16, 16)
        == field_of(con0, 16, 16) && field_of(modify, 2, 14) == expected && bit_of(modify, 1)
        && bit_of(modify, 0) == (bit == 1)) by (bit_vector)
        requires
            reload == con0 & 0xffff_0000,
            expected <= 0x3fff,
            password == expected << 2,
            bit == 0 || bit == 1,
            unlock == reload | password | 0x1,
            modify == reload | password | 0x2 | bit,
    ;
    (unlock, modify)
}

} // verus!
