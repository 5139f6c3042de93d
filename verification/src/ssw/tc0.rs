//! The start-up of CPU 0.

use vstd::prelude::*;
use crate::bits::bit_of;
use crate::bits::get_bit;

verus! {

/// The bits of the reset status register that stand for the requests of an
/// application reset: bits 0, 1 and 3 to 7.
pub const APP_RESET_MSK: u32 = 0xfb;

/// The flags of the reset status register that tell of a reset of the
/// power supply or of the whole device, and the register as a whole.
#[derive(Clone, Copy, Debug)]
pub struct ResetStatus {
    /// Woken from standby.
    pub stbyr: bool,
    /// Supply watchdog.
    pub swd: bool,
    /// The 3.3 V regulator.
    pub evr33: bool,
    /// The core regulator.
    pub evrc: bool,
    /// Cerberus system reset.
    pub cb1: bool,
    /// Cerberus debug reset.
    pub cb0: bool,
    /// Power-on reset.
    pub porst: bool,
    /// Cerberus application reset.
    pub cb3: bool,
    /// The whole register.
    pub raw: u32,
}

impl ResetStatus {
    /// Whether the power supply or the whole device was reset.
    pub open spec fn cold(self) -> bool {
        self.stbyr || self.swd || self.evr33 || self.evrc || self.cb1 || self.cb0 || self.porst
    }
}

/// Whether `i` is the highest of the bits 0 to 7 that is set in `v`.
pub open spec fn is_highest_request(v: u32, i: u32) -> bool {
    &&& i < 8
    &&& bit_of(v, i)
    &&& forall|j: u32| i < j < 8 ==> !#[trigger] bit_of(v, j)
}

/// How the reset configuration register `rstcon` configures request `i`:
/// the two bits at twice the number of the request.
pub open spec fn request_configuration(rstcon: u32, i: u32) -> u32 {
    (rstcon >> ((i * 2) as u32)) & 3
}

/// Whether the device comes from an application reset.
///
/// Not if the power supply or the whole device was reset. Else, if a reset
/// was requested, it depends on the highest request: whether it is
/// configured as an application reset, which is 2. Else, if Cerberus asked
/// for an application reset, or if the reset register of CPU 0 has one of
/// its reset bits set, which are bits 1 and 2.
pub open spec fn application_reset(status: ResetStatus, rstcon: u32, cpu0_krst0: u32) -> bool {
    if status.cold() {
        false
    } else if status.raw & APP_RESET_MSK > 0 {
        exists|i: u32|
            is_highest_request(status.raw & APP_RESET_MSK, i) && request_configuration(rstcon, i)
                == 2
    } else {
        status.cb3 || cpu0_krst0 & 6 != 0
    }
}

/// The highest of the bits 0 to 7 that is set in `v`.
fn highest_request(v: u32) -> (i: u32)
    requires
        v != 0,
        v & 0xffff_ff00 == 0,
    ensures
        is_highest_request(v, i),
{
    let mut i: u32 = 7;
    while !get_bit(v, i)
        invariant
            i < 8,
            v != 0,
            v & 0xffff_ff00 == 0,
            forall|j: u32| i < j < 8 ==> !#[trigger] bit_of(v, j),
        decreases i,
    {
        if i == 0 {
            assert(bit_of(v, 0) || bit_of(v, 1) || bit_of(v, 2) || bit_of(v, 3) || bit_of(v, 4)
                || bit_of(v, 5) || bit_of(v, 6) || bit_of(v, 7)) by (bit_vector)
                requires
                    v != 0,
                    v & 0xffff_ff00 == 0,
            ;
            assert(false);
        }
        i = i - 1;
    }
    i
}

/// Whether the device comes from an application reset, by the reset status
/// register, the reset configuration register and the reset register of
/// CPU 0.
pub fn is_application_reset(status: &ResetStatus, rstcon: u32, cpu0_krst0: u32) -> (application: bool)
    ensures
        application == application_reset(*status, rstcon, cpu0_krst0),
{
    if status.stbyr || status.swd || status.evr33 || status.evrc || status.cb1 || status.cb0
        || status.porst {
        false
    } else if (status.raw & APP_RESET_MSK) > 0 {
        let raw = status.raw;
        let v = raw & APP_RESET_MSK;
        assert(v & 0xffff_ff00 == 0) by (bit_vector)
            requires
                v == raw & 0xfb,
        ;
        let i = highest_request(v);
        let configured = (rstcon >> (i * 2)) & 3;
        proof {
            assert(request_configuration(rstcon, i) == configured);
            assert forall|k: u32|
                is_highest_request(v, k) implies request_configuration(rstcon, k) == configured by {
                if k < i {
                    assert(!bit_of(v, i));
                }
                if i < k {
                    assert(!bit_of(v, k));
                }
            }
        }
        configured == 2
    } else if status.cb3 {
        true
    } else {
        (cpu0_krst0 & 6) != 0
    }
}

/// Whether the clocks are to be set up at start-up: after every reset but
/// an application reset, which leaves them as they were.
pub fn init_software(application_reset: bool) -> (set_up_clocks: bool)
    ensures
        set_up_clocks == !application_reset,
{
    !application_reset
}

} // verus!
