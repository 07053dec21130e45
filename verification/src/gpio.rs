//! Pin configuration: routes the timer's channel 1 output to pin 5 of GPIO
//! port A by putting the pin into alternate-function mode and selecting
//! alternate function 1.

use vstd::prelude::*;

use crate::regs::Gpioa;
use crate::regs::Rcc;
use crate::regs::afrl5;
use crate::regs::gpioaen;
use crate::regs::moder5;

verus! {

/// Mode field mask of pin 5 (bits 11:10 of the port mode register).
pub const MODER5_MASK: u32 = 0x3 << 10;

/// Mode field value selecting alternate-function mode.
pub const MODER_ALTERNATE: u32 = 0b10;

/// Alternate-function mode for pin 5 in register position.
pub const MODER5_ALT_BITS: u32 = 0b10 << 10;

/// Alternate-function field mask of pin 5 (bits 23:20 of the low
/// alternate-function register).
pub const AFRL5_MASK: u32 = 0xf << 20;

/// Alternate function 1: the timer's channel 1 output.
pub const AF1: u32 = 0b0001;

/// Alternate function 1 for pin 5 in register position.
pub const AFRL5_AF1_BITS: u32 = 0b0001 << 20;

/// Switches GPIO port A's bus clock on. The hardware wants that clock
/// running before any port register is touched; callers run this first,
/// then `gpioa5_init`.
pub fn gpioa_enable_clock(rcc: &mut Rcc)
    ensures
        final(rcc).ahb1enr == old(rcc).ahb1enr | 1u32,
        gpioaen(final(rcc).ahb1enr) == 1,
        final(rcc).pllcfgr == old(rcc).pllcfgr,
        final(rcc).cfgr == old(rcc).cfgr,
        final(rcc).cr == old(rcc).cr,
        final(rcc).apb1enr == old(rcc).apb1enr,
{
    rcc.ahb1enr = rcc.ahb1enr | 1;
    proof {
        let e = old(rcc).ahb1enr;
        assert((e | 1u32) & 1 == 1u32) by (bit_vector);
    }
}

/// Configures pin 5 of GPIO port A as the PWM output: puts the pin into
/// alternate-function mode and selects alternate function 1. Every other
/// pin's configuration is kept.
pub fn gpioa5_init(gpioa: &mut Gpioa)
    ensures
        final(gpioa).moder == (old(gpioa).moder & !MODER5_MASK) | MODER5_ALT_BITS,
        moder5(final(gpioa).moder) == MODER_ALTERNATE,
        final(gpioa).afrl == (old(gpioa).afrl & !AFRL5_MASK) | AFRL5_AF1_BITS,
        afrl5(final(gpioa).afrl) == AF1,
{
    gpioa.moder = (gpioa.moder & !MODER5_MASK) | MODER5_ALT_BITS;
    gpioa.afrl = (gpioa.afrl & !AFRL5_MASK) | AFRL5_AF1_BITS;
    proof {
        let m = old(gpioa).moder;
        assert(moder5((m & !MODER5_MASK) | MODER5_ALT_BITS) == MODER_ALTERNATE) by (bit_vector);
        let a = old(gpioa).afrl;
        assert(afrl5((a & !AFRL5_MASK) | AFRL5_AF1_BITS) == AF1) by (bit_vector);
    }
}

} // verus!
