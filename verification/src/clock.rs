//! Clock-tree bring-up: PLL configuration and the switch of the system clock
//! to the PLL output.
//!
//! The hardware imposes an order: the PLL is configured and switched on
//! first, then the caller busy-waits on the ready flag, and only then may the
//! flash wait states be raised and the system clock source be switched (and
//! confirmed by a second busy-wait). The two halves of that sequence are
//! `clock_init_pll` and `clock_init_sysclk`; the two wait conditions are
//! `pll_is_ready` and `sysclk_is_pll`.

use vstd::prelude::*;

use crate::regs::FlashAcr;
use crate::regs::Rcc;
use crate::regs::latency;
use crate::regs::pllon;
use crate::regs::pllp;
use crate::regs::plln;
use crate::regs::pllrdy;
use crate::regs::ppre1;
use crate::regs::sw;
use crate::regs::sws;

verus! {

/// PLL output division factor field mask (bits 17:16).
pub const PLLP_MASK: u32 = 0x3 << 16;

/// Field value selecting division by 4.
pub const PLLP_DIV4: u32 = 0b01;

/// Division-by-4 selection in register position.
pub const PLLP_DIV4_BITS: u32 = 0b01 << 16;

/// PLL multiplication factor field mask (bits 14:6).
pub const PLLN_MASK: u32 = 0x1ff << 6;

/// PLL multiplication factor: 16 MHz internal oscillator / 16 * 336 / 4
/// gives an 84 MHz system clock.
pub const PLLN_VALUE: u32 = 336;

/// Multiplication factor in register position.
pub const PLLN_BITS: u32 = 336 << 6;

/// Low-speed bus prescaler field mask (bits 12:10).
pub const PPRE1_MASK: u32 = 0x7 << 10;

/// Field value selecting division by 2.
pub const PPRE1_DIV2: u32 = 0b100;

/// Division-by-2 selection in register position.
pub const PPRE1_DIV2_BITS: u32 = 0b100 << 10;

/// PLL enable bit (bit 24 of the clock control register).
pub const PLLON_BIT: u32 = 1 << 24;

/// PLL ready flag (bit 25 of the clock control register), owned by hardware.
pub const PLLRDY_BIT: u32 = 1 << 25;

/// System clock source status field mask (bits 3:2), owned by hardware.
pub const SWS_MASK: u32 = 0x3 << 2;

/// System clock source selection field mask (bits 1:0).
pub const SW_MASK: u32 = 0x3;

/// Source selection value for the PLL output.
pub const SW_PLL: u32 = 0b10;

/// Source status value confirming the PLL output (bits 3:2).
pub const SWS_PLL: u32 = 0b10;

/// Flash wait-state latency field mask (bits 3:0).
pub const LATENCY_MASK: u32 = 0xf;

/// Two wait states, required at an 84 MHz system clock.
pub const LATENCY_TWO_WS: u32 = 2;

/// The PLL configuration register after programming: division factor 4 and
/// multiplication factor 336, every other field kept.
pub open spec fn spec_pll_config(pllcfgr: u32) -> u32 {
    ((pllcfgr & !PLLP_MASK | PLLP_DIV4_BITS) & !PLLN_MASK) | PLLN_BITS
}

/// The clock-control state after the first half of the bring-up: PLL
/// configured, bus prescaler set, PLL switched on.
pub open spec fn spec_clock_init_pll(r: Rcc) -> Rcc {
    Rcc {
        pllcfgr: spec_pll_config(r.pllcfgr),
        cfgr: (r.cfgr & !PPRE1_MASK) | PPRE1_DIV2_BITS,
        cr: r.cr | PLLON_BIT,
        ..r
    }
}

/// The state after the second half of the bring-up: flash wait states
/// raised, system clock source switched to the PLL output.
pub open spec fn spec_clock_init_sysclk(r: Rcc, f: FlashAcr) -> (Rcc, FlashAcr) {
    (
        Rcc { cfgr: (r.cfgr & !SW_MASK) | SW_PLL, ..r },
        FlashAcr { acr: (f.acr & !LATENCY_MASK) | LATENCY_TWO_WS },
    )
}

/// The state after the whole bring-up sequence (busy-waits aside).
pub open spec fn spec_clock_init(r: Rcc, f: FlashAcr) -> (Rcc, FlashAcr) {
    spec_clock_init_sysclk(spec_clock_init_pll(r), f)
}

/// First half of the clock bring-up: selects PLL division factor 4 and
/// multiplication factor 336, sets the low-speed bus prescaler to divide by
/// 2, and switches the PLL on. The caller must then wait on `pll_is_ready`
/// before `clock_init_sysclk`.
pub fn clock_init_pll(rcc: &mut Rcc)
    ensures
        *final(rcc) == spec_clock_init_pll(*old(rcc)),
        pllp(final(rcc).pllcfgr) == PLLP_DIV4,
        plln(final(rcc).pllcfgr) == PLLN_VALUE,
        ppre1(final(rcc).cfgr) == PPRE1_DIV2,
        pllon(final(rcc).cr) == 1,
        sw(final(rcc).cfgr) == sw(old(rcc).cfgr),
        sws(final(rcc).cfgr) == sws(old(rcc).cfgr),
        pllrdy(final(rcc).cr) == pllrdy(old(rcc).cr),
        final(rcc).ahb1enr == old(rcc).ahb1enr,
        final(rcc).apb1enr == old(rcc).apb1enr,
{
    rcc.pllcfgr = (rcc.pllcfgr & !PLLP_MASK) | PLLP_DIV4_BITS;
    rcc.pllcfgr = (rcc.pllcfgr & !PLLN_MASK) | PLLN_BITS;
    rcc.cfgr = (rcc.cfgr & !PPRE1_MASK) | PPRE1_DIV2_BITS;
    rcc.cr = rcc.cr | PLLON_BIT;
    proof {
        let p = old(rcc).pllcfgr;
        assert(pllp(spec_pll_config(p)) == PLLP_DIV4) by (bit_vector);
        assert(plln(spec_pll_config(p)) == PLLN_VALUE) by (bit_vector);
        let c = old(rcc).cfgr;
        assert(ppre1((c & !PPRE1_MASK) | PPRE1_DIV2_BITS) == PPRE1_DIV2) by (bit_vector);
        assert(sw((c & !PPRE1_MASK) | PPRE1_DIV2_BITS) == sw(c)) by (bit_vector);
        assert(sws((c & !PPRE1_MASK) | PPRE1_DIV2_BITS) == sws(c)) by (bit_vector);
        let w = old(rcc).cr;
        assert(pllon(w | PLLON_BIT) == 1) by (bit_vector);
        assert(pllrdy(w | PLLON_BIT) == pllrdy(w)) by (bit_vector);
    }
}

/// The PLL ready flag, set by hardware once the PLL has locked: the first
/// busy-wait condition of the bring-up.
pub fn pll_is_ready(rcc: &Rcc) -> (r: bool)
    ensures
        r == (pllrdy(rcc.cr) == 1),
{
    (rcc.cr >> 25) & 1 == 1
}

/// Second half of the clock bring-up, to be run once the PLL has locked:
/// raises the flash latency to two wait states and switches the system clock
/// source to the PLL output. The caller must then wait on `sysclk_is_pll`.
pub fn clock_init_sysclk(rcc: &mut Rcc, flash: &mut FlashAcr)
    ensures
        *final(rcc) == spec_clock_init_sysclk(*old(rcc), *old(flash)).0,
        *final(flash) == spec_clock_init_sysclk(*old(rcc), *old(flash)).1,
        sw(final(rcc).cfgr) == SW_PLL,
        latency(final(flash).acr) == LATENCY_TWO_WS,
        ppre1(final(rcc).cfgr) == ppre1(old(rcc).cfgr),
        sws(final(rcc).cfgr) == sws(old(rcc).cfgr),
        final(rcc).pllcfgr == old(rcc).pllcfgr,
        final(rcc).cr == old(rcc).cr,
        final(rcc).ahb1enr == old(rcc).ahb1enr,
        final(rcc).apb1enr == old(rcc).apb1enr,
{
    flash.acr = (flash.acr & !LATENCY_MASK) | LATENCY_TWO_WS;
    rcc.cfgr = (rcc.cfgr & !SW_MASK) | SW_PLL;
    proof {
        let a = old(flash).acr;
        assert(latency((a & !LATENCY_MASK) | LATENCY_TWO_WS) == LATENCY_TWO_WS) by (bit_vector);
        let c = old(rcc).cfgr;
        assert(sw((c & !SW_MASK) | SW_PLL) == SW_PLL) by (bit_vector);
        assert(ppre1((c & !SW_MASK) | SW_PLL) == ppre1(c)) by (bit_vector);
        assert(sws((c & !SW_MASK) | SW_PLL) == sws(c)) by (bit_vector);
    }
}

/// Re-invoking the clock bring-up after a successful one is harmless. Take
/// any state `(r1, f1)` that a completed bring-up from `(r0, f0)` left
/// behind, with the two hardware-owned status fields — the PLL ready flag
/// and the clock-switch status — moved freely by the hardware since. A
/// second bring-up changes no register at all, and the system clock source
/// selection stays on the PLL output throughout.
pub proof fn lemma_clock_init_idempotent(r0: Rcc, f0: FlashAcr, r1: Rcc, f1: FlashAcr)
    requires
        r1.pllcfgr == spec_clock_init(r0, f0).0.pllcfgr,
        r1.cfgr & !SWS_MASK == spec_clock_init(r0, f0).0.cfgr & !SWS_MASK,
        r1.cr & !PLLRDY_BIT == spec_clock_init(r0, f0).0.cr & !PLLRDY_BIT,
        r1.ahb1enr == spec_clock_init(r0, f0).0.ahb1enr,
        r1.apb1enr == spec_clock_init(r0, f0).0.apb1enr,
        f1.acr == spec_clock_init(r0, f0).1.acr,
    ensures
        spec_clock_init(r1, f1).0 == r1,
        spec_clock_init(r1, f1).1 == f1,
        sw(r1.cfgr) == SW_PLL,
        pllrdy(spec_clock_init(r1, f1).0.cr) == pllrdy(r1.cr),
{
    let p0 = r0.pllcfgr;
    let p1 = r1.pllcfgr;
    assert(spec_pll_config(spec_pll_config(p0)) == spec_pll_config(p0)) by (bit_vector);
    let c0 = r0.cfgr;
    let c1 = r1.cfgr;
    assert(((((c1 & !PPRE1_MASK) | PPRE1_DIV2_BITS) & !SW_MASK) | SW_PLL) == c1
        && sw(c1) == SW_PLL) by (bit_vector)
        requires
            c1 & !SWS_MASK == (((((c0 & !PPRE1_MASK) | PPRE1_DIV2_BITS) & !SW_MASK) | SW_PLL)
                & !SWS_MASK),
    ;
    let w0 = r0.cr;
    let w1 = r1.cr;
    assert((w1 | PLLON_BIT) == w1) by (bit_vector)
        requires
            w1 & !PLLRDY_BIT == (w0 | PLLON_BIT) & !PLLRDY_BIT,
    ;
    let a0 = f0.acr;
    let a1 = f1.acr;
    assert(((a1 & !LATENCY_MASK) | LATENCY_TWO_WS) == a1) by (bit_vector)
        requires
            a1 == (a0 & !LATENCY_MASK) | LATENCY_TWO_WS,
    ;
}

/// The system clock source status, set by hardware once the switch to the
/// PLL output has taken effect: the second busy-wait condition.
pub fn sysclk_is_pll(rcc: &Rcc) -> (r: bool)
    ensures
        r == (sws(rcc.cfgr) == SWS_PLL),
{
    (rcc.cfgr >> 2) & 0x3 == SWS_PLL
}

} // verus!
