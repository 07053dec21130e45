//! Plain-data model of the hardware register blocks that the bring-up
//! sequence programs, together with spec-level bit-field extractors.
//!
//! Each register is held as the `u32` word the hardware would hold; the
//! extractors name the individual bit fields so that contracts can speak of
//! them directly.

use vstd::prelude::*;

verus! {

/// Reset and clock control block: PLL configuration, clock configuration,
/// control/status word and the two peripheral clock-enable registers.
#[derive(Clone, Copy, Debug, PartialEq, Eq, Structural)]
pub struct Rcc {
    pub pllcfgr: u32,
    pub cfgr: u32,
    pub cr: u32,
    pub ahb1enr: u32,
    pub apb1enr: u32,
}

/// Flash access control block: only the wait-state latency register.
#[derive(Clone, Copy, Debug, PartialEq, Eq, Structural)]
pub struct FlashAcr {
    pub acr: u32,
}

/// GPIO port A block: pin mode register and the low alternate-function
/// selection register (pins 0 through 7).
#[derive(Clone, Copy, Debug, PartialEq, Eq, Structural)]
pub struct Gpioa {
    pub moder: u32,
    pub afrl: u32,
}

/// Timer block: prescaler, auto-reload, output-compare mode, compare value,
/// control word and capture/compare enable.
#[derive(Clone, Copy, Debug, PartialEq, Eq, Structural)]
pub struct Tim2 {
    pub psc: u32,
    pub arr: u32,
    pub ccmr1: u32,
    pub ccr1: u32,
    pub cr1: u32,
    pub ccer: u32,
}

/// PLL output division factor field (bits 17:16 of the PLL configuration
/// register); the encoded value `0b01` divides by 4.
pub open spec fn pllp(pllcfgr: u32) -> u32 {
    (pllcfgr >> 16) & 0x3
}

/// PLL multiplication factor field (bits 14:6 of the PLL configuration
/// register).
pub open spec fn plln(pllcfgr: u32) -> u32 {
    (pllcfgr >> 6) & 0x1ff
}

/// Low-speed bus prescaler field (bits 12:10 of the clock configuration
/// register); the encoded value `0b100` divides by 2.
pub open spec fn ppre1(cfgr: u32) -> u32 {
    (cfgr >> 10) & 0x7
}

/// System clock source selection field (bits 1:0 of the clock configuration
/// register); `0b10` selects the PLL output.
pub open spec fn sw(cfgr: u32) -> u32 {
    cfgr & 0x3
}

/// System clock source status field (bits 3:2 of the clock configuration
/// register), set by hardware; `0b10` confirms the PLL output.
pub open spec fn sws(cfgr: u32) -> u32 {
    (cfgr >> 2) & 0x3
}

/// PLL enable bit (bit 24 of the clock control register).
pub open spec fn pllon(cr: u32) -> u32 {
    (cr >> 24) & 1
}

/// PLL ready flag (bit 25 of the clock control register), set by hardware
/// once the PLL has locked.
pub open spec fn pllrdy(cr: u32) -> u32 {
    (cr >> 25) & 1
}

/// GPIO port A clock-enable bit (bit 0 of the AHB1 enable register).
pub open spec fn gpioaen(ahb1enr: u32) -> u32 {
    ahb1enr & 1
}

/// Timer clock-enable bit (bit 0 of the APB1 enable register).
pub open spec fn tim2en(apb1enr: u32) -> u32 {
    apb1enr & 1
}

/// Flash wait-state latency field (bits 3:0 of the access control register).
pub open spec fn latency(acr: u32) -> u32 {
    acr & 0xf
}

/// Mode field of pin 5 (bits 11:10 of the port mode register); `0b10` selects
/// alternate-function mode.
pub open spec fn moder5(moder: u32) -> u32 {
    (moder >> 10) & 0x3
}

/// Alternate-function selection field of pin 5 (bits 23:20 of the low
/// alternate-function register); `0b0001` routes the timer output.
pub open spec fn afrl5(afrl: u32) -> u32 {
    (afrl >> 20) & 0xf
}

/// Output-compare mode field of channel 1 (bits 6:4 of the capture/compare
/// mode register); `0b110` is PWM mode 1.
pub open spec fn oc1m(ccmr1: u32) -> u32 {
    (ccmr1 >> 4) & 0x7
}

/// Counter enable bit (bit 0 of the timer control register).
pub open spec fn cen(cr1: u32) -> u32 {
    cr1 & 1
}

/// Capture/compare channel 1 output enable bit (bit 0 of the capture/compare
/// enable register).
pub open spec fn cc1e(ccer: u32) -> u32 {
    ccer & 1
}

} // verus!
