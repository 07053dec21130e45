//! Timer configuration and duty-cycle control.
//!
//! The timer counts from 0 up to the auto-reload value at the prescaled bus
//! clock; in PWM mode 1 the output is high while the counter is below the
//! compare value, so a compare value of `d - 1` yields a duty of `d` parts in
//! 1000.

use vstd::prelude::*;

use crate::regs::Rcc;
use crate::regs::Tim2;
use crate::regs::cc1e;
use crate::regs::cen;
use crate::regs::oc1m;
use crate::regs::tim2en;

verus! {

/// Prescaler value: divides the 84 MHz bus clock down to 1 MHz.
pub const TIM2_PSC: u32 = 84 - 1;

/// Auto-reload value: a counting period of 1000 ticks, i.e. a 1 kHz PWM.
pub const TIM2_ARR: u32 = 1000 - 1;

/// Compare value programmed at initialization: a duty of 500 parts in 1000.
pub const TIM2_INITIAL_CCR: u32 = 500 - 1;

/// Output-compare mode field value for PWM mode 1.
pub const OC1M_PWM_MODE1: u32 = 0b110;

/// Smallest duty command after clamping.
pub const DUTY_MIN: u32 = 1;

/// Largest duty command after clamping.
pub const DUTY_MAX: u32 = 1000;

/// A requested duty value clamped to the closed range [1, 1000]: 0 maps to 1,
/// values above 1000 map to 1000, everything else is kept.
pub open spec fn clamp_duty(d: u32) -> u32 {
    if d == 0 {
        1u32
    } else if d > 1000 {
        1000u32
    } else {
        d
    }
}

/// Clamps a requested duty value to the closed range [1, 1000].
pub fn clamp(d: u32) -> (r: u32)
    ensures
        r == clamp_duty(d),
        d == 0 ==> r == DUTY_MIN,
        d > 1000 ==> r == DUTY_MAX,
        1 <= d <= 1000 ==> r == d,
        DUTY_MIN <= r <= DUTY_MAX,
{
    if d == 0 {
        1
    } else if d > 1000 {
        1000
    } else {
        d
    }
}

/// The number of prescaled bus-clock ticks in one PWM period: fixed by the
/// prescaler and auto-reload values alone.
pub open spec fn pwm_period_ticks(t: Tim2) -> int {
    (t.psc + 1) * (t.arr + 1)
}

/// Output-compare mode field mask of channel 1 (bits 6:4).
pub const OC1M_MASK: u32 = 0x7 << 4;

/// PWM mode 1 for channel 1 in register position.
pub const OC1M_PWM_MODE1_BITS: u32 = 0b110 << 4;

/// Switches the timer's bus clock on. The hardware wants that clock
/// running before any timer register is touched; callers run this first,
/// then `tim2_init`.
pub fn tim2_enable_clock(rcc: &mut Rcc)
    ensures
        final(rcc).apb1enr == old(rcc).apb1enr | 1u32,
        tim2en(final(rcc).apb1enr) == 1,
        final(rcc).pllcfgr == old(rcc).pllcfgr,
        final(rcc).cfgr == old(rcc).cfgr,
        final(rcc).cr == old(rcc).cr,
        final(rcc).ahb1enr == old(rcc).ahb1enr,
{
    rcc.apb1enr = rcc.apb1enr | 1;
    proof {
        let a = old(rcc).apb1enr;
        assert((a | 1u32) & 1 == 1u32) by (bit_vector);
    }
}

/// Configures the timer for PWM: programs the prescaler and auto-reload
/// values that fix the period, selects PWM mode 1 on channel 1, and programs
/// the initial compare value. The counter is not started yet.
pub fn tim2_init(tim: &mut Tim2)
    ensures
        final(tim).psc == TIM2_PSC,
        final(tim).arr == TIM2_ARR,
        final(tim).ccmr1 == (old(tim).ccmr1 & !OC1M_MASK) | OC1M_PWM_MODE1_BITS,
        oc1m(final(tim).ccmr1) == OC1M_PWM_MODE1,
        final(tim).ccr1 == TIM2_INITIAL_CCR,
        final(tim).cr1 == old(tim).cr1,
        final(tim).ccer == old(tim).ccer,
        pwm_period_ticks(*final(tim)) == 84 * 1000,
{
    tim.psc = TIM2_PSC;
    tim.arr = TIM2_ARR;
    tim.ccmr1 = (tim.ccmr1 & !OC1M_MASK) | OC1M_PWM_MODE1_BITS;
    tim.ccr1 = TIM2_INITIAL_CCR;
    proof {
        let c = old(tim).ccmr1;
        assert(oc1m((c & !OC1M_MASK) | OC1M_PWM_MODE1_BITS) == OC1M_PWM_MODE1)
            by (bit_vector);
    }
}

/// Starts the PWM output: enables the counter and the channel 1
/// capture/compare output.
pub fn tim2_start(tim: &mut Tim2)
    ensures
        final(tim).cr1 == old(tim).cr1 | 1u32,
        cen(final(tim).cr1) == 1,
        final(tim).ccer == old(tim).ccer | 1u32,
        cc1e(final(tim).ccer) == 1,
        final(tim).psc == old(tim).psc,
        final(tim).arr == old(tim).arr,
        final(tim).ccmr1 == old(tim).ccmr1,
        final(tim).ccr1 == old(tim).ccr1,
{
    tim.cr1 = tim.cr1 | 1;
    tim.ccer = tim.ccer | 1;
    proof {
        let c = old(tim).cr1;
        assert((c | 1u32) & 1 == 1u32) by (bit_vector);
        let e = old(tim).ccer;
        assert((e | 1u32) & 1 == 1u32) by (bit_vector);
    }
}

/// The timer state after a duty change: only the compare register moves, to
/// one less than the clamped duty.
pub open spec fn spec_change_duty(t: Tim2, duty: u32) -> Tim2 {
    Tim2 { ccr1: (clamp_duty(duty) - 1) as u32, ..t }
}

/// The PWM period is fixed by the prescaler and auto-reload values alone: a
/// duty change, whatever duty is requested, leaves it unchanged.
pub proof fn lemma_period_independent_of_duty(t: Tim2, duty: u32)
    ensures
        pwm_period_ticks(spec_change_duty(t, duty)) == pwm_period_ticks(t),
        spec_change_duty(t, duty).psc == t.psc,
        spec_change_duty(t, duty).arr == t.arr,
{
}

/// Sets the PWM duty cycle: writes `clamp(duty) - 1` into the compare
/// register and touches nothing else.
pub fn tim2_change_duty(tim: &mut Tim2, duty: u32)
    ensures
        *final(tim) == spec_change_duty(*old(tim), duty),
        final(tim).ccr1 == clamp_duty(duty) - 1,
        final(tim).psc == old(tim).psc,
        final(tim).arr == old(tim).arr,
{
    let config: u32 = clamp(duty);
    tim.ccr1 = config - 1;
}

} // verus!
