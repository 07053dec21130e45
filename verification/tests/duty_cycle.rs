use led_pwm::cycle::cycle_step;
use led_pwm::cycle::DutyCommand;
use led_pwm::cycle::Phase;
use led_pwm::regs::Tim2;
use led_pwm::timer::clamp;
use led_pwm::timer::tim2_change_duty;

fn fresh_tim2() -> Tim2 {
    Tim2 { psc: 0, arr: 0, ccmr1: 0, ccr1: 0, cr1: 0, ccer: 0 }
}

#[test]
fn clamp_maps_zero_to_one() {
    assert_eq!(clamp(0), 1);
}

#[test]
fn clamp_keeps_in_range_values() {
    assert_eq!(clamp(1), 1);
    assert_eq!(clamp(100), 100);
    assert_eq!(clamp(500), 500);
    assert_eq!(clamp(999), 999);
    assert_eq!(clamp(1000), 1000);
}

#[test]
fn clamp_caps_values_above_thousand() {
    assert_eq!(clamp(1001), 1000);
    assert_eq!(clamp(5000), 1000);
    assert_eq!(clamp(u32::MAX), 1000);
}

#[test]
fn change_duty_writes_clamped_value_minus_one() {
    let cases: [(u32, u32); 6] =
        [(0, 0), (1, 0), (100, 99), (500, 499), (1000, 999), (1001, 999)];
    for (duty, expected_ccr) in cases {
        let mut tim = fresh_tim2();
        tim2_change_duty(&mut tim, duty);
        assert_eq!(tim.ccr1, expected_ccr);
    }
}

#[test]
fn change_duty_touches_only_the_compare_register() {
    let mut tim = Tim2 { psc: 83, arr: 999, ccmr1: 0x60, ccr1: 499, cr1: 1, ccer: 1 };
    tim2_change_duty(&mut tim, 100);
    assert_eq!(
        tim,
        Tim2 { psc: 83, arr: 999, ccmr1: 0x60, ccr1: 99, cr1: 1, ccer: 1 }
    );
}

#[test]
fn period_is_independent_of_duty() {
    let mut tim = Tim2 { psc: 83, arr: 999, ccmr1: 0x60, ccr1: 499, cr1: 1, ccer: 1 };
    for duty in [0u32, 1, 100, 500, 1000, 1001, 4096] {
        tim2_change_duty(&mut tim, duty);
        assert_eq!((tim.psc + 1) * (tim.arr + 1), 84 * 1000);
    }
}

#[test]
fn cycle_alternates_bright_then_dim() {
    let (first, after_bright) = cycle_step(Phase::Bright);
    assert_eq!(first, DutyCommand { duty: 500, delay_ms: 2000 });
    assert_eq!(after_bright, Phase::Dim);

    let (second, after_dim) = cycle_step(after_bright);
    assert_eq!(second, DutyCommand { duty: 100, delay_ms: 1000 });
    assert_eq!(after_dim, Phase::Bright);
}

#[test]
fn cycle_repeats_without_drift() {
    let mut phase = Phase::Bright;
    for round in 0..8 {
        let (cmd, next) = cycle_step(phase);
        if round % 2 == 0 {
            assert_eq!(cmd, DutyCommand { duty: 500, delay_ms: 2000 });
        } else {
            assert_eq!(cmd, DutyCommand { duty: 100, delay_ms: 1000 });
        }
        phase = next;
    }
    assert_eq!(phase, Phase::Bright);
}
