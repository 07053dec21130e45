use led_pwm::clock::clock_init_pll;
use led_pwm::clock::clock_init_sysclk;
use led_pwm::clock::pll_is_ready;
use led_pwm::clock::sysclk_is_pll;
use led_pwm::gpio::gpioa5_init;
use led_pwm::gpio::gpioa_enable_clock;
use led_pwm::regs::FlashAcr;
use led_pwm::regs::Gpioa;
use led_pwm::regs::Rcc;
use led_pwm::regs::Tim2;
use led_pwm::timer::tim2_enable_clock;
use led_pwm::timer::tim2_init;
use led_pwm::timer::tim2_start;

// Register values as the hardware resets them.
fn reset_rcc() -> Rcc {
    Rcc { pllcfgr: 0x2400_3010, cfgr: 0, cr: 0x0000_0083, ahb1enr: 0, apb1enr: 0 }
}

fn reset_flash() -> FlashAcr {
    FlashAcr { acr: 0 }
}

fn reset_gpioa() -> Gpioa {
    Gpioa { moder: 0xA800_0000, afrl: 0 }
}

fn reset_tim2() -> Tim2 {
    Tim2 { psc: 0, arr: 0xFFFF_FFFF, ccmr1: 0, ccr1: 0, cr1: 0, ccer: 0 }
}

#[test]
fn pll_half_programs_the_pll_fields() {
    let mut rcc = reset_rcc();
    clock_init_pll(&mut rcc);
    assert_eq!((rcc.pllcfgr >> 16) & 0x3, 0b01, "division factor 4");
    assert_eq!((rcc.pllcfgr >> 6) & 0x1ff, 336, "multiplication factor");
    assert_eq!((rcc.cfgr >> 10) & 0x7, 0b100, "bus prescaler divides by 2");
    assert_eq!((rcc.cr >> 24) & 1, 1, "PLL switched on");
}

#[test]
fn pll_half_leaves_hardware_flags_alone() {
    let mut rcc = reset_rcc();
    clock_init_pll(&mut rcc);
    assert_eq!((rcc.cr >> 25) & 1, 0, "ready flag is hardware's to set");
    assert!(!pll_is_ready(&rcc));

    let mut locked = reset_rcc();
    locked.cr |= 1 << 25;
    clock_init_pll(&mut locked);
    assert!(pll_is_ready(&locked));
}

#[test]
fn sysclk_half_switches_source_and_latency() {
    let mut rcc = reset_rcc();
    let mut flash = reset_flash();
    clock_init_pll(&mut rcc);
    rcc.cr |= 1 << 25; // hardware: PLL locked
    clock_init_sysclk(&mut rcc, &mut flash);
    assert_eq!(rcc.cfgr & 0x3, 0b10, "source selection is the PLL output");
    assert_eq!(flash.acr & 0xf, 2, "two wait states");
    assert!(!sysclk_is_pll(&rcc), "status is hardware's to confirm");
    rcc.cfgr |= 0b10 << 2; // hardware: switch took effect
    assert!(sysclk_is_pll(&rcc));
}

#[test]
fn bring_up_twice_changes_nothing_after_lock() {
    let mut rcc = reset_rcc();
    let mut flash = reset_flash();
    clock_init_pll(&mut rcc);
    rcc.cr |= 1 << 25; // hardware: PLL locked
    clock_init_sysclk(&mut rcc, &mut flash);
    rcc.cfgr |= 0b10 << 2; // hardware: switch confirmed

    let settled_rcc = rcc;
    let settled_flash = flash;

    clock_init_pll(&mut rcc);
    assert!(pll_is_ready(&rcc), "second run leaves the lock in place");
    clock_init_sysclk(&mut rcc, &mut flash);
    assert_eq!(rcc, settled_rcc);
    assert_eq!(flash, settled_flash);
    assert_eq!(rcc.cfgr & 0x3, 0b10, "source stays PLL-selected");
    assert!(sysclk_is_pll(&rcc));
}

#[test]
fn timer_init_fixes_the_period() {
    let mut rcc = reset_rcc();
    tim2_enable_clock(&mut rcc);
    assert_eq!(rcc.apb1enr & 1, 1, "timer bus clock on");
    let mut tim = reset_tim2();
    tim2_init(&mut tim);
    assert_eq!(tim.psc, 83);
    assert_eq!(tim.arr, 999);
    assert_eq!((tim.psc + 1) * (tim.arr + 1), 84_000, "1 kHz at 84 MHz");
    assert_eq!((tim.ccmr1 >> 4) & 0x7, 0b110, "PWM mode 1");
    assert_eq!(tim.ccr1, 499, "initial duty 500 of 1000");
    assert_eq!(tim.cr1, 0, "counter not yet running");
    assert_eq!(tim.ccer, 0, "output not yet enabled");
}

#[test]
fn timer_start_enables_counter_and_output() {
    let mut tim = reset_tim2();
    tim2_init(&mut tim);
    let configured = tim;
    tim2_start(&mut tim);
    assert_eq!(tim.cr1 & 1, 1);
    assert_eq!(tim.ccer & 1, 1);
    assert_eq!(tim.psc, configured.psc);
    assert_eq!(tim.arr, configured.arr);
    assert_eq!(tim.ccr1, configured.ccr1);
    assert_eq!(tim.ccmr1, configured.ccmr1);
}

#[test]
fn pin_init_routes_timer_output_to_pin_five() {
    let mut rcc = reset_rcc();
    gpioa_enable_clock(&mut rcc);
    assert_eq!(rcc.ahb1enr & 1, 1, "port bus clock on");
    let mut gpioa = reset_gpioa();
    gpioa5_init(&mut gpioa);
    assert_eq!((gpioa.moder >> 10) & 0x3, 0b10, "alternate-function mode");
    assert_eq!((gpioa.afrl >> 20) & 0xf, 0b0001, "alternate function 1");
    assert_eq!(gpioa.moder & !(0x3 << 10), 0xA800_0000, "other pins kept");
}
