use rpi_pico_sdk::fade::{setup_led_fade, FadeState, PICO_DEFAULT_LED_PIN};
use rpi_pico_sdk::regs::{Bus, IO_BANK0_BASE, PWM_BASE, PWM_INTE, PWM_INTR};

#[test]
fn fade_climbs_turns_and_falls() {
    let mut f = FadeState::new();
    assert_eq!((f.counter(), f.going_up()), (0, true));
    for k in 1..=254 {
        let level = f.step();
        assert_eq!(f.counter(), k);
        assert!(f.going_up());
        assert_eq!(level as i32, k * k);
    }
    let level = f.step();
    assert_eq!((f.counter(), f.going_up()), (255, false));
    assert_eq!(level, 65025);
    for k in 1..=254 {
        let level = f.step();
        assert_eq!(f.counter(), 255 - k);
        assert!(!f.going_up());
        assert_eq!(level as i32, (255 - k) * (255 - k));
    }
    let level = f.step();
    assert_eq!((f.counter(), f.going_up()), (0, true));
    assert_eq!(level, 0);
    let level = f.step();
    assert_eq!((f.counter(), f.going_up()), (1, true));
    assert_eq!(level, 1);
}

#[test]
fn each_end_is_sent_once() {
    let mut f = FadeState::new();
    let levels: Vec<u16> = (0..1020).map(|_| f.step()).collect();
    assert_eq!(levels.iter().filter(|&&l| l == 65025).count(), 2);
    assert_eq!(levels.iter().filter(|&&l| l == 0).count(), 2);
    assert_eq!(levels[254], 65025);
    assert_eq!(levels[509], 0);
    assert_eq!(levels[510..], levels[..510]);
}

#[test]
fn wrap_handler_clears_irq_and_sets_level() {
    let mut bus = Bus::new();
    let mut f = FadeState::new();
    bus.raise_pwm_wrap(1 << 4 | 1 << 2);
    f.on_pwm_wrap(&mut bus, PICO_DEFAULT_LED_PIN);
    assert_eq!(bus.load(PWM_INTR), 1 << 2);
    assert_eq!(bus.load(PWM_BASE + 0x14 * 4 + 0x0c), 1 << 16);
    for _ in 0..9 {
        f.on_pwm_wrap(&mut bus, PICO_DEFAULT_LED_PIN);
    }
    assert_eq!(bus.load(PWM_BASE + 0x14 * 4 + 0x0c), 100 << 16);
}

#[test]
fn setup_runs_led_slice_with_its_interrupt() {
    let mut bus = Bus::new();
    bus.raise_pwm_wrap(1 << 4);
    let slice = setup_led_fade(&mut bus, PICO_DEFAULT_LED_PIN);
    assert_eq!(slice, 4);
    assert_eq!(bus.load(IO_BANK0_BASE + 4 + 8 * 25), 4);
    assert_eq!(bus.load(PWM_INTR), 0);
    assert_eq!(bus.load(PWM_INTE), 1 << 4);
    let base = PWM_BASE + 0x14 * 4;
    assert_eq!(bus.load(base), 1);
    assert_eq!(bus.load(base + 0x04), 4 << 4);
    assert_eq!(bus.load(base + 0x10), 0xffff);
}
