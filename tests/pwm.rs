use rpi_pico_sdk::pwm::{
    pwm_clear_irq, pwm_config_set_clkdiv_int, pwm_config_set_clkdiv_int_frac,
    pwm_config_set_clkdiv_mode, pwm_config_set_output_polarity, pwm_config_set_phase_correct,
    pwm_config_set_wrap, pwm_force_irq, pwm_get_counter, pwm_get_default_config,
    pwm_get_irq_status_mask, pwm_gpio_to_channel, pwm_gpio_to_slice_num, pwm_init,
    pwm_set_both_levels, pwm_set_chan_level, pwm_set_clkdiv_int_frac, pwm_set_clkdiv_mode,
    pwm_set_counter, pwm_set_enabled, pwm_set_gpio_level, pwm_set_irq_enabled,
    pwm_set_irq_mask_enabled, pwm_set_mask_enabled, pwm_set_output_polarity,
    pwm_set_phase_correct, pwm_set_wrap, PwmClkdivMode, PwmConfig, pwm_advance_count,
    pwm_count_adjust_pending, pwm_retard_count,
};
use rpi_pico_sdk::regs::{Bus, PWM_BASE, PWM_EN, PWM_INTE, PWM_INTF};

fn reg(slice: u32, off: u32) -> u32 {
    PWM_BASE + 0x14 * slice + off
}

const CSR: u32 = 0x00;
const DIV: u32 = 0x04;
const CTR: u32 = 0x08;
const CC: u32 = 0x0c;
const TOP: u32 = 0x10;

#[test]
fn pins_map_to_slices_and_channels() {
    assert_eq!(pwm_gpio_to_slice_num(25), 4);
    assert_eq!(pwm_gpio_to_channel(25), 1);
    assert_eq!(pwm_gpio_to_slice_num(0), 0);
    assert_eq!(pwm_gpio_to_channel(0), 0);
    assert_eq!(pwm_gpio_to_slice_num(15), 7);
    assert_eq!(pwm_gpio_to_slice_num(16), 0);
}

#[test]
fn pins_sixteen_apart_share_slice_and_channel() {
    for p in 0..100u32 {
        assert_eq!(pwm_gpio_to_slice_num(p), pwm_gpio_to_slice_num(p + 16));
        assert_eq!(pwm_gpio_to_channel(p), pwm_gpio_to_channel(p + 16));
        if p % 2 == 0 {
            assert_ne!(pwm_gpio_to_channel(p), pwm_gpio_to_channel(p + 1));
            assert_eq!(pwm_gpio_to_slice_num(p), pwm_gpio_to_slice_num(p + 1));
        }
    }
}

#[test]
fn default_config_values() {
    let c = pwm_get_default_config();
    assert_eq!(c, PwmConfig { csr: 0, div: 0x10, top: 0xffff });
}

#[test]
fn config_setters_touch_their_fields() {
    let mut c = pwm_get_default_config();
    pwm_config_set_phase_correct(&mut c, true);
    assert_eq!(c.csr, 0x02);
    pwm_config_set_output_polarity(&mut c, true, false);
    assert_eq!(c.csr, 0x06);
    pwm_config_set_output_polarity(&mut c, false, true);
    assert_eq!(c.csr, 0x0a);
    pwm_config_set_clkdiv_mode(&mut c, PwmClkdivMode::BFalling);
    assert_eq!(c.csr, 0x3a);
    pwm_config_set_phase_correct(&mut c, false);
    assert_eq!(c.csr, 0x38);
    pwm_config_set_clkdiv_int(&mut c, 4);
    assert_eq!(c.div, 0x40);
    pwm_config_set_clkdiv_int_frac(&mut c, 2, 8);
    assert_eq!(c.div, 0x28);
    pwm_config_set_wrap(&mut c, 999);
    assert_eq!(c.top, 999);
    assert_eq!(c.csr, 0x38);
}

#[test]
fn init_default_start_then_channel_a_level() {
    let mut bus = Bus::new();
    bus.store(reg(0, CTR), 1234);
    let c = pwm_get_default_config();
    pwm_init(&mut bus, 0, &c, true);
    assert_eq!(bus.load(reg(0, TOP)), 0xffff);
    assert_eq!(bus.load(reg(0, CSR)) & 1, 1);
    assert_eq!(bus.load(reg(0, DIV)), 0x10);
    assert_eq!(bus.load(reg(0, CTR)), 0);
    assert_eq!(bus.load(reg(0, CC)), 0);
    pwm_set_chan_level(&mut bus, 0, 1, 777);
    pwm_set_chan_level(&mut bus, 0, 0, 12345);
    assert_eq!(bus.load(reg(0, CC)), (777 << 16) | 12345);
    assert_eq!(bus.load(reg(1, CC)), 0);
}

#[test]
fn init_without_start_leaves_slice_stopped() {
    let mut bus = Bus::new();
    let mut c = pwm_get_default_config();
    pwm_config_set_phase_correct(&mut c, true);
    pwm_init(&mut bus, 3, &c, false);
    assert_eq!(bus.load(reg(3, CSR)), 0x02);
    pwm_set_enabled(&mut bus, 3, true);
    assert_eq!(bus.load(reg(3, CSR)), 0x03);
    pwm_set_enabled(&mut bus, 3, false);
    assert_eq!(bus.load(reg(3, CSR)), 0x02);
}

#[test]
fn channel_b_level_keeps_channel_a() {
    let mut bus = Bus::new();
    pwm_set_both_levels(&mut bus, 2, 100, 200);
    assert_eq!(bus.load(reg(2, CC)), (200 << 16) | 100);
    pwm_set_chan_level(&mut bus, 2, 1, 0xffff);
    assert_eq!(bus.load(reg(2, CC)), 0xffff_0064);
}

#[test]
fn gpio_level_goes_to_its_slice_and_channel() {
    let mut bus = Bus::new();
    pwm_set_gpio_level(&mut bus, 25, 4321);
    assert_eq!(bus.load(reg(4, CC)), 4321 << 16);
    pwm_set_gpio_level(&mut bus, 24, 11);
    assert_eq!(bus.load(reg(4, CC)), (4321 << 16) | 11);
}

#[test]
fn wrap_counter_and_divider() {
    let mut bus = Bus::new();
    pwm_set_wrap(&mut bus, 7, 500);
    assert_eq!(bus.load(reg(7, TOP)), 500);
    pwm_set_counter(&mut bus, 7, 0xffff);
    assert_eq!(pwm_get_counter(&bus, 7), -1);
    pwm_set_counter(&mut bus, 7, 300);
    assert_eq!(pwm_get_counter(&bus, 7), 300);
    pwm_set_clkdiv_int_frac(&mut bus, 7, 255, 15);
    assert_eq!(bus.load(reg(7, DIV)), 0xfff);
}

#[test]
fn csr_fields_are_written_apart() {
    let mut bus = Bus::new();
    pwm_set_enabled(&mut bus, 1, true);
    pwm_set_output_polarity(&mut bus, 1, true, true);
    assert_eq!(bus.load(reg(1, CSR)), 0x0d);
    pwm_set_clkdiv_mode(&mut bus, 1, PwmClkdivMode::BRising);
    assert_eq!(bus.load(reg(1, CSR)), 0x2d);
    pwm_set_phase_correct(&mut bus, 1, true);
    assert_eq!(bus.load(reg(1, CSR)), 0x2f);
    pwm_set_output_polarity(&mut bus, 1, false, true);
    assert_eq!(bus.load(reg(1, CSR)), 0x2b);
}

#[test]
fn interrupts_enable_clear_and_force() {
    let mut bus = Bus::new();
    pwm_set_irq_enabled(&mut bus, 4, true);
    pwm_set_irq_enabled(&mut bus, 6, true);
    assert_eq!(bus.load(PWM_INTE), 0x50);
    bus.raise_pwm_wrap(0x1f);
    assert_eq!(pwm_get_irq_status_mask(&bus), 0x10);
    pwm_clear_irq(&mut bus, 4);
    assert_eq!(pwm_get_irq_status_mask(&bus), 0);
    pwm_force_irq(&mut bus, 6);
    assert_eq!(bus.load(PWM_INTF), 0x40);
    assert_eq!(pwm_get_irq_status_mask(&bus), 0x40);
    pwm_set_irq_enabled(&mut bus, 6, false);
    assert_eq!(pwm_get_irq_status_mask(&bus), 0);
    pwm_set_irq_mask_enabled(&mut bus, 0xff, true);
    assert_eq!(bus.load(PWM_INTE), 0xff);
    pwm_set_irq_mask_enabled(&mut bus, 0x0f, false);
    assert_eq!(bus.load(PWM_INTE), 0xf0);
}

#[test]
fn mask_enable_writes_en() {
    let mut bus = Bus::new();
    pwm_set_mask_enabled(&mut bus, 0b1010_0101);
    assert_eq!(bus.load(PWM_EN), 0b1010_0101);
}

#[test]
fn advance_and_retard_move_the_counter_once_carried_out() {
    let mut bus = Bus::new();
    pwm_set_enabled(&mut bus, 5, true);
    pwm_set_counter(&mut bus, 5, 41);
    pwm_set_counter(&mut bus, 6, 9);
    pwm_advance_count(&mut bus, 5);
    assert!(pwm_count_adjust_pending(&bus, 5));
    assert!(!pwm_count_adjust_pending(&bus, 6));
    assert_eq!(pwm_get_counter(&bus, 5), 41);
    bus.complete_phase_requests();
    assert!(!pwm_count_adjust_pending(&bus, 5));
    assert_eq!(pwm_get_counter(&bus, 5), 42);
    assert_eq!(bus.load(reg(5, CSR)), 0x01);
    assert_eq!(pwm_get_counter(&bus, 6), 9);
    pwm_set_counter(&mut bus, 5, 0);
    pwm_retard_count(&mut bus, 5);
    bus.complete_phase_requests();
    assert_eq!(pwm_get_counter(&bus, 5), -1);
    assert_eq!(bus.load(reg(5, CTR)), 0xffff);
    pwm_advance_count(&mut bus, 5);
    bus.complete_phase_requests();
    assert_eq!(bus.load(reg(5, CTR)), 0);
    bus.complete_phase_requests();
    assert_eq!(bus.load(reg(5, CTR)), 0);
}
