use rpi_pico_sdk::regs::{
    hw_clear_bits, hw_set_bits, hw_write_masked, hw_xor_bits, locate, Bus, PWM_BASE, PWM_INTE,
    PWM_INTF, PWM_INTR, PWM_INTS, REG_ALIAS_CLR_BITS, REG_ALIAS_SET_BITS, REG_ALIAS_XOR_BITS,
    RESETS_RESET, RESETS_RESET_DONE, SIO_GPIO_OUT, SPI0_BASE,
};

const TOP0: u32 = PWM_BASE + 0x10;

#[test]
fn set_bits_reads_back_or() {
    let mut bus = Bus::new();
    bus.store(TOP0, 0xf0f0);
    hw_set_bits(&mut bus, TOP0, 0x0f0f);
    assert_eq!(bus.load(TOP0), 0xffff);
}

#[test]
fn clear_bits_reads_back_and_not() {
    let mut bus = Bus::new();
    bus.store(TOP0, 0xffff);
    hw_clear_bits(&mut bus, TOP0, 0x0ff0);
    assert_eq!(bus.load(TOP0), 0xf00f);
}

#[test]
fn xor_bits_reads_back_xor_and_twice_restores() {
    let mut bus = Bus::new();
    bus.store(TOP0, 0x1234);
    hw_xor_bits(&mut bus, TOP0, 0x00ff);
    assert_eq!(bus.load(TOP0), 0x12cb);
    hw_xor_bits(&mut bus, TOP0, 0x00ff);
    assert_eq!(bus.load(TOP0), 0x1234);
}

#[test]
fn write_masked_changes_only_masked_bits() {
    let mut bus = Bus::new();
    bus.store(TOP0, 0x1234_5678);
    hw_write_masked(&mut bus, TOP0, 0xffff_ffff, 0x0000_ff00);
    assert_eq!(bus.load(TOP0), 0x1234_ff78);
    hw_write_masked(&mut bus, TOP0, 0x0000_0000, 0xf000_000f);
    assert_eq!(bus.load(TOP0), 0x0234_ff70);
}

#[test]
fn write_masked_with_empty_mask_keeps_register() {
    let mut bus = Bus::new();
    bus.store(TOP0, 0xdead_beef);
    hw_write_masked(&mut bus, TOP0, 0x1234_5678, 0);
    assert_eq!(bus.load(TOP0), 0xdead_beef);
}

#[test]
fn alias_addresses_act_on_the_register() {
    let mut bus = Bus::new();
    bus.store(TOP0, 0x0f);
    bus.store(TOP0 | REG_ALIAS_SET_BITS, 0xf0);
    assert_eq!(bus.load(TOP0), 0xff);
    bus.store(TOP0 | REG_ALIAS_CLR_BITS, 0x0f);
    assert_eq!(bus.load(TOP0), 0xf0);
    bus.store(TOP0 | REG_ALIAS_XOR_BITS, 0xff);
    assert_eq!(bus.load(TOP0), 0x0f);
    assert_eq!(bus.load(TOP0 | REG_ALIAS_SET_BITS), 0x0f);
}

#[test]
fn other_registers_are_untouched() {
    let mut bus = Bus::new();
    bus.store(PWM_BASE + 0x0c, 77);
    hw_set_bits(&mut bus, TOP0, 0xffff_ffff);
    assert_eq!(bus.load(PWM_BASE + 0x0c), 77);
    assert_eq!(bus.load(PWM_BASE + 0x24), 0);
}

#[test]
fn sio_has_no_alias() {
    let mut bus = Bus::new();
    bus.store(SIO_GPIO_OUT | REG_ALIAS_SET_BITS, 0xff);
    assert_eq!(bus.load(SIO_GPIO_OUT), 0);
    assert_eq!(locate(SIO_GPIO_OUT | REG_ALIAS_SET_BITS), None);
}

#[test]
fn unmapped_addresses_read_zero() {
    let mut bus = Bus::new();
    bus.store(0x1000_0000, 5);
    assert_eq!(bus.load(0x1000_0000), 0);
    assert_eq!(locate(0x1000_0000), None);
    assert_eq!(locate(TOP0 + 1), None);
    assert_eq!(locate(PWM_BASE + 0x100), None);
}

#[test]
fn locate_finds_block_and_word() {
    assert_eq!(locate(RESETS_RESET), Some(0));
    assert_eq!(locate(SPI0_BASE + 0x08), Some(3 * 64 + 2));
    assert_eq!(locate(TOP0), Some(5 * 64 + 4));
    assert_eq!(locate(TOP0 | REG_ALIAS_CLR_BITS), Some(5 * 64 + 4));
    assert_eq!(locate(SIO_GPIO_OUT), Some(6 * 64 + 4));
}

#[test]
fn interrupt_status_combines_raw_forced_and_enabled() {
    let mut bus = Bus::new();
    bus.raise_pwm_wrap(0b0101);
    bus.store(PWM_INTF, 0b1000);
    bus.store(PWM_INTE, 0b1100);
    assert_eq!(bus.load(PWM_INTS), 0b1100);
    bus.store(PWM_INTR, 0b0100);
    assert_eq!(bus.load(PWM_INTR), 0b0001);
    bus.store(PWM_INTS, 0xffff);
    assert_eq!(bus.load(PWM_INTS), 0b1000);
}

#[test]
fn reset_done_follows_reset() {
    let mut bus = Bus::new();
    bus.store(RESETS_RESET, 0x0001_0000);
    assert_eq!(bus.load(RESETS_RESET_DONE), 0x01fe_ffff);
}

#[test]
fn masked_write_survives_a_writer_of_other_bits() {
    let mut bus = Bus::new();
    let cc = PWM_BASE + 0x0c;
    bus.store(cc, 0x1111_2222);
    let read = bus.load(cc);
    hw_xor_bits(&mut bus, cc, 0xffff_0000);
    bus.store(cc | REG_ALIAS_XOR_BITS, (read ^ 0x0000_abcd) & 0x0000_ffff);
    assert_eq!(bus.load(cc), 0xeeee_abcd);
}
