use rpi_pico_sdk::gpio::{
    gpio_get, gpio_get_all, gpio_get_dir, gpio_is_dir_out, gpio_is_pulled_down,
    gpio_is_pulled_up, gpio_put_all, gpio_put_masked, gpio_set_dir_all_bits,
    gpio_set_dir_masked, gpio_set_function, gpio_set_mask, gpio_xor_mask, Gpio, GpioFunction,
    GPIO_IN, GPIO_OUT,
};
use rpi_pico_sdk::regs::{Bus, IO_BANK0_BASE, PADS_BANK0_BASE, SIO_GPIO_OE, SIO_GPIO_OUT};

fn ctrl(pin: u32) -> u32 {
    IO_BANK0_BASE + 4 + 8 * pin
}

fn pad(pin: u32) -> u32 {
    PADS_BANK0_BASE + 4 + 4 * pin
}

#[test]
fn drive_high_then_low_reads_back() {
    let mut bus = Bus::new();
    let mut led = Gpio::init(&mut bus, 25).into_push_pull_output(&mut bus);
    assert!(gpio_is_dir_out(&bus, 25));
    led.set_high(&mut bus);
    assert!(led.is_high(&bus));
    assert!(led.is_set_high(&bus));
    assert!(gpio_get(&bus, 25));
    led.set_low(&mut bus);
    assert!(!led.is_high(&bus));
    assert!(led.is_set_low(&bus));
}

#[test]
fn two_toggles_restore_the_level() {
    let mut bus = Bus::new();
    let mut led = Gpio::init(&mut bus, 3).into_push_pull_output(&mut bus);
    let before = led.is_high(&bus);
    led.toggle(&mut bus);
    assert_ne!(led.is_high(&bus), before);
    led.toggle(&mut bus);
    assert_eq!(led.is_high(&bus), before);
}

#[test]
fn toggle_leaves_other_pins() {
    let mut bus = Bus::new();
    gpio_set_mask(&mut bus, 0b1010);
    let mut p = Gpio::init(&mut bus, 0).into_push_pull_output(&mut bus);
    p.toggle(&mut bus);
    assert_eq!(bus.load(SIO_GPIO_OUT), 0b1011);
}

#[test]
fn input_reads_the_outside_level() {
    let mut bus = Bus::new();
    bus.set_inputs(1 << 26);
    let busy = Gpio::init(&mut bus, 26).into_floating_input(&mut bus);
    assert!(busy.is_high(&bus));
    bus.set_inputs(0);
    assert!(busy.is_low(&bus));
}

#[test]
fn output_pin_ignores_the_outside_level() {
    let mut bus = Bus::new();
    bus.set_inputs(0xffff_ffff);
    let p = Gpio::init(&mut bus, 5).into_push_pull_output(&mut bus);
    assert!(p.is_low(&bus));
    assert_eq!(gpio_get_all(&bus), 0xffff_ffff & !(1 << 5));
}

#[test]
fn claim_routes_pin_to_sio_as_input() {
    let mut bus = Bus::new();
    gpio_set_dir_all_bits(&mut bus, 1 << 7);
    gpio_put_all(&mut bus, 1 << 7);
    bus.store(pad(7), 0x80);
    let p = Gpio::init(&mut bus, 7);
    assert_eq!(p.pin, 7);
    assert_eq!(gpio_get_dir(&bus, 7), GPIO_IN);
    assert_eq!(bus.load(SIO_GPIO_OUT), 0);
    assert_eq!(bus.load(ctrl(7)), 5);
    assert_eq!(bus.load(pad(7)), 0x40);
}

#[test]
fn pull_transitions_set_pad_bits() {
    let mut bus = Bus::new();
    let p = Gpio::init(&mut bus, 9).into_pull_up_input(&mut bus);
    assert!(gpio_is_pulled_up(&bus, 9));
    assert!(!gpio_is_pulled_down(&bus, 9));
    let p = p.into_pull_down_input(&mut bus);
    assert!(!gpio_is_pulled_up(&bus, 9));
    assert!(gpio_is_pulled_down(&bus, 9));
    let p = p.into_bus_keep_input(&mut bus);
    assert!(gpio_is_pulled_up(&bus, 9));
    assert!(gpio_is_pulled_down(&bus, 9));
    let p = p.into_floating_input(&mut bus);
    assert!(!gpio_is_pulled_up(&bus, 9));
    assert!(!gpio_is_pulled_down(&bus, 9));
    assert_eq!(bus.load(pad(9)), 0x40);
    assert_eq!(p.pin, 9);
}

#[test]
fn output_back_to_input_clears_direction() {
    let mut bus = Bus::new();
    let out = Gpio::init(&mut bus, 12).into_push_pull_output(&mut bus);
    assert_eq!(gpio_get_dir(&bus, 12), GPIO_OUT);
    let inp = out.into_pull_up_input(&mut bus);
    assert_eq!(gpio_get_dir(&bus, 12), GPIO_IN);
    assert_eq!(inp.pin, 12);
}

#[test]
fn put_masked_sets_only_masked_pins() {
    let mut bus = Bus::new();
    gpio_put_all(&mut bus, 0b1100);
    gpio_put_masked(&mut bus, 0b0110, 0b0011);
    assert_eq!(bus.load(SIO_GPIO_OUT), 0b1010);
    gpio_xor_mask(&mut bus, 0b1111);
    assert_eq!(bus.load(SIO_GPIO_OUT), 0b0101);
}

#[test]
fn set_dir_masked_sets_each_direction() {
    let mut bus = Bus::new();
    gpio_set_dir_all_bits(&mut bus, 0b0101);
    gpio_set_dir_masked(&mut bus, 0x3, 0x2);
    assert_eq!(bus.load(SIO_GPIO_OE), 0b0110);
}

#[test]
fn set_function_selects_peripheral() {
    let mut bus = Bus::new();
    gpio_set_function(&mut bus, 18, GpioFunction::SPI);
    assert_eq!(bus.load(ctrl(18)), 1);
    gpio_set_function(&mut bus, 25, GpioFunction::PWM);
    assert_eq!(bus.load(ctrl(25)), 4);
    gpio_set_function(&mut bus, 0, GpioFunction::NULL);
    assert_eq!(bus.load(ctrl(0)), 0xf);
    assert_eq!(GpioFunction::USB.funcsel(), 9);
}

#[test]
fn claiming_twice_matches_claiming_once() {
    let mut once = Bus::new();
    once.store(pad(4), 0xc3);
    gpio_put_all(&mut once, 0xff);
    let mut twice = Bus::new();
    twice.store(pad(4), 0xc3);
    gpio_put_all(&mut twice, 0xff);
    Gpio::init(&mut once, 4);
    Gpio::init(&mut twice, 4);
    Gpio::init(&mut twice, 4);
    for addr in [pad(4), ctrl(4), SIO_GPIO_OUT, SIO_GPIO_OE] {
        assert_eq!(once.load(addr), twice.load(addr));
    }
    assert_eq!(once.load(pad(4)), 0x43);
    assert_eq!(once.load(SIO_GPIO_OUT), 0xef);
}
