//! GPIO: single pins and pin masks through the SIO block, pad pulls, function
//! select, and a pin handle whose type records its mode.
use core::marker::PhantomData;
use vstd::prelude::*;

use crate::regs::{
    hw_write_masked, lemma_block_reg, masked, slot, Bus, BusState, IO_BANK0_BASE, PADS_BANK0_BASE, SIO_GPIO_IN,
    SIO_GPIO_OE, SIO_GPIO_OE_CLR, SIO_GPIO_OE_SET, SIO_GPIO_OE_XOR, SIO_GPIO_OUT,
    SIO_GPIO_OUT_CLR, SIO_GPIO_OUT_SET, SIO_GPIO_OUT_XOR,
};

verus! {

/// Number of user GPIOs in bank 0.
pub const NUM_BANK0_GPIOS: u32 = 30;

/// Direction value of an input pin.
pub const GPIO_IN: u32 = 0;

/// Direction value of an output pin.
pub const GPIO_OUT: u32 = 1;

pub const PADS_BANK0_GPIO0_OD_BITS: u32 = 0x80;

pub const PADS_BANK0_GPIO0_IE_BITS: u32 = 0x40;

pub const PADS_BANK0_GPIO0_PUE_BITS: u32 = 0x08;

pub const PADS_BANK0_GPIO0_PDE_BITS: u32 = 0x04;

/// The peripheral that a pin is routed to.
#[derive(Clone, Copy, Debug, PartialEq, Eq, Structural)]
pub enum GpioFunction {
    XIP,
    SPI,
    UART,
    I2C,
    PWM,
    SIO,
    PIO0,
    PIO1,
    GPCK,
    USB,
    NULL,
}

/// The function-select code of each routing.
pub open spec fn funcsel_spec(f: GpioFunction) -> u32 {
    match f {
        GpioFunction::XIP => 0,
        GpioFunction::SPI => 1,
        GpioFunction::UART => 2,
        GpioFunction::I2C => 3,
        GpioFunction::PWM => 4,
        GpioFunction::SIO => 5,
        GpioFunction::PIO0 => 6,
        GpioFunction::PIO1 => 7,
        GpioFunction::GPCK => 8,
        GpioFunction::USB => 9,
        GpioFunction::NULL => 0xf,
    }
}

impl GpioFunction {
    /// The function-select code of this routing.
    pub fn funcsel(&self) -> (r: u32)
        ensures
            r == funcsel_spec(*self),
    {
        match self {
            GpioFunction::XIP => 0,
            GpioFunction::SPI => 1,
            GpioFunction::UART => 2,
            GpioFunction::I2C => 3,
            GpioFunction::PWM => 4,
            GpioFunction::SIO => 5,
            GpioFunction::PIO0 => 6,
            GpioFunction::PIO1 => 7,
            GpioFunction::GPCK => 8,
            GpioFunction::USB => 9,
            GpioFunction::NULL => 0xf,
        }
    }
}

/// The one-bit mask of pin `gpio`.
pub open spec fn pin_mask(gpio: u32) -> u32 {
    1u32 << gpio
}

/// Address of the pad control register of pin `gpio`.
pub open spec fn pads_io(gpio: u32) -> u32 {
    (PADS_BANK0_BASE + 4 + 4 * gpio) as u32
}

/// Address of the control register (function select) of pin `gpio`.
pub open spec fn io_ctrl(gpio: u32) -> u32 {
    (IO_BANK0_BASE + 4 + 8 * gpio) as u32
}

/// The level that pin `gpio` reads.
pub open spec fn pin_level(b: BusState, gpio: u32) -> bool {
    b.loaded(SIO_GPIO_IN) & pin_mask(gpio) != 0
}

/// Whether pin `gpio` is driven by its output.
pub open spec fn pin_is_output(b: BusState, gpio: u32) -> bool {
    b.reg(SIO_GPIO_OE) & pin_mask(gpio) != 0
}

/// The pad bits for the pulls: pull-up, pull-down, both (bus keep) or none.
pub open spec fn pulls_value(up: bool, down: bool) -> u32 {
    (if up {
        PADS_BANK0_GPIO0_PUE_BITS
    } else {
        0u32
    }) | (if down {
        PADS_BANK0_GPIO0_PDE_BITS
    } else {
        0u32
    })
}

/// The bus with the output bits of `mask` set to those of `value`.
pub open spec fn put_masked(b: BusState, mask: u32, value: u32) -> BusState {
    b.with_reg(SIO_GPIO_OUT, masked(b.reg(SIO_GPIO_OUT), value, mask))
}

/// The bus with pin `gpio`'s output driven to `value`.
pub open spec fn put(b: BusState, gpio: u32, value: bool) -> BusState {
    put_masked(b, pin_mask(gpio), if value { pin_mask(gpio) } else { 0 })
}

/// The bus with the direction bits of `mask` set to those of `value`.
pub open spec fn dir_masked(b: BusState, mask: u32, value: u32) -> BusState {
    b.with_reg(SIO_GPIO_OE, masked(b.reg(SIO_GPIO_OE), value, mask))
}

/// The bus with pin `gpio` an output (`out`) or an input.
pub open spec fn set_dir(b: BusState, gpio: u32, out: bool) -> BusState {
    dir_masked(b, pin_mask(gpio), if out { pin_mask(gpio) } else { 0 })
}

/// The bus with the pulls of pin `gpio` set.
pub open spec fn set_pulls(b: BusState, gpio: u32, up: bool, down: bool) -> BusState {
    let a = pads_io(gpio);
    b.with_reg(
        a,
        masked(b.reg(a), pulls_value(up, down), PADS_BANK0_GPIO0_PUE_BITS | PADS_BANK0_GPIO0_PDE_BITS),
    )
}

/// The bus with pin `gpio` routed to `f`: input enabled, output not disabled,
/// function selected.
pub open spec fn set_function(b: BusState, gpio: u32, f: GpioFunction) -> BusState {
    let a = pads_io(gpio);
    let b1 = b.with_reg(
        a,
        masked(b.reg(a), PADS_BANK0_GPIO0_IE_BITS, PADS_BANK0_GPIO0_IE_BITS | PADS_BANK0_GPIO0_OD_BITS),
    );
    b1.with_reg(io_ctrl(gpio), funcsel_spec(f))
}

/// The bus after pin `gpio` is claimed: an input, output low, routed to SIO.
pub open spec fn init_pin(b: BusState, gpio: u32) -> BusState {
    set_function(put(set_dir(b, gpio, false), gpio, false), gpio, GpioFunction::SIO)
}

proof fn lemma_pin_regs(gpio: u32)
    requires
        gpio < NUM_BANK0_GPIOS,
    ensures
        crate::regs::is_aliasable_reg(pads_io(gpio)),
        slot(pads_io(gpio)) == 128 + 1 + gpio,
        slot(io_ctrl(gpio)) == 64 + 1 + 2 * gpio,
{
    lemma_block_reg(PADS_BANK0_BASE, (4 + 4 * gpio) as u32);
    lemma_block_reg(IO_BANK0_BASE, (4 + 8 * gpio) as u32);
}

/// `x | m` and `x & !m` are masked writes of all ones and all zeros.
proof fn lemma_set_clr_as_masked(x: u32, m: u32)
    by (bit_vector)
    ensures
        x | m == (x & !m) | (m & m),
        x & !m == (x & !m) | (0u32 & m),
{
}

/// A masked write through the XOR register.
proof fn lemma_xor_as_masked(x: u32, value: u32, mask: u32)
    by (bit_vector)
    ensures
        x ^ ((x ^ value) & mask) == (x & !mask) | (value & mask),
{
}

/// Returns the level of pin `gpio`.
pub fn gpio_get(bus: &Bus, gpio: u32) -> (r: bool)
    requires
        bus@.wf(),
        gpio < NUM_BANK0_GPIOS,
    ensures
        r == pin_level(bus@, gpio),
{
    (bus.load(SIO_GPIO_IN) & (1u32 << gpio)) != 0
}

/// Returns the levels of all pins, pin n at bit n.
pub fn gpio_get_all(bus: &Bus) -> (r: u32)
    requires
        bus@.wf(),
    ensures
        r == bus@.loaded(SIO_GPIO_IN),
{
    bus.load(SIO_GPIO_IN)
}

/// Drives high every pin in `mask`.
pub fn gpio_set_mask(bus: &mut Bus, mask: u32)
    requires
        old(bus)@.wf(),
    ensures
        final(bus)@.wf(),
        final(bus)@ == old(bus)@.with_reg(SIO_GPIO_OUT, old(bus)@.reg(SIO_GPIO_OUT) | mask),
{
    bus.store(SIO_GPIO_OUT_SET, mask);
}

/// Drives low every pin in `mask`.
pub fn gpio_clr_mask(bus: &mut Bus, mask: u32)
    requires
        old(bus)@.wf(),
    ensures
        final(bus)@.wf(),
        final(bus)@ == old(bus)@.with_reg(SIO_GPIO_OUT, old(bus)@.reg(SIO_GPIO_OUT) & !mask),
{
    bus.store(SIO_GPIO_OUT_CLR, mask);
}

/// Toggles every pin in `mask`.
pub fn gpio_xor_mask(bus: &mut Bus, mask: u32)
    requires
        old(bus)@.wf(),
    ensures
        final(bus)@.wf(),
        final(bus)@ == old(bus)@.with_reg(SIO_GPIO_OUT, old(bus)@.reg(SIO_GPIO_OUT) ^ mask),
{
    bus.store(SIO_GPIO_OUT_XOR, mask);
}

/// Drives each pin in `mask` to the matching bit of `value`, leaving the other
/// pins as they were. The change is one store to the XOR register.
pub fn gpio_put_masked(bus: &mut Bus, mask: u32, value: u32)
    requires
        old(bus)@.wf(),
    ensures
        final(bus)@.wf(),
        final(bus)@ == put_masked(old(bus)@, mask, value),
{
    let cur = bus.load(SIO_GPIO_OUT);
    proof {
        lemma_xor_as_masked(cur, value, mask);
    }
    bus.store(SIO_GPIO_OUT_XOR, (cur ^ value) & mask);
}

/// Drives all pins at once.
pub fn gpio_put_all(bus: &mut Bus, value: u32)
    requires
        old(bus)@.wf(),
    ensures
        final(bus)@.wf(),
        final(bus)@ == old(bus)@.with_reg(SIO_GPIO_OUT, value),
{
    bus.store(SIO_GPIO_OUT, value);
}

/// Drives pin `gpio` high (`value`) or low.
pub fn gpio_put(bus: &mut Bus, gpio: u32, value: bool)
    requires
        old(bus)@.wf(),
        gpio < NUM_BANK0_GPIOS,
    ensures
        final(bus)@.wf(),
        final(bus)@ == put(old(bus)@, gpio, value),
{
    let mask = 1u32 << gpio;
    proof {
        lemma_set_clr_as_masked(bus@.reg(SIO_GPIO_OUT), mask);
    }
    if value {
        gpio_set_mask(bus, mask);
    } else {
        gpio_clr_mask(bus, mask);
    }
}

/// Makes every pin in `mask` an output.
pub fn gpio_set_dir_out_masked(bus: &mut Bus, mask: u32)
    requires
        old(bus)@.wf(),
    ensures
        final(bus)@.wf(),
        final(bus)@ == old(bus)@.with_reg(SIO_GPIO_OE, old(bus)@.reg(SIO_GPIO_OE) | mask),
{
    bus.store(SIO_GPIO_OE_SET, mask);
}

/// Makes every pin in `mask` an input.
pub fn gpio_set_dir_in_masked(bus: &mut Bus, mask: u32)
    requires
        old(bus)@.wf(),
    ensures
        final(bus)@.wf(),
        final(bus)@ == old(bus)@.with_reg(SIO_GPIO_OE, old(bus)@.reg(SIO_GPIO_OE) & !mask),
{
    bus.store(SIO_GPIO_OE_CLR, mask);
}

/// Sets the direction of each pin in `mask` to the matching bit of `value`
/// (1 output, 0 input), leaving the other pins as they were.
pub fn gpio_set_dir_masked(bus: &mut Bus, mask: u32, value: u32)
    requires
        old(bus)@.wf(),
    ensures
        final(bus)@.wf(),
        final(bus)@ == dir_masked(old(bus)@, mask, value),
{
    let cur = bus.load(SIO_GPIO_OE);
    proof {
        lemma_xor_as_masked(cur, value, mask);
    }
    bus.store(SIO_GPIO_OE_XOR, (cur ^ value) & mask);
}

/// Sets the direction of all pins at once; bit n is 1 for pin n an output.
pub fn gpio_set_dir_all_bits(bus: &mut Bus, values: u32)
    requires
        old(bus)@.wf(),
    ensures
        final(bus)@.wf(),
        final(bus)@ == old(bus)@.with_reg(SIO_GPIO_OE, values),
{
    bus.store(SIO_GPIO_OE, values);
}

/// Makes pin `gpio` an output where `out` is non-zero, else an input.
pub fn gpio_set_dir(bus: &mut Bus, gpio: u32, out: u32)
    requires
        old(bus)@.wf(),
        gpio < NUM_BANK0_GPIOS,
    ensures
        final(bus)@.wf(),
        final(bus)@ == set_dir(old(bus)@, gpio, out != 0),
{
    let mask = 1u32 << gpio;
    proof {
        lemma_set_clr_as_masked(bus@.reg(SIO_GPIO_OE), mask);
    }
    if out != 0 {
        gpio_set_dir_out_masked(bus, mask);
    } else {
        gpio_set_dir_in_masked(bus, mask);
    }
}

/// Whether pin `gpio` is an output.
pub fn gpio_is_dir_out(bus: &Bus, gpio: u32) -> (r: bool)
    requires
        bus@.wf(),
        gpio < NUM_BANK0_GPIOS,
    ensures
        r == pin_is_output(bus@, gpio),
{
    bus.load(SIO_GPIO_OE) & (1u32 << gpio) != 0
}

/// The direction of pin `gpio`: 1 for output, 0 for input.
pub fn gpio_get_dir(bus: &Bus, gpio: u32) -> (r: u32)
    requires
        bus@.wf(),
        gpio < NUM_BANK0_GPIOS,
    ensures
        r == (if pin_is_output(bus@, gpio) {
            GPIO_OUT
        } else {
            GPIO_IN
        }),
{
    if gpio_is_dir_out(bus, gpio) {
        GPIO_OUT
    } else {
        GPIO_IN
    }
}

/// Sets the pulls of pin `gpio` in one masked write of its pad register. Both
/// pulls together keep the bus at its last level.
pub fn gpio_set_pulls(bus: &mut Bus, gpio: u32, up: bool, down: bool)
    requires
        old(bus)@.wf(),
        gpio < NUM_BANK0_GPIOS,
    ensures
        final(bus)@.wf(),
        final(bus)@ == set_pulls(old(bus)@, gpio, up, down),
{
    proof {
        lemma_pin_regs(gpio);
    }
    let up_bits: u32 = if up {
        PADS_BANK0_GPIO0_PUE_BITS
    } else {
        0
    };
    let down_bits: u32 = if down {
        PADS_BANK0_GPIO0_PDE_BITS
    } else {
        0
    };
    hw_write_masked(
        bus,
        PADS_BANK0_BASE + 4 + 4 * gpio,
        up_bits | down_bits,
        PADS_BANK0_GPIO0_PUE_BITS | PADS_BANK0_GPIO0_PDE_BITS,
    );
}

/// Pulls pin `gpio` up.
pub fn gpio_pull_up(bus: &mut Bus, gpio: u32)
    requires
        old(bus)@.wf(),
        gpio < NUM_BANK0_GPIOS,
    ensures
        final(bus)@.wf(),
        final(bus)@ == set_pulls(old(bus)@, gpio, true, false),
{
    gpio_set_pulls(bus, gpio, true, false);
}

/// Pulls pin `gpio` down.
pub fn gpio_pull_down(bus: &mut Bus, gpio: u32)
    requires
        old(bus)@.wf(),
        gpio < NUM_BANK0_GPIOS,
    ensures
        final(bus)@.wf(),
        final(bus)@ == set_pulls(old(bus)@, gpio, false, true),
{
    gpio_set_pulls(bus, gpio, false, true);
}

/// Leaves pin `gpio` floating.
pub fn gpio_disable_pulls(bus: &mut Bus, gpio: u32)
    requires
        old(bus)@.wf(),
        gpio < NUM_BANK0_GPIOS,
    ensures
        final(bus)@.wf(),
        final(bus)@ == set_pulls(old(bus)@, gpio, false, false),
{
    gpio_set_pulls(bus, gpio, false, false);
}

/// Whether pin `gpio` is pulled up.
pub fn gpio_is_pulled_up(bus: &Bus, gpio: u32) -> (r: bool)
    requires
        bus@.wf(),
        gpio < NUM_BANK0_GPIOS,
    ensures
        r == (bus@.reg(pads_io(gpio)) & PADS_BANK0_GPIO0_PUE_BITS != 0),
{
    proof {
        lemma_pin_regs(gpio);
    }
    bus.load(PADS_BANK0_BASE + 4 + 4 * gpio) & PADS_BANK0_GPIO0_PUE_BITS != 0
}

/// Whether pin `gpio` is pulled down.
pub fn gpio_is_pulled_down(bus: &Bus, gpio: u32) -> (r: bool)
    requires
        bus@.wf(),
        gpio < NUM_BANK0_GPIOS,
    ensures
        r == (bus@.reg(pads_io(gpio)) & PADS_BANK0_GPIO0_PDE_BITS != 0),
{
    proof {
        lemma_pin_regs(gpio);
    }
    bus.load(PADS_BANK0_BASE + 4 + 4 * gpio) & PADS_BANK0_GPIO0_PDE_BITS != 0
}

/// Routes pin `gpio` to the peripheral `f`: enables its input, clears its output
/// disable, and selects the function.
pub fn gpio_set_function(bus: &mut Bus, gpio: u32, f: GpioFunction)
    requires
        old(bus)@.wf(),
        gpio < NUM_BANK0_GPIOS,
    ensures
        final(bus)@.wf(),
        final(bus)@ == set_function(old(bus)@, gpio, f),
{
    proof {
        lemma_pin_regs(gpio);
    }
    hw_write_masked(
        bus,
        PADS_BANK0_BASE + 4 + 4 * gpio,
        PADS_BANK0_GPIO0_IE_BITS,
        PADS_BANK0_GPIO0_IE_BITS | PADS_BANK0_GPIO0_OD_BITS,
    );
    bus.store(IO_BANK0_BASE + 4 + 8 * gpio, f.funcsel());
}

/// Claims pin `gpio` for software control: an input, output latch low, routed
/// to SIO.
pub fn gpio_init(bus: &mut Bus, gpio: u32)
    requires
        old(bus)@.wf(),
        gpio < NUM_BANK0_GPIOS,
    ensures
        final(bus)@.wf(),
        final(bus)@ == init_pin(old(bus)@, gpio),
{
    gpio_set_dir(bus, gpio, GPIO_IN);
    gpio_put(bus, gpio, false);
    gpio_set_function(bus, gpio, GpioFunction::SIO);
}

/// The bus with the output bits of `mask` inverted.
pub open spec fn toggled(b: BusState, mask: u32) -> BusState {
    b.with_reg(SIO_GPIO_OUT, b.reg(SIO_GPIO_OUT) ^ mask)
}

proof fn lemma_level_bits(out: u32, oe: u32, inp: u32, pin: u32)
    by (bit_vector)
    requires
        pin < 32,
        oe & (1u32 << pin) != 0,
    ensures
        ((((out & !(1u32 << pin)) | ((1u32 << pin) & (1u32 << pin))) & oe) | (inp & !oe)) & (1u32
            << pin) != 0,
        ((((out & !(1u32 << pin)) | (0u32 & (1u32 << pin))) & oe) | (inp & !oe)) & (1u32 << pin)
            == 0,
        (out ^ (1u32 << pin)) ^ (1u32 << pin) == out,
{
}

/// On a pin that drives its output, the level read back follows what was
/// driven: high after driving high, low after driving low, and two toggles
/// restore the bus, so the level, as it was.
pub proof fn lemma_output_read_back(b: BusState, pin: u32)
    requires
        b.wf(),
        pin < NUM_BANK0_GPIOS,
        pin_is_output(b, pin),
    ensures
        pin_level(put(b, pin, true), pin),
        !pin_level(put(b, pin, false), pin),
        toggled(toggled(b, pin_mask(pin)), pin_mask(pin)) == b,
        pin_level(toggled(toggled(b, pin_mask(pin)), pin_mask(pin)), pin) == pin_level(b, pin),
{
    lemma_level_bits(b.reg(SIO_GPIO_OUT), b.reg(SIO_GPIO_OE), b.inputs, pin);
    let t = toggled(toggled(b, pin_mask(pin)), pin_mask(pin));
    assert(t.regs =~= b.regs);
}

proof fn lemma_masked_twice(x: u32, v: u32, m: u32)
    by (bit_vector)
    ensures
        (((x & !m) | (v & m)) & !m) | (v & m) == (x & !m) | (v & m),
{
}

/// Claiming a pin twice leaves the bus as claiming it once.
pub proof fn lemma_claim_idempotent(b: BusState, gpio: u32)
    requires
        b.wf(),
        gpio < NUM_BANK0_GPIOS,
    ensures
        init_pin(init_pin(b, gpio), gpio) == init_pin(b, gpio),
{
    lemma_pin_regs(gpio);
    let once = init_pin(b, gpio);
    let m = pin_mask(gpio);
    lemma_masked_twice(b.reg(SIO_GPIO_OE), 0, m);
    lemma_masked_twice(b.reg(SIO_GPIO_OUT), 0, m);
    lemma_masked_twice(
        b.reg(pads_io(gpio)),
        PADS_BANK0_GPIO0_IE_BITS,
        PADS_BANK0_GPIO0_IE_BITS | PADS_BANK0_GPIO0_OD_BITS,
    );
    assert(init_pin(once, gpio).regs =~= once.regs);
}

/// Input mode (type state).
pub struct Input<MODE> {
    _mode: PhantomData<MODE>,
}

/// Floating input (type state).
pub struct Floating;

/// Pulled down input (type state).
pub struct PullDown;

/// Pulled up input (type state).
pub struct PullUp;

/// Both pulls on: the pin is weakly held at its current level (type state).
pub struct BusKeep;

/// Output mode (type state).
pub struct Output<MODE> {
    _mode: PhantomData<MODE>,
}

/// Push-pull output (type state).
pub struct PushPull;

/// Carries a handle's mode in its type. Only this module makes one, so a
/// handle of a given mode comes from a claim or a mode change.
pub struct ModeMarker<T> {
    _mode: PhantomData<T>,
}

/// A claimed pin. Its type records its mode; changing mode consumes the handle.
pub struct Gpio<T> {
    pub pin: u32,
    pub marker: ModeMarker<T>,
}

impl Gpio<Input<Floating>> {
    /// Claims `pin`: it becomes an input, its output latch low, routed to SIO.
    pub fn init(bus: &mut Bus, pin: u32) -> (r: Self)
        requires
            old(bus)@.wf(),
            pin < NUM_BANK0_GPIOS,
        ensures
            r.pin == pin,
            final(bus)@.wf(),
            final(bus)@ == init_pin(old(bus)@, pin),
    {
        gpio_init(bus, pin);
        Gpio { pin, marker: ModeMarker { _mode: PhantomData } }
    }
}

/// Mode changes offered in every mode. An output handle may become an input
/// directly, without being claimed again: each change sets the direction and
/// pulls it needs, so no mode is left behind. Only becoming an output claims
/// the pin again.
impl<MODE> Gpio<MODE> {
    /// Makes the pin an input with no pull.
    pub fn into_floating_input(self, bus: &mut Bus) -> (r: Gpio<Input<Floating>>)
        requires
            old(bus)@.wf(),
            self.pin < NUM_BANK0_GPIOS,
        ensures
            r.pin == self.pin,
            final(bus)@.wf(),
            final(bus)@ == set_pulls(set_dir(old(bus)@, self.pin, false), self.pin, false, false),
    {
        let pin = self.pin;
        gpio_set_dir(bus, pin, GPIO_IN);
        gpio_set_pulls(bus, pin, false, false);
        Gpio { pin, marker: ModeMarker { _mode: PhantomData } }
    }

    /// Makes the pin an input pulled down.
    pub fn into_pull_down_input(self, bus: &mut Bus) -> (r: Gpio<Input<PullDown>>)
        requires
            old(bus)@.wf(),
            self.pin < NUM_BANK0_GPIOS,
        ensures
            r.pin == self.pin,
            final(bus)@.wf(),
            final(bus)@ == set_pulls(set_dir(old(bus)@, self.pin, false), self.pin, false, true),
    {
        let pin = self.pin;
        gpio_set_dir(bus, pin, GPIO_IN);
        gpio_set_pulls(bus, pin, false, true);
        Gpio { pin, marker: ModeMarker { _mode: PhantomData } }
    }

    /// Makes the pin an input pulled up.
    pub fn into_pull_up_input(self, bus: &mut Bus) -> (r: Gpio<Input<PullUp>>)
        requires
            old(bus)@.wf(),
            self.pin < NUM_BANK0_GPIOS,
        ensures
            r.pin == self.pin,
            final(bus)@.wf(),
            final(bus)@ == set_pulls(set_dir(old(bus)@, self.pin, false), self.pin, true, false),
    {
        let pin = self.pin;
        gpio_set_dir(bus, pin, GPIO_IN);
        gpio_set_pulls(bus, pin, true, false);
        Gpio { pin, marker: ModeMarker { _mode: PhantomData } }
    }

    /// Makes the pin an input with both pulls on, which keeps its last level.
    pub fn into_bus_keep_input(self, bus: &mut Bus) -> (r: Gpio<Input<BusKeep>>)
        requires
            old(bus)@.wf(),
            self.pin < NUM_BANK0_GPIOS,
        ensures
            r.pin == self.pin,
            final(bus)@.wf(),
            final(bus)@ == set_pulls(set_dir(old(bus)@, self.pin, false), self.pin, true, true),
    {
        let pin = self.pin;
        gpio_set_dir(bus, pin, GPIO_IN);
        gpio_set_pulls(bus, pin, true, true);
        Gpio { pin, marker: ModeMarker { _mode: PhantomData } }
    }

    /// Claims the pin again and makes it a push-pull output, driven low.
    pub fn into_push_pull_output(self, bus: &mut Bus) -> (r: Gpio<Output<PushPull>>)
        requires
            old(bus)@.wf(),
            self.pin < NUM_BANK0_GPIOS,
        ensures
            r.pin == self.pin,
            final(bus)@.wf(),
            final(bus)@ == set_dir(init_pin(old(bus)@, self.pin), self.pin, true),
            pin_is_output(final(bus)@, self.pin),
    {
        let pin = self.pin;
        gpio_init(bus, pin);
        proof {
            lemma_dir_bit(bus@.reg(SIO_GPIO_OE), pin);
        }
        gpio_set_dir(bus, pin, GPIO_OUT);
        Gpio { pin, marker: ModeMarker { _mode: PhantomData } }
    }

    /// Whether the pin reads high.
    pub fn is_high(&self, bus: &Bus) -> (r: bool)
        requires
            bus@.wf(),
            self.pin < NUM_BANK0_GPIOS,
        ensures
            r == pin_level(bus@, self.pin),
    {
        gpio_get(bus, self.pin)
    }

    /// Whether the pin reads low.
    pub fn is_low(&self, bus: &Bus) -> (r: bool)
        requires
            bus@.wf(),
            self.pin < NUM_BANK0_GPIOS,
        ensures
            r == !pin_level(bus@, self.pin),
    {
        !gpio_get(bus, self.pin)
    }
}

proof fn lemma_dir_bit(oe: u32, pin: u32)
    by (bit_vector)
    requires
        pin < 32,
    ensures
        ((oe & !(1u32 << pin)) | ((1u32 << pin) & (1u32 << pin))) & (1u32 << pin) != 0,
{
}

impl<MODE> Gpio<Output<MODE>> {
    /// Drives the pin high: one store to the output SET register.
    pub fn set_high(&mut self, bus: &mut Bus)
        requires
            old(bus)@.wf(),
            old(self).pin < NUM_BANK0_GPIOS,
        ensures
            final(self).pin == old(self).pin,
            final(bus)@.wf(),
            final(bus)@ == put(old(bus)@, old(self).pin, true),
    {
        gpio_put(bus, self.pin, true);
    }

    /// Drives the pin low: one store to the output CLR register.
    pub fn set_low(&mut self, bus: &mut Bus)
        requires
            old(bus)@.wf(),
            old(self).pin < NUM_BANK0_GPIOS,
        ensures
            final(self).pin == old(self).pin,
            final(bus)@.wf(),
            final(bus)@ == put(old(bus)@, old(self).pin, false),
    {
        gpio_put(bus, self.pin, false);
    }

    /// Inverts the pin's output: one store to the output XOR register, which
    /// leaves the other pins alone whatever else writes them.
    pub fn toggle(&mut self, bus: &mut Bus)
        requires
            old(bus)@.wf(),
            old(self).pin < NUM_BANK0_GPIOS,
        ensures
            final(self).pin == old(self).pin,
            final(bus)@.wf(),
            final(bus)@ == toggled(old(bus)@, pin_mask(old(self).pin)),
    {
        gpio_xor_mask(bus, 1u32 << self.pin);
    }

    /// Whether the pin reads high.
    pub fn is_set_high(&self, bus: &Bus) -> (r: bool)
        requires
            bus@.wf(),
            self.pin < NUM_BANK0_GPIOS,
        ensures
            r == pin_level(bus@, self.pin),
    {
        gpio_get(bus, self.pin)
    }

    /// Whether the pin reads low.
    pub fn is_set_low(&self, bus: &Bus) -> (r: bool)
        requires
            bus@.wf(),
            self.pin < NUM_BANK0_GPIOS,
        ensures
            r == !pin_level(bus@, self.pin),
    {
        !gpio_get(bus, self.pin)
    }
}

} // verus!
