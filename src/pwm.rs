//! PWM: the mapping from pins to slices and channels, slice configuration, and
//! per-slice control through the PWM block's registers.
use vstd::prelude::*;

use crate::regs::{
    hw_clear_bits, hw_set_bits, hw_write_masked, is_aliasable_reg, lemma_block_reg, masked,
    phase_settled, set_bits_at, slot, Bus, BusState, PWM_BASE, PWM_CH0_CSR_PH_ADV_BITS,
    PWM_CH0_CSR_PH_RET_BITS, PWM_EN, PWM_INTE, PWM_INTF, PWM_INTR, PWM_INTS, PWM_SLICES_SLOT,
};

verus! {

/// Number of PWM slices.
pub const NUM_PWM_SLICES: u32 = 8;

/// Distance between the register sets of two neighbouring slices.
pub const PWM_SLICE_STRIDE: u32 = 0x14;

pub const PWM_CH0_CSR_OFFSET: u32 = 0x00;

pub const PWM_CH0_DIV_OFFSET: u32 = 0x04;

pub const PWM_CH0_CTR_OFFSET: u32 = 0x08;

pub const PWM_CH0_CC_OFFSET: u32 = 0x0c;

pub const PWM_CH0_TOP_OFFSET: u32 = 0x10;

pub const PWM_CH0_CSR_EN_BITS: u32 = 0x01;

pub const PWM_CH0_CSR_EN_LSB: u32 = 0;

pub const PWM_CH0_CSR_PH_CORRECT_BITS: u32 = 0x02;

pub const PWM_CH0_CSR_PH_CORRECT_LSB: u32 = 1;

pub const PWM_CH0_CSR_A_INV_BITS: u32 = 0x04;

pub const PWM_CH0_CSR_A_INV_LSB: u32 = 2;

pub const PWM_CH0_CSR_B_INV_BITS: u32 = 0x08;

pub const PWM_CH0_CSR_B_INV_LSB: u32 = 3;

pub const PWM_CH0_CSR_DIVMODE_BITS: u32 = 0x30;

pub const PWM_CH0_CSR_DIVMODE_LSB: u32 = 4;

pub const PWM_CH0_DIV_INT_LSB: u32 = 4;

pub const PWM_CH0_DIV_FRAC_LSB: u32 = 0;

pub const PWM_CH0_CC_A_BITS: u32 = 0x0000_ffff;

pub const PWM_CH0_CC_A_LSB: u32 = 0;

pub const PWM_CH0_CC_B_BITS: u32 = 0xffff_0000;

pub const PWM_CH0_CC_B_LSB: u32 = 16;

pub const PWM_CH0_CTR_RESET: u32 = 0;

pub const PWM_CH0_CC_RESET: u32 = 0;

/// What gates the fractional divider of a slice.
#[derive(Clone, Copy, Debug, PartialEq, Eq, Structural)]
pub enum PwmClkdivMode {
    /// Always counting.
    FreeRunning,
    /// Counting while the B pin is high.
    BHigh,
    /// Counting on rising edges of the B pin.
    BRising,
    /// Counting on falling edges of the B pin.
    BFalling,
}

/// The DIVMODE code of each gating.
pub open spec fn divmode_spec(m: PwmClkdivMode) -> u32 {
    match m {
        PwmClkdivMode::FreeRunning => 0,
        PwmClkdivMode::BHigh => 1,
        PwmClkdivMode::BRising => 2,
        PwmClkdivMode::BFalling => 3,
    }
}

impl PwmClkdivMode {
    /// The DIVMODE code of this gating.
    pub fn code(&self) -> (r: u32)
        ensures
            r == divmode_spec(*self),
    {
        match self {
            PwmClkdivMode::FreeRunning => 0,
            PwmClkdivMode::BHigh => 1,
            PwmClkdivMode::BRising => 2,
            PwmClkdivMode::BFalling => 3,
        }
    }
}

/// A slice configuration, as the values its CSR, DIV and TOP registers take.
#[derive(Clone, Copy, Debug, PartialEq, Eq, Structural)]
pub struct PwmConfig {
    pub csr: u32,
    pub div: u32,
    pub top: u32,
}

/// `bits` where `on`, else 0.
pub open spec fn flag(on: bool, bits: u32) -> u32 {
    if on {
        bits
    } else {
        0
    }
}

/// The slice of pin `gpio`.
pub open spec fn slice_of(gpio: u32) -> u32 {
    (gpio / 2) % 8
}

/// The channel of pin `gpio`: 0 for A, 1 for B.
pub open spec fn channel_of(gpio: u32) -> u32 {
    gpio % 2
}

/// Address of the register at `off` in the set of `slice`.
pub open spec fn slice_reg(slice: u32, off: u32) -> u32 {
    (PWM_BASE + PWM_SLICE_STRIDE * slice + off) as u32
}

pub open spec fn csr_of(slice: u32) -> u32 {
    slice_reg(slice, PWM_CH0_CSR_OFFSET)
}

pub open spec fn div_of(slice: u32) -> u32 {
    slice_reg(slice, PWM_CH0_DIV_OFFSET)
}

pub open spec fn ctr_of(slice: u32) -> u32 {
    slice_reg(slice, PWM_CH0_CTR_OFFSET)
}

pub open spec fn cc_of(slice: u32) -> u32 {
    slice_reg(slice, PWM_CH0_CC_OFFSET)
}

pub open spec fn top_of(slice: u32) -> u32 {
    slice_reg(slice, PWM_CH0_TOP_OFFSET)
}

/// The compare level of channel `chan` (0 for A, else B) in a CC value.
pub open spec fn chan_field(cc: u32, chan: u32) -> u32 {
    if chan != 0 {
        cc >> 16
    } else {
        cc & 0xffff
    }
}

/// The CC value with channel `chan`'s level set to `level`.
pub open spec fn with_chan_level(cc: u32, chan: u32, level: u16) -> u32 {
    if chan != 0 {
        masked(cc, (level as u32) << 16, PWM_CH0_CC_B_BITS)
    } else {
        masked(cc, level as u32, PWM_CH0_CC_A_BITS)
    }
}

/// The bus after `slice` is set up from `c`: counter and compare values at
/// their reset values, TOP and DIV from `c`, and the control register from
/// `c` with the enable bit as `start` says.
pub open spec fn init_slice(b: BusState, slice: u32, c: PwmConfig, start: bool) -> BusState {
    b.with_reg(ctr_of(slice), PWM_CH0_CTR_RESET).with_reg(cc_of(slice), PWM_CH0_CC_RESET).with_reg(
        top_of(slice),
        c.top,
    ).with_reg(div_of(slice), c.div).with_reg(
        csr_of(slice),
        c.csr | flag(start, PWM_CH0_CSR_EN_BITS),
    )
}

/// The bus with the wrap interrupt of `slice` cleared.
pub open spec fn clear_irq(b: BusState, slice: u32) -> BusState {
    b.with_reg(PWM_INTR, b.reg(PWM_INTR) & !(1u32 << slice))
}

/// The bus with the level of pin `gpio`'s slice and channel set to `level`.
pub open spec fn gpio_level(b: BusState, gpio: u32, level: u16) -> BusState {
    b.with_reg(
        cc_of(slice_of(gpio)),
        with_chan_level(b.reg(cc_of(slice_of(gpio))), channel_of(gpio), level),
    )
}

/// The configuration that `pwm_get_default_config` returns.
pub open spec fn default_config_spec() -> PwmConfig {
    PwmConfig { csr: 0, div: 16, top: 0xffff }
}

proof fn lemma_slice_regs(slice: u32)
    requires
        slice < NUM_PWM_SLICES,
    ensures
        is_aliasable_reg(csr_of(slice)),
        is_aliasable_reg(div_of(slice)),
        is_aliasable_reg(ctr_of(slice)),
        is_aliasable_reg(cc_of(slice)),
        is_aliasable_reg(top_of(slice)),
        is_aliasable_reg(PWM_INTE),
        slot(csr_of(slice)) == 320 + 5 * slice,
        slot(div_of(slice)) == 320 + 5 * slice + 1,
        slot(ctr_of(slice)) == 320 + 5 * slice + 2,
        slot(cc_of(slice)) == 320 + 5 * slice + 3,
        slot(top_of(slice)) == 320 + 5 * slice + 4,
{
    let k = (PWM_SLICE_STRIDE * slice) as u32;
    lemma_block_reg(PWM_BASE, k);
    lemma_block_reg(PWM_BASE, (k + 4) as u32);
    lemma_block_reg(PWM_BASE, (k + 8) as u32);
    lemma_block_reg(PWM_BASE, (k + 12) as u32);
    lemma_block_reg(PWM_BASE, (k + 16) as u32);
    lemma_block_reg(PWM_BASE, 0xa8);
}

/// The slice that drives pin `gpio`.
pub fn pwm_gpio_to_slice_num(gpio: u32) -> (r: u32)
    ensures
        r == slice_of(gpio),
        r < NUM_PWM_SLICES,
{
    assert((gpio >> 1) & 7 == (gpio / 2) % 8) by (bit_vector);
    (gpio >> 1) & 7
}

/// The channel that drives pin `gpio`: 0 for A, 1 for B.
pub fn pwm_gpio_to_channel(gpio: u32) -> (r: u32)
    ensures
        r == channel_of(gpio),
{
    assert(gpio & 1 == gpio % 2) by (bit_vector);
    gpio & 1
}

/// Pins 16 apart share a slice and a channel, and the two pins of an even
/// pair sit on the two channels of one slice.
pub proof fn lemma_pin_aliasing(p: u32)
    ensures
        p + 16 <= u32::MAX ==> slice_of(p) == slice_of((p + 16) as u32) && channel_of(p)
            == channel_of((p + 16) as u32),
        p % 2 == 0 && p + 1 <= u32::MAX ==> slice_of(p) == slice_of((p + 1) as u32)
            && channel_of(p) != channel_of((p + 1) as u32),
{
}

/// Sets or clears phase-correct counting in `c`.
pub fn pwm_config_set_phase_correct(c: &mut PwmConfig, phase_correct: bool)
    ensures
        final(c).csr == (old(c).csr & !PWM_CH0_CSR_PH_CORRECT_BITS) | flag(
            phase_correct,
            PWM_CH0_CSR_PH_CORRECT_BITS,
        ),
        final(c).div == old(c).div,
        final(c).top == old(c).top,
{
    let bit: u32 = if phase_correct {
        1u32 << PWM_CH0_CSR_PH_CORRECT_LSB
    } else {
        0
    };
    assert(1u32 << 1u32 == 2u32) by (bit_vector);
    c.csr = (c.csr & !PWM_CH0_CSR_PH_CORRECT_BITS) | bit;
}

/// Sets the integer clock divider of `c`, with no fraction.
pub fn pwm_config_set_clkdiv_int(c: &mut PwmConfig, div: u32)
    requires
        1 <= div <= 255,
    ensures
        final(c).div == div * 16,
        final(c).csr == old(c).csr,
        final(c).top == old(c).top,
{
    assert(div << 4 == div * 16) by (bit_vector)
        requires
            div <= 255,
    ;
    c.div = div << PWM_CH0_DIV_INT_LSB;
}

/// Sets the clock divider of `c` to `integer` + `fract` / 16.
pub fn pwm_config_set_clkdiv_int_frac(c: &mut PwmConfig, integer: u8, fract: u8)
    requires
        fract < 16,
    ensures
        final(c).div == integer * 16 + fract,
        final(c).csr == old(c).csr,
        final(c).top == old(c).top,
{
    c.div = clkdiv_bits(integer, fract);
}

/// The DIV register value for `integer` + `fract` / 16.
fn clkdiv_bits(integer: u8, fract: u8) -> (r: u32)
    requires
        fract < 16,
    ensures
        r == integer * 16 + fract,
{
    let i = integer as u32;
    let f = fract as u32;
    assert((i << 4) | (f << 0) == i * 16 + f) by (bit_vector)
        requires
            i < 256,
            f < 16,
    ;
    (i << PWM_CH0_DIV_INT_LSB) | (f << PWM_CH0_DIV_FRAC_LSB)
}

/// Sets what gates the divider of `c`.
pub fn pwm_config_set_clkdiv_mode(c: &mut PwmConfig, mode: PwmClkdivMode)
    ensures
        final(c).csr == (old(c).csr & !PWM_CH0_CSR_DIVMODE_BITS) | (divmode_spec(mode) << 4),
        final(c).div == old(c).div,
        final(c).top == old(c).top,
{
    c.csr = (c.csr & !PWM_CH0_CSR_DIVMODE_BITS) | (mode.code() << PWM_CH0_CSR_DIVMODE_LSB);
}

/// Sets whether outputs A and B of `c` are inverted.
pub fn pwm_config_set_output_polarity(c: &mut PwmConfig, a: bool, b: bool)
    ensures
        final(c).csr == (old(c).csr & !(PWM_CH0_CSR_A_INV_BITS | PWM_CH0_CSR_B_INV_BITS)) | (flag(
            a,
            PWM_CH0_CSR_A_INV_BITS,
        ) | flag(b, PWM_CH0_CSR_B_INV_BITS)),
        final(c).div == old(c).div,
        final(c).top == old(c).top,
{
    let a_bit: u32 = if a {
        1u32 << PWM_CH0_CSR_A_INV_LSB
    } else {
        0
    };
    let b_bit: u32 = if b {
        1u32 << PWM_CH0_CSR_B_INV_LSB
    } else {
        0
    };
    assert(1u32 << 2u32 == 4u32 && 1u32 << 3u32 == 8u32) by (bit_vector);
    c.csr = (c.csr & !(PWM_CH0_CSR_A_INV_BITS | PWM_CH0_CSR_B_INV_BITS)) | (a_bit | b_bit);
}

/// Sets the value at which the counter of `c` wraps (TOP).
pub fn pwm_config_set_wrap(c: &mut PwmConfig, wrap: u16)
    ensures
        final(c).top == wrap as u32,
        final(c).csr == old(c).csr,
        final(c).div == old(c).div,
{
    c.top = wrap as u32;
}

/// A configuration that counts freely at the system clock, without phase
/// correction, wraps at 0xffff, and inverts neither output.
pub fn pwm_get_default_config() -> (r: PwmConfig)
    ensures
        r == default_config_spec(),
{
    let mut c = PwmConfig { csr: 0, div: 0, top: 0 };
    pwm_config_set_phase_correct(&mut c, false);
    pwm_config_set_clkdiv_int(&mut c, 1);
    pwm_config_set_clkdiv_mode(&mut c, PwmClkdivMode::FreeRunning);
    pwm_config_set_output_polarity(&mut c, false, false);
    pwm_config_set_wrap(&mut c, 0xffff);
    assert(((0u32 & !2u32) | 0u32) == 0u32) by (bit_vector);
    assert(((0u32 & !0x30u32) | (0u32 << 4u32)) == 0u32) by (bit_vector);
    assert(((0u32 & !(4u32 | 8u32)) | (0u32 | 0u32)) == 0u32) by (bit_vector);
    assert(1u32 << 4u32 == 16u32) by (bit_vector);
    c
}

/// Sets up `slice` from `c`, and starts it where `start` holds.
pub fn pwm_init(bus: &mut Bus, slice_num: u32, c: &PwmConfig, start: bool)
    requires
        old(bus)@.wf(),
        slice_num < NUM_PWM_SLICES,
    ensures
        final(bus)@.wf(),
        final(bus)@ == init_slice(old(bus)@, slice_num, *c, start),
{
    proof {
        lemma_slice_regs(slice_num);
    }
    let base = PWM_BASE + PWM_SLICE_STRIDE * slice_num;
    bus.store(base + PWM_CH0_CSR_OFFSET, 0);
    bus.store(base + PWM_CH0_CTR_OFFSET, PWM_CH0_CTR_RESET);
    bus.store(base + PWM_CH0_CC_OFFSET, PWM_CH0_CC_RESET);
    bus.store(base + PWM_CH0_TOP_OFFSET, c.top);
    bus.store(base + PWM_CH0_DIV_OFFSET, c.div);
    let en: u32 = if start {
        1u32 << PWM_CH0_CSR_EN_LSB
    } else {
        0
    };
    assert(1u32 << 0u32 == 1u32) by (bit_vector);
    bus.store(base + PWM_CH0_CSR_OFFSET, c.csr | en);
    assert(bus@.regs =~= init_slice(old(bus)@, slice_num, *c, start).regs);
}

/// Setting one channel's level keeps the other channel's level.
proof fn lemma_chan_fields(cc: u32, level: u16)
    by (bit_vector)
    ensures
        ((cc & !0xffff_0000u32) | (((level as u32) << 16) & 0xffff_0000u32)) >> 16 == level as u32,
        ((cc & !0xffff_0000u32) | (((level as u32) << 16) & 0xffff_0000u32)) & 0xffff == cc
            & 0xffff,
        ((cc & !0xffffu32) | ((level as u32) & 0xffffu32)) & 0xffff == level as u32,
        ((cc & !0xffffu32) | ((level as u32) & 0xffffu32)) >> 16 == cc >> 16,
        (level as u32) << 0u32 == level as u32,
{
}

/// The address of the register at `off` of `slice`.
fn slice_addr(slice_num: u32, off: u32) -> (r: u32)
    requires
        slice_num < NUM_PWM_SLICES,
        off <= PWM_CH0_TOP_OFFSET,
    ensures
        r == slice_reg(slice_num, off),
{
    PWM_BASE + PWM_SLICE_STRIDE * slice_num + off
}

/// Sets the value at which the counter of `slice_num` wraps (TOP).
pub fn pwm_set_wrap(bus: &mut Bus, slice_num: u32, wrap: u16)
    requires
        old(bus)@.wf(),
        slice_num < NUM_PWM_SLICES,
    ensures
        final(bus)@.wf(),
        final(bus)@ == old(bus)@.with_reg(top_of(slice_num), wrap as u32),
{
    proof {
        lemma_slice_regs(slice_num);
    }
    bus.store(slice_addr(slice_num, PWM_CH0_TOP_OFFSET), wrap as u32);
}

/// Sets the compare level of channel `chan` (0 for A, else B) of `slice_num`,
/// in one masked write that leaves the other channel's level alone. Another
/// context, such as an interrupt handler, may set the other channel of the
/// same slice at any time; but two writers of the same channel must not
/// overlap, since the masked write reads the register before its one atomic
/// store, and a write between the two would be undone.
pub fn pwm_set_chan_level(bus: &mut Bus, slice_num: u32, chan: u32, level: u16)
    requires
        old(bus)@.wf(),
        slice_num < NUM_PWM_SLICES,
    ensures
        final(bus)@.wf(),
        final(bus)@ == old(bus)@.with_reg(
            cc_of(slice_num),
            with_chan_level(old(bus)@.reg(cc_of(slice_num)), chan, level),
        ),
        chan_field(final(bus)@.reg(cc_of(slice_num)), chan) == level as u32,
        chan_field(final(bus)@.reg(cc_of(slice_num)), if chan != 0 {
            0
        } else {
            1
        }) == chan_field(old(bus)@.reg(cc_of(slice_num)), if chan != 0 {
            0
        } else {
            1
        }),
{
    proof {
        lemma_slice_regs(slice_num);
        lemma_chan_fields(bus@.reg(cc_of(slice_num)), level);
    }
    let shift: u32 = if chan != 0 {
        PWM_CH0_CC_B_LSB
    } else {
        PWM_CH0_CC_A_LSB
    };
    let mask: u32 = if chan != 0 {
        PWM_CH0_CC_B_BITS
    } else {
        PWM_CH0_CC_A_BITS
    };
    hw_write_masked(bus, slice_addr(slice_num, PWM_CH0_CC_OFFSET), (level as u32) << shift, mask);
}

/// Sets both compare levels of `slice_num` in one store.
pub fn pwm_set_both_levels(bus: &mut Bus, slice_num: u32, level_a: u16, level_b: u16)
    requires
        old(bus)@.wf(),
        slice_num < NUM_PWM_SLICES,
    ensures
        final(bus)@.wf(),
        final(bus)@ == old(bus)@.with_reg(
            cc_of(slice_num),
            ((level_b as u32) << 16) | (level_a as u32),
        ),
{
    proof {
        lemma_slice_regs(slice_num);
    }
    assert((level_a as u32) << 0u32 == level_a as u32) by (bit_vector);
    bus.store(
        slice_addr(slice_num, PWM_CH0_CC_OFFSET),
        ((level_b as u32) << PWM_CH0_CC_B_LSB) | ((level_a as u32) << PWM_CH0_CC_A_LSB),
    );
}

/// Sets the level of the slice and channel that drive pin `gpio`. Pins 16
/// apart share them.
pub fn pwm_set_gpio_level(bus: &mut Bus, gpio: u32, level: u16)
    requires
        old(bus)@.wf(),
    ensures
        final(bus)@.wf(),
        final(bus)@ == gpio_level(old(bus)@, gpio, level),
{
    pwm_set_chan_level(bus, pwm_gpio_to_slice_num(gpio), pwm_gpio_to_channel(gpio), level);
}

/// The counter of `slice_num`.
pub fn pwm_get_counter(bus: &Bus, slice_num: u32) -> (r: i16)
    requires
        bus@.wf(),
        slice_num < NUM_PWM_SLICES,
    ensures
        r == bus@.reg(ctr_of(slice_num)) as i16,
{
    proof {
        lemma_slice_regs(slice_num);
    }
    bus.load(slice_addr(slice_num, PWM_CH0_CTR_OFFSET)) as i16
}

/// Sets the counter of `slice_num`.
pub fn pwm_set_counter(bus: &mut Bus, slice_num: u32, c: u16)
    requires
        old(bus)@.wf(),
        slice_num < NUM_PWM_SLICES,
    ensures
        final(bus)@.wf(),
        final(bus)@ == old(bus)@.with_reg(ctr_of(slice_num), c as u32),
{
    proof {
        lemma_slice_regs(slice_num);
    }
    bus.store(slice_addr(slice_num, PWM_CH0_CTR_OFFSET), c as u32);
}

/// Sets the clock divider of `slice_num` to `integer` + `fract` / 16.
pub fn pwm_set_clkdiv_int_frac(bus: &mut Bus, slice_num: u32, integer: u8, fract: u8)
    requires
        old(bus)@.wf(),
        slice_num < NUM_PWM_SLICES,
        fract < 16,
    ensures
        final(bus)@.wf(),
        final(bus)@ == old(bus)@.with_reg(div_of(slice_num), (integer * 16 + fract) as u32),
{
    proof {
        lemma_slice_regs(slice_num);
    }
    bus.store(slice_addr(slice_num, PWM_CH0_DIV_OFFSET), clkdiv_bits(integer, fract));
}

/// Sets whether outputs A and B of `slice_num` are inverted, leaving the rest
/// of its control register alone.
pub fn pwm_set_output_polarity(bus: &mut Bus, slice_num: u32, a: bool, b: bool)
    requires
        old(bus)@.wf(),
        slice_num < NUM_PWM_SLICES,
    ensures
        final(bus)@.wf(),
        final(bus)@ == old(bus)@.with_reg(
            csr_of(slice_num),
            masked(
                old(bus)@.reg(csr_of(slice_num)),
                flag(a, PWM_CH0_CSR_A_INV_BITS) | flag(b, PWM_CH0_CSR_B_INV_BITS),
                PWM_CH0_CSR_A_INV_BITS | PWM_CH0_CSR_B_INV_BITS,
            ),
        ),
{
    proof {
        lemma_slice_regs(slice_num);
    }
    let a_bit: u32 = if a {
        1u32 << PWM_CH0_CSR_A_INV_LSB
    } else {
        0
    };
    let b_bit: u32 = if b {
        1u32 << PWM_CH0_CSR_B_INV_LSB
    } else {
        0
    };
    assert(1u32 << 2u32 == 4u32 && 1u32 << 3u32 == 8u32) by (bit_vector);
    hw_write_masked(
        bus,
        slice_addr(slice_num, PWM_CH0_CSR_OFFSET),
        a_bit | b_bit,
        PWM_CH0_CSR_A_INV_BITS | PWM_CH0_CSR_B_INV_BITS,
    );
}

/// Sets what gates the divider of `slice_num`.
pub fn pwm_set_clkdiv_mode(bus: &mut Bus, slice_num: u32, mode: PwmClkdivMode)
    requires
        old(bus)@.wf(),
        slice_num < NUM_PWM_SLICES,
    ensures
        final(bus)@.wf(),
        final(bus)@ == old(bus)@.with_reg(
            csr_of(slice_num),
            masked(
                old(bus)@.reg(csr_of(slice_num)),
                divmode_spec(mode) << 4,
                PWM_CH0_CSR_DIVMODE_BITS,
            ),
        ),
{
    proof {
        lemma_slice_regs(slice_num);
    }
    hw_write_masked(
        bus,
        slice_addr(slice_num, PWM_CH0_CSR_OFFSET),
        mode.code() << PWM_CH0_CSR_DIVMODE_LSB,
        PWM_CH0_CSR_DIVMODE_BITS,
    );
}

/// Sets or clears phase-correct counting on `slice_num`.
pub fn pwm_set_phase_correct(bus: &mut Bus, slice_num: u32, phase_correct: bool)
    requires
        old(bus)@.wf(),
        slice_num < NUM_PWM_SLICES,
    ensures
        final(bus)@.wf(),
        final(bus)@ == old(bus)@.with_reg(
            csr_of(slice_num),
            masked(
                old(bus)@.reg(csr_of(slice_num)),
                flag(phase_correct, PWM_CH0_CSR_PH_CORRECT_BITS),
                PWM_CH0_CSR_PH_CORRECT_BITS,
            ),
        ),
{
    proof {
        lemma_slice_regs(slice_num);
    }
    let bit: u32 = if phase_correct {
        1u32 << PWM_CH0_CSR_PH_CORRECT_LSB
    } else {
        0
    };
    assert(1u32 << 1u32 == 2u32) by (bit_vector);
    hw_write_masked(
        bus,
        slice_addr(slice_num, PWM_CH0_CSR_OFFSET),
        bit,
        PWM_CH0_CSR_PH_CORRECT_BITS,
    );
}

/// Starts (`enabled`) or stops `slice_num`, leaving the rest of its control
/// register alone.
pub fn pwm_set_enabled(bus: &mut Bus, slice_num: u32, enabled: bool)
    requires
        old(bus)@.wf(),
        slice_num < NUM_PWM_SLICES,
    ensures
        final(bus)@.wf(),
        final(bus)@ == old(bus)@.with_reg(
            csr_of(slice_num),
            masked(
                old(bus)@.reg(csr_of(slice_num)),
                flag(enabled, PWM_CH0_CSR_EN_BITS),
                PWM_CH0_CSR_EN_BITS,
            ),
        ),
{
    proof {
        lemma_slice_regs(slice_num);
    }
    let bit: u32 = if enabled {
        1u32 << PWM_CH0_CSR_EN_LSB
    } else {
        0
    };
    assert(1u32 << 0u32 == 1u32) by (bit_vector);
    hw_write_masked(bus, slice_addr(slice_num, PWM_CH0_CSR_OFFSET), bit, PWM_CH0_CSR_EN_BITS);
}

/// Starts or stops all slices at once: bit n of `mask` for slice n.
pub fn pwm_set_mask_enabled(bus: &mut Bus, mask: u32)
    requires
        old(bus)@.wf(),
    ensures
        final(bus)@.wf(),
        final(bus)@ == old(bus)@.with_reg(PWM_EN, mask),
{
    bus.store(PWM_EN, mask);
}

/// Lets the wrap of `slice_num` raise the PWM interrupt (`enabled`), or not.
pub fn pwm_set_irq_enabled(bus: &mut Bus, slice_num: u32, enabled: bool)
    requires
        old(bus)@.wf(),
        slice_num < NUM_PWM_SLICES,
    ensures
        final(bus)@.wf(),
        final(bus)@ == old(bus)@.with_reg(
            PWM_INTE,
            if enabled {
                old(bus)@.reg(PWM_INTE) | (1u32 << slice_num)
            } else {
                old(bus)@.reg(PWM_INTE) & !(1u32 << slice_num)
            },
        ),
{
    proof {
        lemma_slice_regs(slice_num);
    }
    if enabled {
        hw_set_bits(bus, PWM_INTE, 1u32 << slice_num);
    } else {
        hw_clear_bits(bus, PWM_INTE, 1u32 << slice_num);
    }
}

/// Lets the wraps of the slices in `slice_mask` raise the PWM interrupt
/// (`enabled`), or not.
pub fn pwm_set_irq_mask_enabled(bus: &mut Bus, slice_mask: u32, enabled: bool)
    requires
        old(bus)@.wf(),
    ensures
        final(bus)@.wf(),
        final(bus)@ == old(bus)@.with_reg(
            PWM_INTE,
            if enabled {
                old(bus)@.reg(PWM_INTE) | slice_mask
            } else {
                old(bus)@.reg(PWM_INTE) & !slice_mask
            },
        ),
{
    proof {
        lemma_slice_regs(0);
    }
    if enabled {
        hw_set_bits(bus, PWM_INTE, slice_mask);
    } else {
        hw_clear_bits(bus, PWM_INTE, slice_mask);
    }
}

/// Clears the pending wrap interrupt of `slice_num`.
pub fn pwm_clear_irq(bus: &mut Bus, slice_num: u32)
    requires
        old(bus)@.wf(),
        slice_num < NUM_PWM_SLICES,
    ensures
        final(bus)@.wf(),
        final(bus)@ == clear_irq(old(bus)@, slice_num),
{
    bus.store(PWM_INTR, 1u32 << slice_num);
}

/// The interrupts that are pending and enabled, or forced: bit n for slice n.
pub fn pwm_get_irq_status_mask(bus: &Bus) -> (r: u32)
    requires
        bus@.wf(),
    ensures
        r == (bus@.reg(PWM_INTR) | bus@.reg(PWM_INTF)) & bus@.reg(PWM_INTE),
{
    bus.load(PWM_INTS)
}

/// Forces the interrupt of `slice_num` on.
pub fn pwm_force_irq(bus: &mut Bus, slice_num: u32)
    requires
        old(bus)@.wf(),
        slice_num < NUM_PWM_SLICES,
    ensures
        final(bus)@.wf(),
        final(bus)@ == old(bus)@.with_reg(PWM_INTF, 1u32 << slice_num),
{
    bus.store(PWM_INTF, 1u32 << slice_num);
}

/// Asks the running counter of `slice_num` to advance by one count. The
/// counter carries the request out and clears the bit; until then
/// `pwm_count_adjust_pending` holds.
pub fn pwm_advance_count(bus: &mut Bus, slice_num: u32)
    requires
        old(bus)@.wf(),
        slice_num < NUM_PWM_SLICES,
    ensures
        final(bus)@.wf(),
        final(bus)@ == set_bits_at(old(bus)@, csr_of(slice_num), PWM_CH0_CSR_PH_ADV_BITS),
{
    proof {
        lemma_slice_regs(slice_num);
    }
    hw_set_bits(bus, slice_addr(slice_num, PWM_CH0_CSR_OFFSET), PWM_CH0_CSR_PH_ADV_BITS);
}

/// Asks the running counter of `slice_num` to retard by one count. The
/// counter carries the request out and clears the bit; until then
/// `pwm_count_adjust_pending` holds.
pub fn pwm_retard_count(bus: &mut Bus, slice_num: u32)
    requires
        old(bus)@.wf(),
        slice_num < NUM_PWM_SLICES,
    ensures
        final(bus)@.wf(),
        final(bus)@ == set_bits_at(old(bus)@, csr_of(slice_num), PWM_CH0_CSR_PH_RET_BITS),
{
    proof {
        lemma_slice_regs(slice_num);
    }
    hw_set_bits(bus, slice_addr(slice_num, PWM_CH0_CSR_OFFSET), PWM_CH0_CSR_PH_RET_BITS);
}

/// Whether an advance or retard of `slice_num` is still waiting for its
/// counter.
pub fn pwm_count_adjust_pending(bus: &Bus, slice_num: u32) -> (r: bool)
    requires
        bus@.wf(),
        slice_num < NUM_PWM_SLICES,
    ensures
        r == (bus@.reg(csr_of(slice_num)) & (PWM_CH0_CSR_PH_ADV_BITS | PWM_CH0_CSR_PH_RET_BITS)
            != 0),
{
    proof {
        lemma_slice_regs(slice_num);
    }
    bus.load(slice_addr(slice_num, PWM_CH0_CSR_OFFSET)) & (PWM_CH0_CSR_PH_ADV_BITS
        | PWM_CH0_CSR_PH_RET_BITS) != 0
}

proof fn lemma_request_bits(x: u32)
    by (bit_vector)
    requires
        x & 0xc0 == 0,
    ensures
        (x | 0x80) & 0x80 != 0,
        (x | 0x80) & 0x40 == 0,
        (x | 0x40) & 0x80 == 0,
        (x | 0x40) & 0x40 != 0,
        ((x | 0x80) & !(0x80u32 | 0x40u32)) & 0xc0 == 0,
        ((x | 0x40) & !(0x80u32 | 0x40u32)) & 0xc0 == 0,
{
}

/// The bus once every counter has carried out its phase requests.
pub open spec fn counters_settled(b: BusState) -> BusState {
    BusState { regs: phase_settled(b.regs), ..b }
}

/// With no request pending on `slice`, an advance request, once carried out,
/// moves the counter one count up, a retard request one count down, both
/// modulo 2^16, and leaves nothing pending.
pub proof fn lemma_count_adjust(b: BusState, slice: u32)
    requires
        b.wf(),
        slice < NUM_PWM_SLICES,
        b.reg(csr_of(slice)) & (PWM_CH0_CSR_PH_ADV_BITS | PWM_CH0_CSR_PH_RET_BITS) == 0,
    ensures
        ({
            let after = counters_settled(set_bits_at(b, csr_of(slice), PWM_CH0_CSR_PH_ADV_BITS));
            &&& after.reg(ctr_of(slice)) == (b.reg(ctr_of(slice)) % 0x1_0000 + 1) % 0x1_0000
            &&& after.reg(csr_of(slice)) & (PWM_CH0_CSR_PH_ADV_BITS | PWM_CH0_CSR_PH_RET_BITS) == 0
        }),
        ({
            let after = counters_settled(set_bits_at(b, csr_of(slice), PWM_CH0_CSR_PH_RET_BITS));
            &&& after.reg(ctr_of(slice)) == (b.reg(ctr_of(slice)) % 0x1_0000 + 0xffff) % 0x1_0000
            &&& after.reg(csr_of(slice)) & (PWM_CH0_CSR_PH_ADV_BITS | PWM_CH0_CSR_PH_RET_BITS) == 0
        }),
{
    lemma_slice_regs(slice);
    assert(0x80u32 | 0x40u32 == 0xc0u32) by (bit_vector);
    let x = b.reg(csr_of(slice));
    lemma_request_bits(x);
    let cs = slot(csr_of(slice));
    let ct = slot(ctr_of(slice));
    assert(cs - PWM_SLICES_SLOT == 5 * slice);
    assert(ct - PWM_SLICES_SLOT == 5 * slice + 2);
    vstd::arithmetic::div_mod::lemma_mod_multiples_vanish(slice as int, 0, 5);
    vstd::arithmetic::div_mod::lemma_mod_multiples_vanish(slice as int, 2, 5);
}

} // verus!
