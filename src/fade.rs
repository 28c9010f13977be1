//! An LED fade driven by PWM wrap interrupts: each wrap moves a counter one
//! step between 0 and 255, turning at both ends, and sets the pin's level to
//! the counter squared so that brightness looks even.
use vstd::prelude::*;

use crate::gpio::{gpio_set_function, set_function, GpioFunction, NUM_BANK0_GPIOS};
use crate::pwm::{
    clear_irq, gpio_level, init_slice, pwm_clear_irq, pwm_config_set_clkdiv_int,
    pwm_get_default_config, pwm_gpio_to_slice_num, pwm_init, pwm_set_gpio_level,
    pwm_set_irq_enabled, slice_of, PwmConfig,
};
use crate::regs::{Bus, BusState, PWM_INTE};

verus! {

/// The pin of the on-board LED.
pub const PICO_DEFAULT_LED_PIN: u32 = 25;

/// The highest value of the fade counter.
pub const FADE_MAX: i32 = 255;

/// The clock divider that the fade runs its slice at.
pub const FADE_CLKDIV: u32 = 4;

/// One wrap: the counter moves one step in its direction; the step that
/// reaches an end (255 going up, 0 going down) turns the direction there.
pub open spec fn fade_step(s: (int, bool)) -> (int, bool) {
    let (c, up) = s;
    if up {
        if c + 1 >= FADE_MAX {
            (FADE_MAX as int, false)
        } else {
            (c + 1, true)
        }
    } else {
        if c - 1 <= 0 {
            (0, true)
        } else {
            (c - 1, false)
        }
    }
}

/// The fade state after `n` wraps from `s`.
pub open spec fn fade_after(s: (int, bool), n: nat) -> (int, bool)
    decreases n,
{
    if n == 0 {
        s
    } else {
        fade_step(fade_after(s, (n - 1) as nat))
    }
}

proof fn lemma_rise(k: nat)
    requires
        k <= 254,
    ensures
        fade_after((0, true), k) == (k as int, true),
    decreases k,
{
    if k > 0 {
        lemma_rise((k - 1) as nat);
    }
}

proof fn lemma_fall(k: nat)
    requires
        k <= 254,
    ensures
        fade_after((0, true), 255 + k) == (255 - k, false),
    decreases k,
{
    if k == 0 {
        lemma_rise(254);
        assert(fade_after((0, true), 255) == fade_step(fade_after((0, true), 254)));
    } else {
        lemma_fall((k - 1) as nat);
        assert(fade_after((0, true), 255 + k) == fade_step(
            fade_after((0, true), (255 + k - 1) as nat),
        ));
    }
}

/// From 0 going up, the counter climbs one step per wrap; after 255 wraps it
/// is 255 and its direction has turned down. After 255 more it is 0 and its
/// direction has turned up again, which is where it started: the fade repeats
/// every 510 wraps, and each end is reached by exactly one wrap.
pub proof fn lemma_fade_cycle()
    ensures
        forall|k: nat| k <= 254 ==> #[trigger] fade_after((0, true), k) == (k as int, true),
        fade_after((0, true), 255) == (255int, false),
        forall|k: nat| k <= 254 ==> #[trigger] fade_after((0, true), 255 + k) == (255 - k, false),
        fade_after((0, true), 510) == (0int, true),
        fade_after((255, false), 255) == (0int, true),
{
    assert forall|k: nat| k <= 254 implies #[trigger] fade_after((0, true), k) == (
        k as int,
        true,
    ) by {
        lemma_rise(k);
    }
    lemma_fall(0);
    assert forall|k: nat| k <= 254 implies #[trigger] fade_after((0, true), 255 + k) == (
        255 - k,
        false,
    ) by {
        lemma_fall(k);
    }
    lemma_fall(254);
    assert(fade_after((0, true), 510) == fade_step(fade_after((0, true), 509)));
    lemma_fall_from_top(255);
}

/// From 255 going down, `k` wraps (`k` < 255) leave the counter at 255 - `k`,
/// still going down; the 255th reaches 0 and turns up.
proof fn lemma_fall_from_top(k: nat)
    requires
        k <= 255,
    ensures
        k < 255 ==> fade_after((255, false), k) == (255 - k, false),
        k == 255 ==> fade_after((255, false), k) == (0int, true),
    decreases k,
{
    if k > 0 {
        lemma_fall_from_top((k - 1) as nat);
    }
}

/// The counter and direction of an LED fade, owned by the wrap handler.
pub struct FadeState {
    fade: i32,
    going_up: bool,
}

impl View for FadeState {
    type V = (int, bool);

    closed spec fn view(&self) -> (int, bool) {
        (self.fade as int, self.going_up)
    }
}

impl FadeState {
    #[verifier::type_invariant]
    closed spec fn inv(&self) -> bool {
        0 <= self.fade <= FADE_MAX
    }

    /// A fade at 0, going up.
    pub fn new() -> (r: FadeState)
        ensures
            r@ == (0int, true),
    {
        FadeState { fade: 0, going_up: true }
    }

    /// The counter, between 0 and 255.
    pub fn counter(&self) -> (r: i32)
        ensures
            r == self@.0,
            0 <= r <= FADE_MAX,
    {
        proof {
            use_type_invariant(self);
        }
        self.fade
    }

    /// Whether the counter is going up.
    pub fn going_up(&self) -> (r: bool)
        ensures
            r == self@.1,
    {
        self.going_up
    }

    /// Moves the fade one wrap on and returns the new level, the counter squared.
    pub fn step(&mut self) -> (level: u16)
        ensures
            final(self)@ == fade_step(old(self)@),
            0 <= final(self)@.0 <= FADE_MAX,
            level == final(self)@.0 * final(self)@.0,
    {
        proof {
            use_type_invariant(&*self);
        }
        let (f, up) = if self.going_up {
            if self.fade + 1 >= FADE_MAX {
                (FADE_MAX, false)
            } else {
                (self.fade + 1, true)
            }
        } else {
            if self.fade - 1 <= 0 {
                (0, true)
            } else {
                (self.fade - 1, false)
            }
        };
        *self = FadeState { fade: f, going_up: up };
        assert(0 <= f * f <= 255 * 255) by (nonlinear_arith)
            requires
                0 <= f <= 255,
        ;
        (f * f) as u16
    }

    /// Handles a wrap of the slice that drives `gpio`: first clears that
    /// slice's interrupt, then moves the fade on and sets the pin's level to
    /// the counter squared.
    pub fn on_pwm_wrap(&mut self, bus: &mut Bus, gpio: u32)
        requires
            old(bus)@.wf(),
        ensures
            final(self)@ == fade_step(old(self)@),
            final(bus)@.wf(),
            final(bus)@ == gpio_level(
                clear_irq(old(bus)@, slice_of(gpio)),
                gpio,
                (final(self)@.0 * final(self)@.0) as u16,
            ),
    {
        pwm_clear_irq(bus, pwm_gpio_to_slice_num(gpio));
        let level = self.step();
        pwm_set_gpio_level(bus, gpio, level);
    }
}

/// The bus after `setup_led_fade(gpio)`.
pub open spec fn fade_setup(b: BusState, gpio: u32) -> BusState {
    let slice = slice_of(gpio);
    let b1 = clear_irq(set_function(b, gpio, GpioFunction::PWM), slice);
    let b2 = b1.with_reg(PWM_INTE, b1.reg(PWM_INTE) | (1u32 << slice));
    let c = PwmConfig { csr: 0, div: (FADE_CLKDIV * 16) as u32, top: 0xffff };
    init_slice(b2, slice, c, true)
}

/// Hands pin `gpio` to PWM and sets its slice running with its wrap interrupt
/// enabled, at the default configuration with the clock divided by 4. Returns
/// the slice, whose wrap interrupt must then reach `FadeState::on_pwm_wrap`.
pub fn setup_led_fade(bus: &mut Bus, gpio: u32) -> (slice: u32)
    requires
        old(bus)@.wf(),
        gpio < NUM_BANK0_GPIOS,
    ensures
        slice == slice_of(gpio),
        final(bus)@.wf(),
        final(bus)@ == fade_setup(old(bus)@, gpio),
{
    gpio_set_function(bus, gpio, GpioFunction::PWM);
    let slice_num = pwm_gpio_to_slice_num(gpio);
    pwm_clear_irq(bus, slice_num);
    pwm_set_irq_enabled(bus, slice_num, true);
    let mut config = pwm_get_default_config();
    pwm_config_set_clkdiv_int(&mut config, FADE_CLKDIV);
    pwm_init(bus, slice_num, &config, true);
    slice_num
}

} // verus!
