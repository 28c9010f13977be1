//! Memory-mapped peripheral registers of the RP2040 and a bus that holds them.
//!
//! Every peripheral block sits on a 16 KiB boundary. Within a block, bits 12 and
//! 13 of an address select how a store acts on the register: a plain write, or
//! an atomic XOR, SET or CLEAR. The SIO block has no such aliases; it offers
//! dedicated SET/CLR/XOR registers instead.
use vstd::arithmetic::div_mod::{lemma_fundamental_div_mod, lemma_mod_multiples_vanish};
use vstd::prelude::*;

verus! {

/// Offset of the plain read/write view of a register.
pub const REG_ALIAS_RW_BITS: u32 = 0x0000;

/// Offset of the alias that XORs the stored value into the register.
pub const REG_ALIAS_XOR_BITS: u32 = 0x1000;

/// Offset of the alias that ORs the stored value into the register.
pub const REG_ALIAS_SET_BITS: u32 = 0x2000;

/// Offset of the alias that clears the stored value's bits in the register.
pub const REG_ALIAS_CLR_BITS: u32 = 0x3000;

/// Size of the address window of one peripheral block, aliases included.
pub const BLOCK_SPAN: u32 = 0x4000;

/// Number of 32-bit registers held for each block.
pub const WORDS_PER_BLOCK: usize = 64;

/// Number of register words on the bus.
pub const NUM_WORDS: usize = 448;

pub const RESETS_BASE: u32 = 0x4000_c000;

pub const IO_BANK0_BASE: u32 = 0x4001_4000;

pub const PADS_BANK0_BASE: u32 = 0x4001_c000;

pub const SPI0_BASE: u32 = 0x4003_c000;

pub const SPI1_BASE: u32 = 0x4004_0000;

pub const PWM_BASE: u32 = 0x4005_0000;

pub const SIO_BASE: u32 = 0xd000_0000;

// RESETS registers and bits.
pub const RESETS_RESET: u32 = RESETS_BASE + 0x0;

pub const RESETS_RESET_DONE: u32 = RESETS_BASE + 0x8;

/// The bits of RESETS_RESET that name a peripheral.
pub const RESETS_ALL_BITS: u32 = 0x01ff_ffff;

pub const RESETS_RESET_SPI0_BITS: u32 = 0x0001_0000;

pub const RESETS_RESET_SPI1_BITS: u32 = 0x0002_0000;

// SIO registers.
pub const SIO_GPIO_IN: u32 = SIO_BASE + 0x004;

pub const SIO_GPIO_OUT: u32 = SIO_BASE + 0x010;

pub const SIO_GPIO_OUT_SET: u32 = SIO_BASE + 0x014;

pub const SIO_GPIO_OUT_CLR: u32 = SIO_BASE + 0x018;

pub const SIO_GPIO_OUT_XOR: u32 = SIO_BASE + 0x01c;

pub const SIO_GPIO_OE: u32 = SIO_BASE + 0x020;

pub const SIO_GPIO_OE_SET: u32 = SIO_BASE + 0x024;

pub const SIO_GPIO_OE_CLR: u32 = SIO_BASE + 0x028;

pub const SIO_GPIO_OE_XOR: u32 = SIO_BASE + 0x02c;

// PWM block-wide registers.
pub const PWM_EN: u32 = PWM_BASE + 0xa0;

pub const PWM_INTR: u32 = PWM_BASE + 0xa4;

pub const PWM_INTE: u32 = PWM_BASE + 0xa8;

pub const PWM_INTF: u32 = PWM_BASE + 0xac;

pub const PWM_INTS: u32 = PWM_BASE + 0xb0;

// SPI data and status registers.
pub const SPI0_SSPDR: u32 = SPI0_BASE + 0x08;

pub const SPI0_SSPSR: u32 = SPI0_BASE + 0x0c;

pub const SPI1_SSPDR: u32 = SPI1_BASE + 0x08;

pub const SPI1_SSPSR: u32 = SPI1_BASE + 0x0c;

/// What the status register of an SPI instance on this bus reads: transmit FIFO
/// empty and not full, receive FIFO empty, not busy. The bus takes each byte
/// written to the data register at once.
pub const SPI_IDLE_STATUS: u32 = 0x3;

/// Block number of a base address on the bus, or -1.
pub open spec fn block_index(base: int) -> int {
    if base == RESETS_BASE {
        0
    } else if base == IO_BANK0_BASE {
        1
    } else if base == PADS_BANK0_BASE {
        2
    } else if base == SPI0_BASE {
        3
    } else if base == SPI1_BASE {
        4
    } else if base == PWM_BASE {
        5
    } else if base == SIO_BASE {
        6
    } else {
        -1
    }
}

/// Which view of the register an address selects: 0 plain, 1 XOR, 2 SET, 3 CLEAR.
pub open spec fn alias_of(addr: u32) -> int {
    (addr % BLOCK_SPAN) as int / 0x1000
}

/// Index of the 32-bit word within its block.
pub open spec fn word_of(addr: u32) -> int {
    (addr % 0x1000) as int / 4
}

/// The bus word that an address reaches, whatever its alias, or -1 where nothing
/// answers (no block, not word aligned, past the block's registers, or an alias
/// of the SIO block, which has none).
pub open spec fn slot(addr: u32) -> int {
    let b = block_index(addr - addr % BLOCK_SPAN);
    if b < 0 || addr % 4 != 0 || word_of(addr) >= WORDS_PER_BLOCK || (b == 6
        && alias_of(addr) != 0) {
        -1
    } else {
        b * WORDS_PER_BLOCK + word_of(addr)
    }
}

/// A register address of a block with atomic aliases, taken without alias bits.
pub open spec fn is_aliasable_reg(addr: u32) -> bool {
    &&& slot(addr) >= 0
    &&& alias_of(addr) == 0
    &&& addr - addr % BLOCK_SPAN != SIO_BASE
    &&& !read_only_slot(slot(addr))
}

/// Effect of an aliased store of `v` on a register holding `cur`.
pub open spec fn combine(cur: u32, alias: int, v: u32) -> u32 {
    if alias == 1 {
        cur ^ v
    } else if alias == 2 {
        cur | v
    } else if alias == 3 {
        cur & !v
    } else {
        v
    }
}

/// Registers whose value the hardware computes; stores to them have no effect.
pub open spec fn read_only_slot(s: int) -> bool {
    s == slot(SIO_GPIO_IN) || s == slot(PWM_INTS) || s == slot(SPI0_SSPSR)
        || s == slot(SPI1_SSPSR) || s == slot(RESETS_RESET_DONE)
}

/// The state of the bus: every register word, the levels that the outside world
/// drives onto the pins, and the bytes each SPI instance has sent.
pub struct BusState {
    pub regs: Seq<u32>,
    pub inputs: u32,
    pub spi0_tx: Seq<u8>,
    pub spi1_tx: Seq<u8>,
}

impl BusState {
    pub open spec fn wf(self) -> bool {
        self.regs.len() == NUM_WORDS
    }

    /// The value held by the register at `addr`.
    pub open spec fn reg(self, addr: u32) -> u32 {
        let s = slot(addr);
        if 0 <= s < self.regs.len() {
            self.regs[s]
        } else {
            0
        }
    }

    /// The bus with the register at `addr` holding `v`.
    pub open spec fn with_reg(self, addr: u32, v: u32) -> BusState {
        self.with_slot(slot(addr), v)
    }

    pub open spec fn with_slot(self, s: int, v: u32) -> BusState {
        if 0 <= s < self.regs.len() {
            BusState { regs: self.regs.update(s, v), ..self }
        } else {
            self
        }
    }

    /// What a load from `addr` returns.
    pub open spec fn loaded(self, addr: u32) -> u32 {
        let s = slot(addr);
        if s == slot(SIO_GPIO_IN) {
            (self.reg(SIO_GPIO_OUT) & self.reg(SIO_GPIO_OE)) | (self.inputs & !self.reg(
                SIO_GPIO_OE,
            ))
        } else if s == slot(PWM_INTS) {
            (self.reg(PWM_INTR) | self.reg(PWM_INTF)) & self.reg(PWM_INTE)
        } else if s == slot(SPI0_SSPSR) || s == slot(
            SPI1_SSPSR,
        ) {
            SPI_IDLE_STATUS
        } else if s == slot(RESETS_RESET_DONE) {
            !self.reg(RESETS_RESET) & RESETS_ALL_BITS
        } else {
            self.reg(addr)
        }
    }

    /// The bus after a store of `v` to `addr`.
    pub open spec fn stored(self, addr: u32, v: u32) -> BusState {
        let s = slot(addr);
        if s < 0 || read_only_slot(s) {
            self
        } else if alias_of(addr) != 0 {
            self.with_slot(s, combine(self.regs[s], alias_of(addr), v))
        } else if s == slot(SIO_GPIO_OUT_SET) {
            self.with_reg(SIO_GPIO_OUT, self.reg(SIO_GPIO_OUT) | v)
        } else if s == slot(SIO_GPIO_OUT_CLR) {
            self.with_reg(SIO_GPIO_OUT, self.reg(SIO_GPIO_OUT) & !v)
        } else if s == slot(SIO_GPIO_OUT_XOR) {
            self.with_reg(SIO_GPIO_OUT, self.reg(SIO_GPIO_OUT) ^ v)
        } else if s == slot(SIO_GPIO_OE_SET) {
            self.with_reg(SIO_GPIO_OE, self.reg(SIO_GPIO_OE) | v)
        } else if s == slot(SIO_GPIO_OE_CLR) {
            self.with_reg(SIO_GPIO_OE, self.reg(SIO_GPIO_OE) & !v)
        } else if s == slot(SIO_GPIO_OE_XOR) {
            self.with_reg(SIO_GPIO_OE, self.reg(SIO_GPIO_OE) ^ v)
        } else if s == slot(PWM_INTR) {
            self.with_slot(s, self.regs[s] & !v)
        } else if s == slot(SPI0_SSPDR) {
            BusState { spi0_tx: self.spi0_tx.push(v as u8), ..self }
        } else if s == slot(SPI1_SSPDR) {
            BusState { spi1_tx: self.spi1_tx.push(v as u8), ..self }
        } else {
            self.with_slot(s, v)
        }
    }
}

/// First bus word of the PWM slices' registers.
pub const PWM_SLICES_SLOT: usize = 320;

/// Control bit that asks a slice's counter to advance by one count.
pub const PWM_CH0_CSR_PH_ADV_BITS: u32 = 0x80;

/// Control bit that asks a slice's counter to retard by one count.
pub const PWM_CH0_CSR_PH_RET_BITS: u32 = 0x40;

/// A slice's counter after the phase requests in `csr` are carried out.
pub open spec fn settle_ctr(csr: u32, ctr: u32) -> u32 {
    let c = ctr % 0x1_0000;
    let c1 = if csr & PWM_CH0_CSR_PH_ADV_BITS != 0 {
        (c + 1) % 0x1_0000
    } else {
        c as int
    };
    (if csr & PWM_CH0_CSR_PH_RET_BITS != 0 {
        (c1 + 0xffff) % 0x1_0000
    } else {
        c1
    }) as u32
}

/// Whether bus word `i` is the control register of a PWM slice.
pub open spec fn is_csr_slot(i: int) -> bool {
    PWM_SLICES_SLOT <= i < PWM_SLICES_SLOT + 40 && (i - PWM_SLICES_SLOT) % 5 == 0
}

/// Whether bus word `i` is the counter of a PWM slice.
pub open spec fn is_ctr_slot(i: int) -> bool {
    PWM_SLICES_SLOT <= i < PWM_SLICES_SLOT + 40 && (i - PWM_SLICES_SLOT) % 5 == 2
}

/// The registers after every slice has carried out its phase requests: each
/// counter moved, each request bit cleared.
pub open spec fn phase_settled(regs: Seq<u32>) -> Seq<u32> {
    Seq::new(
        regs.len(),
        |i: int|
            if is_csr_slot(i) {
                regs[i] & !(PWM_CH0_CSR_PH_ADV_BITS | PWM_CH0_CSR_PH_RET_BITS)
            } else if is_ctr_slot(i) {
                settle_ctr(regs[i - 2], regs[i])
            } else {
                regs[i]
            },
    )
}

const SLOT_RESETS_RESET: usize = 0;

const SLOT_RESETS_RESET_DONE: usize = 2;

const SLOT_SPI0_SSPDR: usize = 194;

const SLOT_SPI0_SSPSR: usize = 195;

const SLOT_SPI1_SSPDR: usize = 258;

const SLOT_SPI1_SSPSR: usize = 259;

const SLOT_PWM_INTR: usize = 361;

const SLOT_PWM_INTE: usize = 362;

const SLOT_PWM_INTF: usize = 363;

const SLOT_PWM_INTS: usize = 364;

const SLOT_SIO_GPIO_IN: usize = 385;

const SLOT_SIO_GPIO_OUT: usize = 388;

const SLOT_SIO_GPIO_OUT_SET: usize = 389;

const SLOT_SIO_GPIO_OUT_CLR: usize = 390;

const SLOT_SIO_GPIO_OUT_XOR: usize = 391;

const SLOT_SIO_GPIO_OE: usize = 392;

const SLOT_SIO_GPIO_OE_SET: usize = 393;

const SLOT_SIO_GPIO_OE_CLR: usize = 394;

const SLOT_SIO_GPIO_OE_XOR: usize = 395;

/// Finds the bus word that `addr` reaches.
pub fn locate(addr: u32) -> (r: Option<usize>)
    ensures
        match r {
            Some(i) => i == slot(addr) && i < NUM_WORDS,
            None => slot(addr) < 0,
        },
{
    let base = addr - addr % BLOCK_SPAN;
    let b: usize = if base == RESETS_BASE {
        0
    } else if base == IO_BANK0_BASE {
        1
    } else if base == PADS_BANK0_BASE {
        2
    } else if base == SPI0_BASE {
        3
    } else if base == SPI1_BASE {
        4
    } else if base == PWM_BASE {
        5
    } else if base == SIO_BASE {
        6
    } else {
        return None;
    };
    let alias = (addr % BLOCK_SPAN) / 0x1000;
    let word = ((addr % 0x1000) / 4) as usize;
    if addr % 4 != 0 || word >= WORDS_PER_BLOCK || (b == 6 && alias != 0) {
        None
    } else {
        Some(b * WORDS_PER_BLOCK + word)
    }
}

/// The peripheral address space: register words, pin input levels driven from
/// outside, and what each SPI instance has sent.
pub struct Bus {
    regs: Vec<u32>,
    inputs: u32,
    spi0_tx: Vec<u8>,
    spi1_tx: Vec<u8>,
}

impl View for Bus {
    type V = BusState;

    closed spec fn view(&self) -> BusState {
        BusState {
            regs: self.regs@,
            inputs: self.inputs,
            spi0_tx: self.spi0_tx@,
            spi1_tx: self.spi1_tx@,
        }
    }
}

impl Bus {
    /// A bus with every register zero, no pin driven high from outside and
    /// nothing sent.
    pub fn new() -> (r: Bus)
        ensures
            r@.wf(),
            forall|i: int| 0 <= i < NUM_WORDS ==> r@.regs[i] == 0,
            r@.inputs == 0,
            r@.spi0_tx.len() == 0,
            r@.spi1_tx.len() == 0,
    {
        let mut regs: Vec<u32> = Vec::new();
        let mut i: usize = 0;
        while i < NUM_WORDS
            invariant
                i <= NUM_WORDS,
                regs@.len() == i,
                forall|j: int| 0 <= j < i ==> regs@[j] == 0,
            decreases NUM_WORDS - i,
        {
            regs.push(0);
            i = i + 1;
        }
        Bus { regs, inputs: 0, spi0_tx: Vec::new(), spi1_tx: Vec::new() }
    }

    /// Sets the levels that the outside world drives onto the pins, pin n at
    /// bit n. Pins that drive their own output read their output instead.
    pub fn set_inputs(&mut self, levels: u32)
        requires
            old(self)@.wf(),
        ensures
            final(self)@ == (BusState { inputs: levels, ..old(self)@ }),
    {
        self.inputs = levels;
    }

    /// Marks the slices in `mask` as having wrapped: their bits in the PWM
    /// raw interrupt register go up.
    pub fn raise_pwm_wrap(&mut self, mask: u32)
        requires
            old(self)@.wf(),
        ensures
            final(self)@.wf(),
            final(self)@ == old(self)@.with_reg(PWM_INTR, old(self)@.reg(PWM_INTR) | mask),
    {
        let cur = self.regs[SLOT_PWM_INTR];
        self.regs.set(SLOT_PWM_INTR, cur | mask);
    }

    /// Lets every PWM counter carry out the phase requests in its slice's
    /// control register, as the running counters do, and clears them.
    pub fn complete_phase_requests(&mut self)
        requires
            old(self)@.wf(),
        ensures
            final(self)@.wf(),
            final(self)@ == (BusState { regs: phase_settled(old(self)@.regs), ..old(self)@ }),
    {
        let mut k: usize = 0;
        while k < 8
            invariant
                k <= 8,
                self.regs@.len() == NUM_WORDS,
                old(self).regs@.len() == NUM_WORDS,
                self.inputs == old(self).inputs,
                self.spi0_tx@ == old(self).spi0_tx@,
                self.spi1_tx@ == old(self).spi1_tx@,
                forall|i: int|
                    0 <= i < NUM_WORDS ==> #[trigger] self.regs@[i] == if PWM_SLICES_SLOT <= i
                        < PWM_SLICES_SLOT + 5 * k {
                        phase_settled(old(self).regs@)[i]
                    } else {
                        old(self).regs@[i]
                    },
            decreases 8 - k,
        {
            let ghost before = self.regs@;
            let csr_i = PWM_SLICES_SLOT + 5 * k;
            let ctr_i = csr_i + 2;
            let csr = self.regs[csr_i];
            let ctr = self.regs[ctr_i];
            let mut c = ctr % 0x1_0000;
            if csr & PWM_CH0_CSR_PH_ADV_BITS != 0 {
                c = (c + 1) % 0x1_0000;
            }
            if csr & PWM_CH0_CSR_PH_RET_BITS != 0 {
                c = (c + 0xffff) % 0x1_0000;
            }
            self.regs.set(csr_i, csr & !(PWM_CH0_CSR_PH_ADV_BITS | PWM_CH0_CSR_PH_RET_BITS));
            self.regs.set(ctr_i, c);
            proof {
                let settled = phase_settled(old(self).regs@);
                let old_regs = old(self).regs@;
                assert forall|i: int| 0 <= i < NUM_WORDS implies #[trigger] self.regs@[i] == if
                    PWM_SLICES_SLOT <= i < PWM_SLICES_SLOT + 5 * (k + 1) {
                    settled[i]
                } else {
                    old_regs[i]
                } by {
                    assert(before[i] == if PWM_SLICES_SLOT <= i < PWM_SLICES_SLOT + 5 * k {
                        settled[i]
                    } else {
                        old_regs[i]
                    });
                    if csr_i <= i < csr_i + 5 {
                        lemma_mod_multiples_vanish(k as int, i - csr_i, 5);
                        assert(i - PWM_SLICES_SLOT == 5 * k + (i - csr_i));
                        assert(before[csr_i as int] == old_regs[csr_i as int]);
                        assert(before[ctr_i as int] == old_regs[ctr_i as int]);
                    }
                }
            }
            k = k + 1;
        }
        assert(self.regs@ =~= phase_settled(old(self).regs@));
    }

    /// The bytes that SPI instance `index` (0 or 1) has sent.
    pub fn spi_sent(&self, index: u32) -> (r: &Vec<u8>)
        ensures
            r@ == (if index == 1 {
                self@.spi1_tx
            } else {
                self@.spi0_tx
            }),
    {
        if index == 1 {
            &self.spi1_tx
        } else {
            &self.spi0_tx
        }
    }

    /// Reads the register at `addr`.
    pub fn load(&self, addr: u32) -> (r: u32)
        requires
            self@.wf(),
        ensures
            r == self@.loaded(addr),
    {
        match locate(addr) {
            None => 0,
            Some(i) => {
                if i == SLOT_SIO_GPIO_IN {
                    let oe = self.regs[SLOT_SIO_GPIO_OE];
                    (self.regs[SLOT_SIO_GPIO_OUT] & oe) | (self.inputs & !oe)
                } else if i == SLOT_PWM_INTS {
                    (self.regs[SLOT_PWM_INTR] | self.regs[SLOT_PWM_INTF]) & self.regs[SLOT_PWM_INTE]
                } else if i == SLOT_SPI0_SSPSR || i == SLOT_SPI1_SSPSR {
                    SPI_IDLE_STATUS
                } else if i == SLOT_RESETS_RESET_DONE {
                    !self.regs[SLOT_RESETS_RESET] & RESETS_ALL_BITS
                } else {
                    self.regs[i]
                }
            },
        }
    }

    /// Writes `v` to `addr`, with the effect that the address selects.
    pub fn store(&mut self, addr: u32, v: u32)
        requires
            old(self)@.wf(),
        ensures
            final(self)@.wf(),
            final(self)@ == old(self)@.stored(addr, v),
    {
        match locate(addr) {
            None => {},
            Some(i) => {
                let alias = (addr % BLOCK_SPAN) / 0x1000;
                if i == SLOT_SIO_GPIO_IN || i == SLOT_PWM_INTS || i == SLOT_SPI0_SSPSR || i
                    == SLOT_SPI1_SSPSR || i == SLOT_RESETS_RESET_DONE {
                } else if alias != 0 {
                    let cur = self.regs[i];
                    let next = if alias == 1 {
                        cur ^ v
                    } else if alias == 2 {
                        cur | v
                    } else {
                        cur & !v
                    };
                    self.regs.set(i, next);
                } else if i == SLOT_SIO_GPIO_OUT_SET {
                    let cur = self.regs[SLOT_SIO_GPIO_OUT];
                    self.regs.set(SLOT_SIO_GPIO_OUT, cur | v);
                } else if i == SLOT_SIO_GPIO_OUT_CLR {
                    let cur = self.regs[SLOT_SIO_GPIO_OUT];
                    self.regs.set(SLOT_SIO_GPIO_OUT, cur & !v);
                } else if i == SLOT_SIO_GPIO_OUT_XOR {
                    let cur = self.regs[SLOT_SIO_GPIO_OUT];
                    self.regs.set(SLOT_SIO_GPIO_OUT, cur ^ v);
                } else if i == SLOT_SIO_GPIO_OE_SET {
                    let cur = self.regs[SLOT_SIO_GPIO_OE];
                    self.regs.set(SLOT_SIO_GPIO_OE, cur | v);
                } else if i == SLOT_SIO_GPIO_OE_CLR {
                    let cur = self.regs[SLOT_SIO_GPIO_OE];
                    self.regs.set(SLOT_SIO_GPIO_OE, cur & !v);
                } else if i == SLOT_SIO_GPIO_OE_XOR {
                    let cur = self.regs[SLOT_SIO_GPIO_OE];
                    self.regs.set(SLOT_SIO_GPIO_OE, cur ^ v);
                } else if i == SLOT_PWM_INTR {
                    let cur = self.regs[i];
                    self.regs.set(i, cur & !v);
                } else if i == SLOT_SPI0_SSPDR {
                    self.spi0_tx.push(v as u8);
                } else if i == SLOT_SPI1_SSPDR {
                    self.spi1_tx.push(v as u8);
                } else {
                    self.regs.set(i, v);
                }
            },
        }
    }
}

/// An alias view of a register sits at the register's address plus the alias
/// offset, in the same block and word.
proof fn lemma_alias_addr(addr: u32, a: u32)
    by (bit_vector)
    requires
        addr % 0x4000 < 0x1000,
        a == 0x1000 || a == 0x2000 || a == 0x3000,
    ensures
        addr | a == addr + a,
        (addr | a) % 0x4000 == addr % 0x4000 + a,
        (addr | a) % 0x1000 == addr % 0x1000,
        (addr | a) % 4 == addr % 4,
        (addr | a) - (addr | a) % 0x4000 == addr - addr % 0x4000,
{
}

/// A register at offset `off` of a block based at `base`.
pub proof fn lemma_block_reg(base: u32, off: u32)
    requires
        base % 0x4000 == 0,
        off < 0x100,
    ensures
        (base + off) % 0x4000 == off,
        (base + off) % 0x1000 == off,
        (base + off) % 4 == off % 4,
{
    let q = base / 0x4000;
    lemma_fundamental_div_mod(base as int, 0x4000);
    assert(base == 0x4000 * q);
    lemma_mod_multiples_vanish(q as int, off as int, 0x4000);
    assert(base == 0x1000 * (4 * q)) by (nonlinear_arith)
        requires
            base == 0x4000 * q,
    ;
    lemma_mod_multiples_vanish(4 * q, off as int, 0x1000);
    assert(base == 4 * (0x1000 * q)) by (nonlinear_arith)
        requires
            base == 0x4000 * q,
    ;
    lemma_mod_multiples_vanish(0x1000 * q, off as int, 4);
}

/// The bus with the bits of `mask` set in the register at `addr`.
pub open spec fn set_bits_at(b: BusState, addr: u32, mask: u32) -> BusState {
    b.with_reg(addr, b.reg(addr) | mask)
}

/// The bus with the bits of `mask` cleared in the register at `addr`.
pub open spec fn clear_bits_at(b: BusState, addr: u32, mask: u32) -> BusState {
    b.with_reg(addr, b.reg(addr) & !mask)
}

/// The bus with the bits of `mask` in the register at `addr` set to those of
/// `values`.
pub open spec fn write_masked_at(b: BusState, addr: u32, values: u32, mask: u32) -> BusState {
    b.with_reg(addr, masked(b.reg(addr), values, mask))
}

/// Where a load reads back the value held in the register.
proof fn lemma_plain_load(b: BusState, addr: u32)
    requires
        is_aliasable_reg(addr),
    ensures
        b.loaded(addr) == b.reg(addr),
{
}

/// Atomically ORs `mask` into the register at `addr`, with one store to its SET
/// alias.
pub fn hw_set_bits(bus: &mut Bus, addr: u32, mask: u32)
    requires
        old(bus)@.wf(),
        is_aliasable_reg(addr),
    ensures
        final(bus)@.wf(),
        final(bus)@ == old(bus)@.with_reg(addr, old(bus)@.reg(addr) | mask),
        final(bus)@.loaded(addr) == old(bus)@.loaded(addr) | mask,
{
    proof {
        lemma_alias_addr(addr, REG_ALIAS_SET_BITS);
        lemma_plain_load(bus@, addr);
    }
    bus.store(addr | REG_ALIAS_SET_BITS, mask);
    proof {
        lemma_plain_load(bus@, addr);
    }
}

/// Atomically clears the bits of `mask` in the register at `addr`, with one
/// store to its CLEAR alias.
pub fn hw_clear_bits(bus: &mut Bus, addr: u32, mask: u32)
    requires
        old(bus)@.wf(),
        is_aliasable_reg(addr),
    ensures
        final(bus)@.wf(),
        final(bus)@ == old(bus)@.with_reg(addr, old(bus)@.reg(addr) & !mask),
        final(bus)@.loaded(addr) == old(bus)@.loaded(addr) & !mask,
{
    proof {
        lemma_alias_addr(addr, REG_ALIAS_CLR_BITS);
        lemma_plain_load(bus@, addr);
    }
    bus.store(addr | REG_ALIAS_CLR_BITS, mask);
    proof {
        lemma_plain_load(bus@, addr);
    }
}

/// Atomically XORs `mask` into the register at `addr`, with one store to its XOR
/// alias.
pub fn hw_xor_bits(bus: &mut Bus, addr: u32, mask: u32)
    requires
        old(bus)@.wf(),
        is_aliasable_reg(addr),
    ensures
        final(bus)@.wf(),
        final(bus)@ == old(bus)@.with_reg(addr, old(bus)@.reg(addr) ^ mask),
        final(bus)@.loaded(addr) == old(bus)@.loaded(addr) ^ mask,
{
    proof {
        lemma_alias_addr(addr, REG_ALIAS_XOR_BITS);
        lemma_plain_load(bus@, addr);
    }
    bus.store(addr | REG_ALIAS_XOR_BITS, mask);
    proof {
        lemma_plain_load(bus@, addr);
    }
}

/// The register value after the bits of `mask` take those of `values`.
pub open spec fn masked(cur: u32, values: u32, mask: u32) -> u32 {
    (cur & !mask) | (values & mask)
}

/// Sets the bits of `mask` in the register at `addr` to those of `values`: a
/// plain read, then one store to the XOR alias. Only that store is atomic; a
/// writer of the same bits between the two is not accounted for.
pub fn hw_write_masked(bus: &mut Bus, addr: u32, values: u32, mask: u32)
    requires
        old(bus)@.wf(),
        is_aliasable_reg(addr),
    ensures
        final(bus)@.wf(),
        final(bus)@ == old(bus)@.with_reg(addr, masked(old(bus)@.reg(addr), values, mask)),
        final(bus)@.loaded(addr) & !mask == old(bus)@.loaded(addr) & !mask,
        final(bus)@.loaded(addr) & mask == values & mask,
{
    let cur = bus.load(addr);
    proof {
        lemma_plain_load(bus@, addr);
    }
    hw_xor_bits(bus, addr, (cur ^ values) & mask);
    assert(cur ^ ((cur ^ values) & mask) == (cur & !mask) | (values & mask)) by (bit_vector);
    let ghost next = (cur & !mask) | (values & mask);
    assert(next & !mask == cur & !mask && next & mask == values & mask) by (bit_vector)
        requires
            next == (cur & !mask) | (values & mask),
    ;
}

/// The XOR store of a masked write, computed from a read taken before another
/// writer changed only bits outside `mask`, still leaves exactly the masked
/// write of the register as it now stands: the other writer's bits survive and
/// the masked bits take `values`.
pub proof fn lemma_masked_write_tolerates_disjoint_writer(
    read: u32,
    now: u32,
    values: u32,
    mask: u32,
)
    requires
        now & mask == read & mask,
    ensures
        now ^ ((read ^ values) & mask) == masked(now, values, mask),
{
    assert(now ^ ((read ^ values) & mask) == (now & !mask) | (values & mask)) by (bit_vector)
        requires
            now & mask == read & mask,
    ;
}

/// For every register with atomic aliases, every mask and every state of the
/// bus: one store of `mask` to the register's SET, CLEAR or XOR alias leaves a
/// plain read of the register returning the value before OR `mask`, AND NOT
/// `mask`, or XOR `mask`, and changes no other register.
pub proof fn lemma_alias_read_back(b: BusState, addr: u32, mask: u32)
    requires
        b.wf(),
        is_aliasable_reg(addr),
    ensures
        b.stored(addr | REG_ALIAS_SET_BITS, mask) == b.with_reg(addr, b.reg(addr) | mask),
        b.stored(addr | REG_ALIAS_CLR_BITS, mask) == b.with_reg(addr, b.reg(addr) & !mask),
        b.stored(addr | REG_ALIAS_XOR_BITS, mask) == b.with_reg(addr, b.reg(addr) ^ mask),
        b.stored(addr | REG_ALIAS_SET_BITS, mask).loaded(addr) == b.loaded(addr) | mask,
        b.stored(addr | REG_ALIAS_CLR_BITS, mask).loaded(addr) == b.loaded(addr) & !mask,
        b.stored(addr | REG_ALIAS_XOR_BITS, mask).loaded(addr) == b.loaded(addr) ^ mask,
{
    lemma_alias_addr(addr, REG_ALIAS_SET_BITS);
    lemma_alias_addr(addr, REG_ALIAS_CLR_BITS);
    lemma_alias_addr(addr, REG_ALIAS_XOR_BITS);
    lemma_plain_load(b, addr);
    lemma_plain_load(b.with_reg(addr, b.reg(addr) | mask), addr);
    lemma_plain_load(b.with_reg(addr, b.reg(addr) & !mask), addr);
    lemma_plain_load(b.with_reg(addr, b.reg(addr) ^ mask), addr);
}

/// For every register with atomic aliases, all `values`, every mask and every
/// state of the bus: a plain read followed by one store of
/// `(read ^ values) & mask` to the XOR alias leaves the bits outside `mask`
/// as they were and the bits inside it equal to those of `values`.
pub proof fn lemma_masked_write_read_back(b: BusState, addr: u32, values: u32, mask: u32)
    requires
        b.wf(),
        is_aliasable_reg(addr),
    ensures
        ({
            let after = b.stored(addr | REG_ALIAS_XOR_BITS, (b.loaded(addr) ^ values) & mask);
            &&& after == b.with_reg(addr, masked(b.reg(addr), values, mask))
            &&& after.loaded(addr) & !mask == b.loaded(addr) & !mask
            &&& after.loaded(addr) & mask == values & mask
        }),
{
    let cur = b.reg(addr);
    lemma_alias_read_back(b, addr, (cur ^ values) & mask);
    lemma_plain_load(b, addr);
    let next = masked(cur, values, mask);
    lemma_plain_load(b.with_reg(addr, next), addr);
    assert(cur ^ ((cur ^ values) & mask) == (cur & !mask) | (values & mask)) by (bit_vector);
    assert(next & !mask == cur & !mask && next & mask == values & mask) by (bit_vector)
        requires
            next == (cur & !mask) | (values & mask),
    ;
}

} // verus!
