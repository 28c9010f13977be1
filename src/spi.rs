//! SPI: the two PL022 instances, their reset, clock rate and frame format, a
//! blocking write, and a handle that owns an instance from open to close.
use vstd::prelude::*;

use crate::regs::{
    clear_bits_at, hw_clear_bits, hw_set_bits, hw_write_masked, is_aliasable_reg, masked,
    lemma_block_reg, set_bits_at, write_masked_at, Bus, BusState, RESETS_ALL_BITS, RESETS_RESET,
    RESETS_RESET_DONE, RESETS_RESET_SPI0_BITS, RESETS_RESET_SPI1_BITS, SPI0_BASE, SPI1_BASE,
};

verus! {

/// Frequency of the peripheral clock that the SPI instances divide.
pub const CLK_PERI_HZ: u32 = 125_000_000;

pub const SPI_SSPCR0_OFFSET: u32 = 0x00;

pub const SPI_SSPCR1_OFFSET: u32 = 0x04;

pub const SPI_SSPDR_OFFSET: u32 = 0x08;

pub const SPI_SSPSR_OFFSET: u32 = 0x0c;

pub const SPI_SSPCPSR_OFFSET: u32 = 0x10;

pub const SPI_SSPICR_OFFSET: u32 = 0x20;

pub const SPI_SSPDMACR_OFFSET: u32 = 0x24;

pub const SPI_SSPCR0_DSS_BITS: u32 = 0x0f;

pub const SPI_SSPCR0_DSS_LSB: u32 = 0;

pub const SPI_SSPCR0_SPO_BITS: u32 = 0x40;

pub const SPI_SSPCR0_SPO_LSB: u32 = 6;

pub const SPI_SSPCR0_SPH_BITS: u32 = 0x80;

pub const SPI_SSPCR0_SPH_LSB: u32 = 7;

pub const SPI_SSPCR0_SCR_BITS: u32 = 0xff00;

pub const SPI_SSPCR0_SCR_LSB: u32 = 8;

pub const SPI_SSPCR1_SSE_BITS: u32 = 0x02;

pub const SPI_SSPCR1_MS_BITS: u32 = 0x04;

pub const SPI_SSPSR_TNF_BITS: u32 = 0x02;

pub const SPI_SSPSR_TNF_LSB: u32 = 1;

pub const SPI_SSPSR_RNE_BITS: u32 = 0x04;

pub const SPI_SSPSR_RNE_LSB: u32 = 2;

pub const SPI_SSPSR_BSY_BITS: u32 = 0x10;

pub const SPI_SSPICR_RORIC_BITS: u32 = 0x01;

pub const SPI_SSPDMACR_TXDMAE_BITS: u32 = 0x02;

pub const SPI_SSPDMACR_RXDMAE_BITS: u32 = 0x01;

/// One of the two SPI instances.
#[derive(Clone, Copy, Debug, PartialEq, Eq, Structural)]
pub enum SpiInstance {
    Spi0,
    Spi1,
}

/// Clock polarity when idle.
#[derive(Clone, Copy, Debug, PartialEq, Eq, Structural)]
pub enum SpiCpol {
    Cpol0,
    Cpol1,
}

/// Clock phase at which data is sampled.
#[derive(Clone, Copy, Debug, PartialEq, Eq, Structural)]
pub enum SpiCpha {
    Cpha0,
    Cpha1,
}

/// Bit order on the wire; the PL022 sends the most significant bit first only.
#[derive(Clone, Copy, Debug, PartialEq, Eq, Structural)]
pub enum SpiOrder {
    LsbFirst,
    MsbFirst,
}

pub open spec fn spi_base(inst: SpiInstance) -> u32 {
    match inst {
        SpiInstance::Spi0 => SPI0_BASE,
        SpiInstance::Spi1 => SPI1_BASE,
    }
}

/// Address of the register at `off` of `inst`.
pub open spec fn spi_reg(inst: SpiInstance, off: u32) -> u32 {
    (spi_base(inst) + off) as u32
}

/// The bit of `inst` in the RESETS registers.
pub open spec fn reset_bits(inst: SpiInstance) -> u32 {
    match inst {
        SpiInstance::Spi0 => RESETS_RESET_SPI0_BITS,
        SpiInstance::Spi1 => RESETS_RESET_SPI1_BITS,
    }
}

pub open spec fn cpol_code(c: SpiCpol) -> u32 {
    match c {
        SpiCpol::Cpol0 => 0,
        SpiCpol::Cpol1 => 1,
    }
}

pub open spec fn cpha_code(c: SpiCpha) -> u32 {
    match c {
        SpiCpha::Cpha0 => 0,
        SpiCpha::Cpha1 => 1,
    }
}

/// Whether prescale `p` is fast enough for `baud`.
pub open spec fn prescale_fits(p: int, baud: int) -> bool {
    CLK_PERI_HZ < (p + 2) * 256 * baud
}

/// `p` is the least even prescale from 2 to 254 that is fast enough for `baud`.
pub open spec fn is_prescale(p: int, baud: int) -> bool {
    &&& 2 <= p <= 254
    &&& p % 2 == 0
    &&& prescale_fits(p, baud)
    &&& forall|q: int| 2 <= q < p && q % 2 == 0 ==> !prescale_fits(q, baud)
}

/// Whether post-divider `d` (at least 2) keeps the rate above `baud`.
pub open spec fn postdiv_fits(p: int, d: int, baud: int) -> bool {
    CLK_PERI_HZ as int / (p * (d - 1)) > baud
}

/// `d` is the largest post-divider from 2 to 256 for which the rate one step
/// slower would still be above `baud`, or 1 where there is none.
pub open spec fn is_postdiv(p: int, d: int, baud: int) -> bool {
    &&& 1 <= d <= 256
    &&& d == 1 || postdiv_fits(p, d, baud)
    &&& forall|e: int| d < e <= 256 ==> !postdiv_fits(p, e, baud)
}

/// The prescale chosen for `baud`.
pub open spec fn prescale_for(baud: int) -> int {
    choose|p: int| is_prescale(p, baud)
}

/// The post-divider chosen for `baud`.
pub open spec fn postdiv_for(baud: int) -> int {
    choose|d: int| is_postdiv(prescale_for(baud), d, baud)
}

/// The rate that the clock divisors for `baud` give.
pub open spec fn actual_baud(baud: int) -> int {
    CLK_PERI_HZ as int / (prescale_for(baud) * postdiv_for(baud))
}

/// A rate that some prescale reaches.
pub open spec fn baud_in_range(baud: int) -> bool {
    CLK_PERI_HZ < 65536 * baud
}

/// The bus after the clock of `inst` is set for `baud`.
pub open spec fn baud_state(b: BusState, inst: SpiInstance, baud: int) -> BusState {
    write_masked_at(
        b.with_reg(spi_reg(inst, SPI_SSPCPSR_OFFSET), prescale_for(baud) as u32),
        spi_reg(inst, SPI_SSPCR0_OFFSET),
        ((postdiv_for(baud) - 1) as u32) << 8,
        SPI_SSPCR0_SCR_BITS,
    )
}

/// The CR0 bits for a frame format.
pub open spec fn format_bits(data_bits: u32, cpol: SpiCpol, cpha: SpiCpha) -> u32 {
    ((data_bits - 1) as u32) | (cpol_code(cpol) << 6) | (cpha_code(cpha) << 7)
}

/// The bus after the frame format of `inst` is set.
pub open spec fn format_state(
    b: BusState,
    inst: SpiInstance,
    data_bits: u32,
    cpol: SpiCpol,
    cpha: SpiCpha,
) -> BusState {
    write_masked_at(
        b,
        spi_reg(inst, SPI_SSPCR0_OFFSET),
        format_bits(data_bits, cpol, cpha),
        SPI_SSPCR0_DSS_BITS | SPI_SSPCR0_SPO_BITS | SPI_SSPCR0_SPH_BITS,
    )
}

/// The bus after `inst` is opened at `baud`: out of reset, prescale and
/// post-divider for `baud`, 8-bit frames with clock polarity and phase 0, DMA
/// requests on, and the instance enabled.
pub open spec fn init_state(b: BusState, inst: SpiInstance, baud: int) -> BusState {
    let cr0 = spi_reg(inst, SPI_SSPCR0_OFFSET);
    let cr1 = spi_reg(inst, SPI_SSPCR1_OFFSET);
    let dmacr = spi_reg(inst, SPI_SSPDMACR_OFFSET);
    b.with_reg(RESETS_RESET, b.reg(RESETS_RESET) & !reset_bits(inst)).with_reg(
        spi_reg(inst, SPI_SSPCPSR_OFFSET),
        prescale_for(baud) as u32,
    ).with_reg(
        cr0,
        masked(
            b.reg(cr0),
            (((postdiv_for(baud) - 1) as u32) << 8) | format_bits(8, SpiCpol::Cpol0, SpiCpha::Cpha0),
            SPI_SSPCR0_SCR_BITS | SPI_SSPCR0_DSS_BITS | SPI_SSPCR0_SPO_BITS | SPI_SSPCR0_SPH_BITS,
        ),
    ).with_reg(dmacr, b.reg(dmacr) | (SPI_SSPDMACR_TXDMAE_BITS | SPI_SSPDMACR_RXDMAE_BITS)).with_reg(
        cr1,
        b.reg(cr1) | SPI_SSPCR1_SSE_BITS,
    )
}

/// The bus after `inst` is disabled, its DMA requests off, and held in reset.
pub open spec fn deinit_state(b: BusState, inst: SpiInstance) -> BusState {
    let b1 = clear_bits_at(b, spi_reg(inst, SPI_SSPCR1_OFFSET), SPI_SSPCR1_SSE_BITS);
    let b2 = clear_bits_at(b1, spi_reg(inst, SPI_SSPDMACR_OFFSET), SPI_SSPDMACR_TXDMAE_BITS | SPI_SSPDMACR_RXDMAE_BITS);
    set_bits_at(b2, RESETS_RESET, reset_bits(inst))
}

/// The bus after `inst` has sent the bytes `s`.
pub open spec fn sent(b: BusState, inst: SpiInstance, s: Seq<u8>) -> BusState {
    match inst {
        SpiInstance::Spi0 => BusState { spi0_tx: b.spi0_tx + s, ..b },
        SpiInstance::Spi1 => BusState { spi1_tx: b.spi1_tx + s, ..b },
    }
}

/// The bus after a blocking write of `s` on `inst`: the bytes sent, then the
/// receive-overrun flag cleared.
pub open spec fn write_state(b: BusState, inst: SpiInstance, s: Seq<u8>) -> BusState {
    sent(b, inst, s).with_reg(spi_reg(inst, SPI_SSPICR_OFFSET), SPI_SSPICR_RORIC_BITS)
}

proof fn lemma_spi_regs(inst: SpiInstance)
    ensures
        is_aliasable_reg(spi_reg(inst, SPI_SSPCR0_OFFSET)),
        is_aliasable_reg(spi_reg(inst, SPI_SSPCR1_OFFSET)),
        is_aliasable_reg(spi_reg(inst, SPI_SSPCPSR_OFFSET)),
        is_aliasable_reg(spi_reg(inst, SPI_SSPICR_OFFSET)),
        is_aliasable_reg(spi_reg(inst, SPI_SSPDMACR_OFFSET)),
        is_aliasable_reg(RESETS_RESET),
{
    let base = spi_base(inst);
    lemma_block_reg(base, 0x00);
    lemma_block_reg(base, 0x04);
    lemma_block_reg(base, 0x10);
    lemma_block_reg(base, 0x20);
    lemma_block_reg(base, 0x24);
}

proof fn lemma_prescale_unique(p1: int, p2: int, baud: int)
    requires
        is_prescale(p1, baud),
        is_prescale(p2, baud),
    ensures
        p1 == p2,
{
}

proof fn lemma_postdiv_unique(p: int, d1: int, d2: int, baud: int)
    requires
        is_postdiv(p, d1, baud),
        is_postdiv(p, d2, baud),
    ensures
        d1 == d2,
{
}

/// The prescale and post-divider for `baudrate`.
fn baud_divisors(baudrate: u32) -> (r: (u32, u32))
    requires
        baud_in_range(baudrate as int),
    ensures
        r.0 == prescale_for(baudrate as int),
        r.1 == postdiv_for(baudrate as int),
        2 <= r.0 <= 254,
        1 <= r.1 <= 256,
{
    let freq_in = CLK_PERI_HZ as u64;
    let baud = baudrate as u64;
    let mut prescale: u32 = 2;
    loop
        invariant_except_break
            2 <= prescale <= 254,
            prescale % 2 == 0,
            forall|q: int| 2 <= q < prescale && q % 2 == 0 ==> !prescale_fits(q, baudrate as int),
        invariant
            baud_in_range(baudrate as int),
            baud == baudrate,
            freq_in == CLK_PERI_HZ,
        ensures
            is_prescale(prescale as int, baudrate as int),
        decreases 254 - prescale,
    {
        assert((prescale + 2) * 256 * baud <= 65536 * 0xffff_ffff) by (nonlinear_arith)
            requires
                prescale <= 254,
                baud <= 0xffff_ffff,
        ;
        if freq_in < (prescale as u64 + 2) * 256 * baud {
            break ;
        }
        prescale = prescale + 2;
    }
    let mut postdiv: u32 = 256;
    loop
        invariant_except_break
            1 <= postdiv <= 256,
            forall|e: int| postdiv < e <= 256 ==> !postdiv_fits(prescale as int, e, baudrate as int),
        invariant
            is_prescale(prescale as int, baudrate as int),
            baud == baudrate,
            freq_in == CLK_PERI_HZ,
        ensures
            is_postdiv(prescale as int, postdiv as int, baudrate as int),
        decreases postdiv,
    {
        if postdiv <= 1 {
            break ;
        }
        assert(1 <= prescale * (postdiv - 1) <= 254 * 255) by (nonlinear_arith)
            requires
                2 <= prescale <= 254,
                2 <= postdiv <= 256,
        ;
        if freq_in / (prescale as u64 * (postdiv as u64 - 1)) > baud {
            break ;
        }
        postdiv = postdiv - 1;
    }
    proof {
        lemma_prescale_unique(prescale as int, prescale_for(baudrate as int), baudrate as int);
        lemma_postdiv_unique(
            prescale as int,
            postdiv as int,
            postdiv_for(baudrate as int),
            baudrate as int,
        );
    }
    (prescale, postdiv)
}

impl SpiInstance {
    /// The base address of this instance's registers.
    pub fn base(&self) -> (r: u32)
        ensures
            r == spi_base(*self),
    {
        match self {
            SpiInstance::Spi0 => SPI0_BASE,
            SpiInstance::Spi1 => SPI1_BASE,
        }
    }

    /// The bit of this instance in the RESETS registers.
    pub fn reset_bits(&self) -> (r: u32)
        ensures
            r == reset_bits(*self),
    {
        match self {
            SpiInstance::Spi0 => RESETS_RESET_SPI0_BITS,
            SpiInstance::Spi1 => RESETS_RESET_SPI1_BITS,
        }
    }
}

/// The number of `spi`: 0 or 1.
pub fn spi_get_index(spi: SpiInstance) -> (r: u32)
    ensures
        r == (if spi == SpiInstance::Spi1 {
            1u32
        } else {
            0u32
        }),
{
    if spi == SpiInstance::Spi1 {
        1
    } else {
        0
    }
}

/// The base address of the registers of `spi`.
pub fn spi_get_hw(spi: SpiInstance) -> (r: u32)
    ensures
        r == spi_base(spi),
{
    spi.base()
}

/// Holds `spi` in reset.
fn spi_reset(bus: &mut Bus, spi: SpiInstance)
    requires
        old(bus)@.wf(),
    ensures
        final(bus)@.wf(),
        final(bus)@ == set_bits_at(old(bus)@, RESETS_RESET, reset_bits(spi)),
{
    proof {
        lemma_spi_regs(spi);
    }
    hw_set_bits(bus, RESETS_RESET, spi.reset_bits());
}

proof fn lemma_reset_done(r: u32, bits: u32)
    by (bit_vector)
    requires
        bits & !0x01ff_ffffu32 == 0,
    ensures
        !(!(r & !bits) & 0x01ff_ffffu32) & bits == 0,
{
}

/// Brings `spi` out of reset and waits until the reset is done. The bus
/// completes a reset at once, so the wait ends at its first check.
fn spi_unreset(bus: &mut Bus, spi: SpiInstance)
    requires
        old(bus)@.wf(),
    ensures
        final(bus)@.wf(),
        final(bus)@ == clear_bits_at(old(bus)@, RESETS_RESET, reset_bits(spi)),
{
    proof {
        lemma_spi_regs(spi);
    }
    let bits = spi.reset_bits();
    hw_clear_bits(bus, RESETS_RESET, bits);
    proof {
        assert(0x0001_0000u32 & !0x01ff_ffffu32 == 0 && 0x0002_0000u32 & !0x01ff_ffffu32 == 0)
            by (bit_vector);
        lemma_reset_done(old(bus)@.reg(RESETS_RESET), bits);
    }
    while !bus.load(RESETS_RESET_DONE) & bits != 0
        invariant
            bus@.wf(),
            bits == reset_bits(spi),
            bus@ == clear_bits_at(old(bus)@, RESETS_RESET, bits),
            !(!(old(bus)@.reg(RESETS_RESET) & !bits) & RESETS_ALL_BITS) & bits == 0,
        decreases 0nat,
    {
    }
}

/// Sets the clock of `spi` as close to `baudrate` as the divisors allow, and
/// returns the rate it runs at.
pub fn spi_set_baudrate(bus: &mut Bus, spi: SpiInstance, baudrate: u32) -> (r: u32)
    requires
        old(bus)@.wf(),
        baud_in_range(baudrate as int),
    ensures
        r == actual_baud(baudrate as int),
        2 <= prescale_for(baudrate as int) <= 254,
        1 <= postdiv_for(baudrate as int) <= 256,
        final(bus)@.wf(),
        final(bus)@ == baud_state(old(bus)@, spi, baudrate as int),
{
    proof {
        lemma_spi_regs(spi);
    }
    let (prescale, postdiv) = baud_divisors(baudrate);
    let base = spi.base();
    bus.store(base + SPI_SSPCPSR_OFFSET, prescale);
    hw_write_masked(
        bus,
        base + SPI_SSPCR0_OFFSET,
        (postdiv - 1) << SPI_SSPCR0_SCR_LSB,
        SPI_SSPCR0_SCR_BITS,
    );
    assert(1 <= prescale * postdiv <= 254 * 256) by (nonlinear_arith)
        requires
            2 <= prescale <= 254,
            1 <= postdiv <= 256,
    ;
    CLK_PERI_HZ / (prescale * postdiv)
}

/// Sets the frame format of `spi`: `data_bits` per frame (4 to 16), clock
/// polarity and phase. Only most-significant-bit-first is supported, so
/// `_order` changes nothing.
pub fn spi_set_format(
    bus: &mut Bus,
    spi: SpiInstance,
    data_bits: u32,
    cpol: SpiCpol,
    cpha: SpiCpha,
    _order: SpiOrder,
)
    requires
        old(bus)@.wf(),
        4 <= data_bits <= 16,
    ensures
        final(bus)@.wf(),
        final(bus)@ == format_state(old(bus)@, spi, data_bits, cpol, cpha),
{
    proof {
        lemma_spi_regs(spi);
    }
    let cpol_v: u32 = match cpol {
        SpiCpol::Cpol0 => 0,
        SpiCpol::Cpol1 => 1,
    };
    let cpha_v: u32 = match cpha {
        SpiCpha::Cpha0 => 0,
        SpiCpha::Cpha1 => 1,
    };
    let dss = data_bits - 1;
    assert(dss << 0u32 == dss) by (bit_vector);
    hw_write_masked(
        bus,
        spi.base() + SPI_SSPCR0_OFFSET,
        dss << SPI_SSPCR0_DSS_LSB | cpol_v << SPI_SSPCR0_SPO_LSB | cpha_v << SPI_SSPCR0_SPH_LSB,
        SPI_SSPCR0_DSS_BITS | SPI_SSPCR0_SPO_BITS | SPI_SSPCR0_SPH_BITS,
    );
}

/// Makes `spi` a slave (`slave`) or the master.
pub fn spi_set_slave(bus: &mut Bus, spi: SpiInstance, slave: bool)
    requires
        old(bus)@.wf(),
    ensures
        final(bus)@.wf(),
        final(bus)@ == (if slave {
            set_bits_at(old(bus)@, spi_reg(spi, SPI_SSPCR1_OFFSET), SPI_SSPCR1_MS_BITS)
        } else {
            clear_bits_at(old(bus)@, spi_reg(spi, SPI_SSPCR1_OFFSET), SPI_SSPCR1_MS_BITS)
        }),
{
    proof {
        lemma_spi_regs(spi);
    }
    if slave {
        hw_set_bits(bus, spi.base() + SPI_SSPCR1_OFFSET, SPI_SSPCR1_MS_BITS);
    } else {
        hw_clear_bits(bus, spi.base() + SPI_SSPCR1_OFFSET, SPI_SSPCR1_MS_BITS);
    }
}

/// Whether the transmit FIFO of `spi` has room.
pub fn spi_is_writable(bus: &Bus, spi: SpiInstance) -> (r: bool)
    requires
        bus@.wf(),
    ensures
        r == ((bus@.loaded(spi_reg(spi, SPI_SSPSR_OFFSET)) & SPI_SSPSR_TNF_BITS) >> 1 != 0),
        r,
{
    let sr = bus.load(spi.base() + SPI_SSPSR_OFFSET);
    assert((3u32 & 2u32) >> 1u32 != 0) by (bit_vector);
    ((sr & SPI_SSPSR_TNF_BITS) >> SPI_SSPSR_TNF_LSB) != 0
}

/// Whether the receive FIFO of `spi` holds data.
pub fn spi_is_readable(bus: &Bus, spi: SpiInstance) -> (r: bool)
    requires
        bus@.wf(),
    ensures
        r == ((bus@.loaded(spi_reg(spi, SPI_SSPSR_OFFSET)) & SPI_SSPSR_RNE_BITS) >> 2 != 0),
        !r,
{
    let sr = bus.load(spi.base() + SPI_SSPSR_OFFSET);
    assert((3u32 & 4u32) >> 2u32 == 0) by (bit_vector);
    ((sr & SPI_SSPSR_RNE_BITS) >> SPI_SSPSR_RNE_LSB) != 0
}

/// Whether `spi` is still shifting data out.
fn spi_is_busy(bus: &Bus, spi: SpiInstance) -> (r: bool)
    requires
        bus@.wf(),
    ensures
        r == (bus@.loaded(spi_reg(spi, SPI_SSPSR_OFFSET)) & SPI_SSPSR_BSY_BITS != 0),
        !r,
{
    let sr = bus.load(spi.base() + SPI_SSPSR_OFFSET);
    assert((3u32 & 0x10u32) == 0) by (bit_vector);
    sr & SPI_SSPSR_BSY_BITS != 0
}

/// Resets `spi`, sets its clock for `baudrate`, 8-bit frames with clock
/// polarity and phase 0, and enables it. Returns the rate it runs at.
pub fn spi_init(bus: &mut Bus, spi: SpiInstance, baudrate: u32) -> (r: u32)
    requires
        old(bus)@.wf(),
        baud_in_range(baudrate as int),
    ensures
        r == actual_baud(baudrate as int),
        final(bus)@.wf(),
        final(bus)@ == init_state(old(bus)@, spi, baudrate as int),
{
    proof {
        lemma_spi_regs(spi);
    }
    spi_reset(bus, spi);
    spi_unreset(bus, spi);
    let baud = spi_set_baudrate(bus, spi, baudrate);
    spi_set_format(bus, spi, 8, SpiCpol::Cpol0, SpiCpha::Cpha0, SpiOrder::MsbFirst);
    hw_set_bits(
        bus,
        spi.base() + SPI_SSPDMACR_OFFSET,
        SPI_SSPDMACR_TXDMAE_BITS | SPI_SSPDMACR_RXDMAE_BITS,
    );
    hw_set_bits(bus, spi.base() + SPI_SSPCR1_OFFSET, SPI_SSPCR1_SSE_BITS);
    proof {
        let b = old(bus)@;
        let d = (postdiv_for(baudrate as int) - 1) as u32;
        lemma_init_bits(
            b.reg(RESETS_RESET),
            reset_bits(spi),
            b.reg(spi_reg(spi, SPI_SSPCR0_OFFSET)),
            d,
        );
        assert(format_bits(8, SpiCpol::Cpol0, SpiCpha::Cpha0) == 7) by (bit_vector);
        let t = init_state(b, spi, baudrate as int);
        assert(bus@.reg(spi_reg(spi, SPI_SSPCR0_OFFSET)) == t.reg(spi_reg(spi, SPI_SSPCR0_OFFSET)));
        assert(bus@.regs =~= t.regs);
    }
    baud
}

/// Setting then clearing reset bits clears them; the clock-rate write and the
/// frame-format write of CR0 touch separate fields.
proof fn lemma_init_bits(reset: u32, bits: u32, cr0: u32, d: u32)
    by (bit_vector)
    requires
        d < 256,
    ensures
        (reset | bits) & !bits == reset & !bits,
        (((((cr0 & !0xff00u32) | ((d << 8) & 0xff00u32)) & !(0x0fu32 | 0x40u32 | 0x80u32)) | (7u32
            & (0x0fu32 | 0x40u32 | 0x80u32)))) == (cr0 & !(0xff00u32 | 0x0fu32 | 0x40u32 | 0x80u32))
            | (((d << 8) | 7u32) & (0xff00u32 | 0x0fu32 | 0x40u32 | 0x80u32)),
{
}

/// Disables `spi`, turns off its DMA requests, and holds it in reset.
pub fn spi_deinit(bus: &mut Bus, spi: SpiInstance)
    requires
        old(bus)@.wf(),
    ensures
        final(bus)@.wf(),
        final(bus)@ == deinit_state(old(bus)@, spi),
{
    proof {
        lemma_spi_regs(spi);
    }
    hw_clear_bits(bus, spi.base() + SPI_SSPCR1_OFFSET, SPI_SSPCR1_SSE_BITS);
    hw_clear_bits(
        bus,
        spi.base() + SPI_SSPDMACR_OFFSET,
        SPI_SSPDMACR_TXDMAE_BITS | SPI_SSPDMACR_RXDMAE_BITS,
    );
    spi_reset(bus, spi);
}

/// Sends the bytes of `src` on `spi`, each once the transmit FIFO has room,
/// then drains the receive FIFO, waits while the instance is busy, and clears
/// the receive-overrun flag. Returns the number of bytes sent. The bus's FIFO
/// always has room and never holds received data, so each wait ends at its
/// first check.
pub fn spi_write_blocking(bus: &mut Bus, spi: SpiInstance, src: &[u8]) -> (r: usize)
    requires
        old(bus)@.wf(),
    ensures
        r == src@.len(),
        final(bus)@.wf(),
        final(bus)@ == write_state(old(bus)@, spi, src@),
{
    proof {
        lemma_spi_regs(spi);
        lemma_block_reg(spi_base(spi), SPI_SSPDR_OFFSET);
        lemma_block_reg(spi_base(spi), SPI_SSPSR_OFFSET);
    }
    let base = spi.base();
    let mut i: usize = 0;
    while i < src.len()
        invariant
            i <= src@.len(),
            base == spi_base(spi),
            bus@.wf(),
            bus@ == sent(old(bus)@, spi, src@.take(i as int)),
        decreases src@.len() - i,
    {
        while !spi_is_writable(bus, spi)
            invariant
                bus@.wf(),
            decreases 0nat,
        {
        }
        bus.store(base + SPI_SSPDR_OFFSET, src[i] as u32);
        assert(src@.take(i as int + 1) =~= src@.take(i as int).push(src@[i as int]));
        i = i + 1;
    }
    assert(src@.take(i as int) =~= src@);
    while spi_is_readable(bus, spi)
        invariant
            bus@.wf(),
        decreases 0nat,
    {
        bus.load(base + SPI_SSPDR_OFFSET);
    }
    while spi_is_busy(bus, spi)
        invariant
            bus@.wf(),
        decreases 0nat,
    {
    }
    while spi_is_readable(bus, spi)
        invariant
            bus@.wf(),
        decreases 0nat,
    {
        bus.load(base + SPI_SSPDR_OFFSET);
    }
    bus.store(base + SPI_SSPICR_OFFSET, SPI_SSPICR_RORIC_BITS);
    src.len()
}

/// An open SPI instance; `close` gives it back.
pub struct SPI {
    hw: SpiInstance,
}

impl SPI {
    /// The instance this handle owns.
    pub closed spec fn instance(&self) -> SpiInstance {
        self.hw
    }

    /// Opens SPI0 at `baudrate`.
    pub fn spi0(bus: &mut Bus, baudrate: u32) -> (r: SPI)
        requires
            old(bus)@.wf(),
            baud_in_range(baudrate as int),
        ensures
            r.instance() == SpiInstance::Spi0,
            final(bus)@.wf(),
            final(bus)@ == init_state(old(bus)@, SpiInstance::Spi0, baudrate as int),
    {
        let mut s = SPI { hw: SpiInstance::Spi0 };
        s.init(bus, baudrate);
        s
    }

    /// Opens SPI1 at `baudrate`.
    pub fn spi1(bus: &mut Bus, baudrate: u32) -> (r: SPI)
        requires
            old(bus)@.wf(),
            baud_in_range(baudrate as int),
        ensures
            r.instance() == SpiInstance::Spi1,
            final(bus)@.wf(),
            final(bus)@ == init_state(old(bus)@, SpiInstance::Spi1, baudrate as int),
    {
        let mut s = SPI { hw: SpiInstance::Spi1 };
        s.init(bus, baudrate);
        s
    }

    fn init(&mut self, bus: &mut Bus, baudrate: u32)
        requires
            old(bus)@.wf(),
            baud_in_range(baudrate as int),
        ensures
            *final(self) == *old(self),
            final(bus)@.wf(),
            final(bus)@ == init_state(old(bus)@, old(self).hw, baudrate as int),
    {
        spi_init(bus, self.hw, baudrate);
    }

    /// Sets the clock as close to `baudrate` as the divisors allow.
    pub fn set_baudrate(&mut self, bus: &mut Bus, baudrate: u32)
        requires
            old(bus)@.wf(),
            baud_in_range(baudrate as int),
        ensures
            final(self).instance() == old(self).instance(),
            final(bus)@.wf(),
            final(bus)@ == baud_state(old(bus)@, old(self).instance(), baudrate as int),
    {
        spi_set_baudrate(bus, self.hw, baudrate);
    }

    /// Sends `words`, returning once the FIFO has taken the last byte.
    pub fn write(&mut self, bus: &mut Bus, words: &[u8])
        requires
            old(bus)@.wf(),
        ensures
            final(self).instance() == old(self).instance(),
            final(bus)@.wf(),
            final(bus)@ == write_state(old(bus)@, old(self).instance(), words@),
    {
        spi_write_blocking(bus, self.hw, words);
    }

    /// Disables the instance and holds it in reset. Taking the handle by value
    /// makes this happen once.
    pub fn close(self, bus: &mut Bus)
        requires
            old(bus)@.wf(),
        ensures
            final(bus)@.wf(),
            final(bus)@ == deinit_state(old(bus)@, self.instance()),
    {
        spi_deinit(bus, self.hw);
    }
}

} // verus!
