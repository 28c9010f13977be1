use rpi_pico_sdk::regs::{Bus, RESETS_RESET, RESETS_RESET_DONE, SPI0_BASE, SPI1_BASE};
use rpi_pico_sdk::spi::{
    spi_get_hw, spi_get_index, spi_init, spi_is_readable, spi_is_writable, spi_set_baudrate,
    spi_set_format, spi_set_slave, spi_write_blocking, SpiCpha, SpiCpol, SpiInstance, SpiOrder,
    SPI,
};

const CR0: u32 = 0x00;
const CR1: u32 = 0x04;
const CPSR: u32 = 0x10;
const ICR: u32 = 0x20;
const DMACR: u32 = 0x24;

#[test]
fn init_at_four_megahertz() {
    let mut bus = Bus::new();
    bus.store(RESETS_RESET, 0x01ff_ffff);
    let baud = spi_init(&mut bus, SpiInstance::Spi0, 4_000_000);
    assert_eq!(baud, 3_906_250);
    assert_eq!(bus.load(SPI0_BASE + CPSR), 2);
    assert_eq!(bus.load(SPI0_BASE + CR0), 0x0f07);
    assert_eq!(bus.load(SPI0_BASE + CR1), 0x02);
    assert_eq!(bus.load(SPI0_BASE + DMACR), 0x03);
    assert_eq!(bus.load(RESETS_RESET), 0x01fe_ffff);
    assert_eq!(bus.load(RESETS_RESET_DONE) & 0x0001_0000, 0x0001_0000);
}

#[test]
fn baudrate_picks_prescale_and_postdiv() {
    let mut bus = Bus::new();
    assert_eq!(spi_set_baudrate(&mut bus, SpiInstance::Spi1, 1_000_000), 992_063);
    assert_eq!(bus.load(SPI1_BASE + CPSR), 2);
    assert_eq!(bus.load(SPI1_BASE + CR0), 62 << 8);
    assert_eq!(spi_set_baudrate(&mut bus, SpiInstance::Spi1, 10_000), 10_172);
    assert_eq!(bus.load(SPI1_BASE + CPSR), 48);
    assert_eq!(bus.load(SPI1_BASE + CR0), 0xff << 8);
    assert_eq!(spi_set_baudrate(&mut bus, SpiInstance::Spi1, 100_000_000), 62_500_000);
    assert_eq!(bus.load(SPI1_BASE + CR0), 0);
}

#[test]
fn format_and_slave_bits() {
    let mut bus = Bus::new();
    bus.store(SPI0_BASE + CR0, 0x3300);
    spi_set_format(&mut bus, SpiInstance::Spi0, 16, SpiCpol::Cpol1, SpiCpha::Cpha1, SpiOrder::MsbFirst);
    assert_eq!(bus.load(SPI0_BASE + CR0), 0x33cf);
    spi_set_format(&mut bus, SpiInstance::Spi0, 4, SpiCpol::Cpol0, SpiCpha::Cpha1, SpiOrder::MsbFirst);
    assert_eq!(bus.load(SPI0_BASE + CR0), 0x3383);
    spi_set_slave(&mut bus, SpiInstance::Spi0, true);
    assert_eq!(bus.load(SPI0_BASE + CR1), 0x04);
    spi_set_slave(&mut bus, SpiInstance::Spi0, false);
    assert_eq!(bus.load(SPI0_BASE + CR1), 0);
}

#[test]
fn status_and_index() {
    let bus = Bus::new();
    assert!(spi_is_writable(&bus, SpiInstance::Spi0));
    assert!(!spi_is_readable(&bus, SpiInstance::Spi1));
    assert_eq!(spi_get_index(SpiInstance::Spi0), 0);
    assert_eq!(spi_get_index(SpiInstance::Spi1), 1);
    assert_eq!(spi_get_hw(SpiInstance::Spi1), SPI1_BASE);
}

#[test]
fn blocking_write_sends_every_byte() {
    let mut bus = Bus::new();
    let n = spi_write_blocking(&mut bus, SpiInstance::Spi1, &[1, 2, 3, 0xff]);
    assert_eq!(n, 4);
    assert_eq!(bus.spi_sent(1), &vec![1, 2, 3, 0xff]);
    assert!(bus.spi_sent(0).is_empty());
    assert_eq!(bus.load(SPI1_BASE + ICR), 1);
    assert_eq!(spi_write_blocking(&mut bus, SpiInstance::Spi1, &[]), 0);
    assert_eq!(bus.spi_sent(1).len(), 4);
}

#[test]
fn handle_opens_writes_and_closes() {
    let mut bus = Bus::new();
    let mut spi = SPI::spi0(&mut bus, 4_000_000);
    spi.write(&mut bus, b"abc");
    spi.set_baudrate(&mut bus, 1_000_000);
    assert_eq!(bus.load(SPI0_BASE + CR0), (62 << 8) | 0x07);
    spi.write(&mut bus, b"d");
    assert_eq!(bus.spi_sent(0), &b"abcd".to_vec());
    spi.close(&mut bus);
    assert_eq!(bus.load(SPI0_BASE + CR1), 0);
    assert_eq!(bus.load(SPI0_BASE + DMACR), 0);
    assert_eq!(bus.load(RESETS_RESET), 0x0001_0000);
    let other = SPI::spi1(&mut bus, 2_000_000);
    assert_eq!(bus.load(SPI1_BASE + CR1), 0x02);
    other.close(&mut bus);
}
