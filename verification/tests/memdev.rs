//! Tests for the memory subsystem: the address decoder's totality, the bios
//! overlay and its one-way latch, working-ram mirroring, MBC1 bank selection
//! and mode multiplexing, and the read-only wrapper.

use gbmem::Addr;
use gbmem::BiosRom;
use gbmem::Cartridge;
use gbmem::GbMmu;
use gbmem::Mbc1Rom;
use gbmem::MemDevice;
use gbmem::MemMappedIo;
use gbmem::NullRom;
use gbmem::ReadOnly;

/// 128 ROM banks of 16 KiB; byte 0 of each bank holds the bank number and
/// byte 1 holds its complement, so banks are distinguishable.
fn make_rom_banks() -> Vec<Vec<u8>> {
    let mut banks = Vec::new();
    for b in 0..128u32 {
        let mut bank = vec![0u8; 0x4000];
        bank[0] = b as u8;
        bank[1] = !(b as u8);
        banks.push(bank);
    }
    banks
}

fn make_bios() -> [u8; 0x100] {
    let mut bios = [0u8; 0x100];
    for (i, byte) in bios.iter_mut().enumerate() {
        *byte = (0x30 + i % 16) as u8;
    }
    bios
}

fn make_mmu(has_ram: bool) -> GbMmu {
    let bios = BiosRom::new(make_bios());
    let cart = Cartridge::Mbc1(Box::new(Mbc1Rom::new(make_rom_banks(), has_ram)));
    GbMmu::new(bios, cart)
}

#[test]
fn read_is_total_over_the_address_space() {
    let mmu = make_mmu(true);
    for raw in 0..=0xffffu16 {
        // Every raw address must yield a byte without any fatal failure.
        let _ = mmu.read(Addr::from(raw));
    }
}

#[test]
fn write_is_total_over_the_address_space() {
    let mut mmu = make_mmu(true);
    for raw in 0..=0xffffu16 {
        mmu.write(Addr::from(raw), 0x5a);
    }
}

#[test]
fn bios_overlay_reads_bios_until_disabled() {
    let mut mmu = make_mmu(false);
    let bios = make_bios();
    for raw in 0..=0xffu16 {
        assert_eq!(mmu.read(Addr::from(raw)), bios[raw as usize]);
    }
    // Bit 0 clear: the latch does not trip.
    mmu.write(Addr::from(0xff50u16), 0x00);
    assert_eq!(mmu.read(Addr::from(0xff50u16)), 1);
    assert_eq!(mmu.read(Addr::from(0x0000u16)), bios[0]);
    // Bit 0 set: the bios is disabled and reads show cartridge rom bank 0.
    mmu.write(Addr::from(0xff50u16), 0x01);
    assert_eq!(mmu.read(Addr::from(0xff50u16)), 0);
    assert_eq!(mmu.read(Addr::from(0x0000u16)), 0);
    assert_eq!(mmu.read(Addr::from(0x0001u16)), 0xff);
}

#[test]
fn bios_latch_cannot_be_reversed() {
    let mut mmu = make_mmu(false);
    mmu.write(Addr::from(0xff50u16), 0xff);
    assert_eq!(mmu.read(Addr::from(0xff50u16)), 0);
    // No subsequent write anywhere re-enables the bios.
    mmu.write(Addr::from(0xff50u16), 0x00);
    mmu.write(Addr::from(0xff50u16), 0x01);
    for raw in [0x0000u16, 0x2000, 0xc000, 0xff00, 0xff50, 0xfffe] {
        mmu.write(Addr::from(raw), 0x00);
    }
    assert_eq!(mmu.read(Addr::from(0xff50u16)), 0);
    assert_eq!(mmu.read(Addr::from(0x0001u16)), 0xff);
}

#[test]
fn wram_mirror_round_trips_both_ways() {
    let mut mmu = make_mmu(false);
    mmu.write(Addr::from(0xc010u16), 0xab);
    assert_eq!(mmu.read(Addr::from(0xe010u16)), 0xab);
    assert_eq!(mmu.read(Addr::from(0xc010u16)), 0xab);
    mmu.write(Addr::from(0xe020u16), 0xcd);
    assert_eq!(mmu.read(Addr::from(0xc020u16)), 0xcd);
    assert_eq!(mmu.read(Addr::from(0xe020u16)), 0xcd);
}

#[test]
fn rom_bank_zero_select_raises_to_one() {
    let mut mmu = make_mmu(false);
    mmu.write(Addr::from(0xff50u16), 0x01);
    // Selecting bank 0 silently raises to bank 1.
    mmu.write(Addr::from(0x2000u16), 0x00);
    assert_eq!(mmu.read(Addr::from(0x4000u16)), 1);
    assert_eq!(mmu.read(Addr::from(0x4001u16)), !1u8);
}

#[test]
fn rom_bank_select_five_reads_bank_five() {
    let mut mmu = make_mmu(false);
    mmu.write(Addr::from(0x2000u16), 0x05);
    assert_eq!(mmu.read(Addr::from(0x4000u16)), 5);
    assert_eq!(mmu.read(Addr::from(0x4001u16)), !5u8);
    // The fixed window still shows bank 0.
    assert_eq!(mmu.read(Addr::from(0x3fffu16)), 0);
}

#[test]
fn ram_enable_has_no_effect_without_ram() {
    let mut cart = Mbc1Rom::new(make_rom_banks(), false);
    // Attempt to enable ram and write into the ram window.
    cart.write(Addr::from(0x0000u16), 0x0a);
    cart.write(Addr::from(0x8000u16), 0x42);
    for rel in [0x8000u16, 0x8001, 0x9fff] {
        assert_eq!(cart.read(Addr::from(rel)), 0);
    }
}

#[test]
fn ram_reads_zero_while_disabled() {
    let mut cart = Mbc1Rom::new(make_rom_banks(), true);
    cart.write(Addr::from(0x0000u16), 0x0a);
    cart.write(Addr::from(0x8010u16), 0x42);
    assert_eq!(cart.read(Addr::from(0x8010u16)), 0x42);
    // Disabling ram makes reads return 0 again without erasing the data.
    cart.write(Addr::from(0x0000u16), 0x00);
    assert_eq!(cart.read(Addr::from(0x8010u16)), 0);
    cart.write(Addr::from(0x0000u16), 0x0a);
    assert_eq!(cart.read(Addr::from(0x8010u16)), 0x42);
}

#[test]
fn mode_multiplexing_splits_the_bank_set() {
    let mut cart = Mbc1Rom::new(make_rom_banks(), true);
    cart.write(Addr::from(0x0000u16), 0x0a);  // enable ram
    cart.write(Addr::from(0x4000u16), 0x02);  // bank_set = 2
    cart.write(Addr::from(0x2000u16), 0x01);  // rom_bank = 1
    // In rom mode the bank set feeds the rom bank's high bits and ram
    // access is forced to bank 0.
    assert_eq!(cart.read(Addr::from(0x4000u16)), 65);
    cart.write(Addr::from(0x8000u16), 0x11);
    // In ram mode the rom bank's high bits are forced to 0 and the bank
    // set selects ram bank 2.
    cart.write(Addr::from(0x6000u16), 0x01);
    assert_eq!(cart.read(Addr::from(0x4000u16)), 1);
    assert_eq!(cart.read(Addr::from(0x8000u16)), 0);
    cart.write(Addr::from(0x8000u16), 0x22);
    assert_eq!(cart.read(Addr::from(0x8000u16)), 0x22);
    // Back in rom mode, ram bank 0 shows the first byte again.
    cart.write(Addr::from(0x6000u16), 0x00);
    assert_eq!(cart.read(Addr::from(0x8000u16)), 0x11);
}

#[test]
fn cartridge_ram_window_maps_through_the_decoder() {
    let mut mmu = make_mmu(true);
    // While the bios overlays 0x0000..0x0100, the ram-enable range is still
    // reachable above the overlay.
    mmu.write(Addr::from(0x0100u16), 0x0a);
    mmu.write(Addr::from(0xa000u16), 0x42);
    assert_eq!(mmu.read(Addr::from(0xa000u16)), 0x42);
}

#[test]
fn bios_construction_rejects_wrong_sizes() {
    let short = vec![0u8; 255];
    let err = BiosRom::try_from_slice(&short).unwrap_err();
    assert_eq!(err.0, 255);
    let long = vec![0u8; 257];
    let err = BiosRom::try_from_slice(&long).unwrap_err();
    assert_eq!(err.0, 257);
}

#[test]
fn bios_construction_round_trips_contents() {
    let data = make_bios();
    let bios = BiosRom::try_from_slice(data.as_slice()).unwrap();
    for i in 0..0x100u16 {
        assert_eq!(bios.read(Addr::from(i)), data[i as usize]);
    }
}

#[test]
fn read_only_wrapper_drops_writes() {
    let mut dev: ReadOnly<Vec<u8>> = ReadOnly::new(vec![7u8, 8, 9]);
    for val in [0u8, 1, 0xff] {
        dev.write(Addr::from(1u16), val);
        assert_eq!(dev.read(Addr::from(1u16)), 8);
    }
    assert_eq!(dev.read(Addr::from(0u16)), 7);
    assert_eq!(dev.read(Addr::from(2u16)), 9);
    let inner = dev.into_inner();
    assert_eq!(inner, vec![7u8, 8, 9]);
}

#[test]
fn empty_cartridge_reads_zero_and_ignores_writes() {
    let mut mmu = GbMmu::new(BiosRom::new(make_bios()), Cartridge::Empty);
    mmu.write(Addr::from(0xff50u16), 0x01);
    mmu.write(Addr::from(0x2000u16), 0x05);
    mmu.write(Addr::from(0xa010u16), 0x42);
    assert_eq!(mmu.read(Addr::from(0x0000u16)), 0);
    assert_eq!(mmu.read(Addr::from(0x4000u16)), 0);
    assert_eq!(mmu.read(Addr::from(0xa010u16)), 0);
}

#[test]
fn io_block_stubs_read_pulled_high() {
    let mut io = MemMappedIo::new();
    assert!(io.bios_enabled());
    for rel in [0x00u16, 0x4f, 0x51, 0x7f] {
        assert_eq!(io.read(Addr::from(rel)), 0xff);
        io.write(Addr::from(rel), 0x01);
        assert_eq!(io.read(Addr::from(rel)), 0xff);
    }
    assert_eq!(io.read(Addr::from(0x50u16)), 1);
    io.write(Addr::from(0x50u16), 0x01);
    assert!(!io.bios_enabled());
    assert_eq!(io.read(Addr::from(0x50u16)), 0);
}

#[test]
fn unmapped_regions_read_zero() {
    let mut mmu = make_mmu(false);
    for raw in [0xfea0u16, 0xfeff, 0xffff] {
        mmu.write(Addr::from(raw), 0x5a);
        assert_eq!(mmu.read(Addr::from(raw)), 0);
    }
}

#[test]
fn null_rom_reads_zero_and_discards_writes() {
    let mut null: NullRom<0x10> = NullRom;
    assert_eq!(null.read(Addr::from(5u16)), 0);
    null.write(Addr::from(5u16), 9);
    assert_eq!(null.read(Addr::from(5u16)), 0);
}

#[test]
fn default_mmu_is_empty_with_bios_enabled() {
    let mut mmu = GbMmu::default();
    // Zeroed bios overlays the start of the space.
    assert_eq!(mmu.read(Addr::from(0x0010u16)), 0);
    assert_eq!(mmu.read(Addr::from(0xff50u16)), 1);
    mmu.write(Addr::from(0xff50u16), 0x01);
    assert_eq!(mmu.read(Addr::from(0xff50u16)), 0);
    // With no cartridge, rom reads return 0.
    assert_eq!(mmu.read(Addr::from(0x4000u16)), 0);
}

#[test]
fn addr_offsets_preserve_raw() {
    let a = Addr::from(0xc010u16);
    assert_eq!(a.raw(), 0xc010);
    assert_eq!(a.relative(), 0xc010);
    assert_eq!(a.offset(), 0);
    let b = a.offset_by(0xc000);
    assert_eq!(b.raw(), 0xc010);
    assert_eq!(b.relative(), 0x10);
    assert_eq!(b.index(), 0x10);
    assert_eq!(b.offset(), 0xc000);
}

#[test]
fn decoder_routes_each_region_to_its_device() {
    let mut mmu = make_mmu(false);
    mmu.write(Addr::from(0x8123u16), 0x11);  // vram
    mmu.write(Addr::from(0xfe10u16), 0x22);  // oam
    mmu.write(Addr::from(0xff90u16), 0x33);  // high ram
    assert_eq!(mmu.read(Addr::from(0x8123u16)), 0x11);
    assert_eq!(mmu.read(Addr::from(0xfe10u16)), 0x22);
    assert_eq!(mmu.read(Addr::from(0xff90u16)), 0x33);
    // Writes land only in their own region.
    assert_eq!(mmu.read(Addr::from(0x9123u16)), 0);
    assert_eq!(mmu.read(Addr::from(0xfe11u16)), 0);
    assert_eq!(mmu.read(Addr::from(0xff91u16)), 0);
}
