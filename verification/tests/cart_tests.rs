use gameboy_core::cart::{Cartridge, MBCType, RomError};

fn blank_image(banks: usize, kind: u8, rom_code: u8, ram_code: u8) -> Vec<u8> {
    let mut image = vec![0u8; banks * 0x4000];
    image[0x147] = kind;
    image[0x148] = rom_code;
    image[0x149] = ram_code;
    image
}

fn banked_image(banks: usize, ram_code: u8) -> Vec<u8> {
    let code = match banks {
        2 => 0,
        4 => 1,
        8 => 2,
        16 => 3,
        32 => 4,
        64 => 5,
        _ => panic!("not a bank count"),
    };
    let mut image = blank_image(banks, 1, code, ram_code);
    for b in 0..banks {
        image[b * 0x4000 + 0x10] = b as u8;
    }
    image
}

#[test]
fn from_header_maps_known_bytes() {
    assert_eq!(MBCType::from_header(0), MBCType::MBC0);
    assert_eq!(MBCType::from_header(1), MBCType::MBC1);
    assert_eq!(MBCType::from_header(3), MBCType::MBC1);
}

#[test]
fn empty_slot_reads_ff() {
    let cart = Cartridge::new();
    assert_eq!(cart.peek(0x0000), 0xFF);
    assert_eq!(cart.peek(0x7FFF), 0xFF);
    assert_eq!(cart.peek(0xA000), 0xFF);
}

#[test]
fn load_rom_rejects_short_image() {
    let mut cart = Cartridge::new();
    assert_eq!(cart.load_rom(&[0u8; 0x149]), Err(RomError::Truncated));
}

#[test]
fn load_rom_rejects_unknown_controller() {
    let mut cart = Cartridge::new();
    let image = blank_image(2, 5, 0, 0);
    assert_eq!(cart.load_rom(&image), Err(RomError::UnknownController(5)));
}

#[test]
fn load_rom_rejects_rom_size_code() {
    let mut cart = Cartridge::new();
    let image = blank_image(2, 0, 9, 0);
    assert_eq!(cart.load_rom(&image), Err(RomError::RomSizeCode(9)));
}

#[test]
fn load_rom_rejects_ram_size_code() {
    let mut cart = Cartridge::new();
    let image = blank_image(2, 0, 0, 1);
    assert_eq!(cart.load_rom(&image), Err(RomError::RamSizeCode(1)));
}

#[test]
fn load_rom_rejects_banks_beyond_the_controller() {
    let mut cart = Cartridge::new();
    assert_eq!(cart.load_rom(&blank_image(4, 0, 1, 0)), Err(RomError::Unaddressable));
    assert_eq!(cart.load_rom(&blank_image(2, 0, 0, 2)), Err(RomError::Unaddressable));
    assert_eq!(cart.load_rom(&blank_image(2, 1, 0, 4)), Err(RomError::Unaddressable));
    assert_eq!(cart.load_rom(&blank_image(2, 1, 0, 5)), Err(RomError::Unaddressable));
}

#[test]
fn load_rom_rejects_wrong_length() {
    let mut cart = Cartridge::new();
    let image = blank_image(2, 1, 1, 0);
    assert_eq!(cart.load_rom(&image), Err(RomError::Length));
    let mut long = blank_image(2, 0, 0, 0);
    long.push(0);
    assert_eq!(cart.load_rom(&long), Err(RomError::Length));
}

#[test]
fn refused_image_leaves_cartridge_alone() {
    let mut cart = Cartridge::new();
    let mut image = blank_image(2, 0, 0, 0);
    image[0] = 0x77;
    assert_eq!(cart.load_rom(&image), Ok(()));
    assert_eq!(cart.load_rom(&blank_image(2, 9, 0, 0)), Err(RomError::UnknownController(9)));
    assert_eq!(cart.peek(0), 0x77);
}

#[test]
fn load_rom_accepts_plain_32k() {
    let mut cart = Cartridge::new();
    let mut image = blank_image(2, 0, 0, 0);
    image[0] = 0x12;
    image[0x3FFF] = 0x56;
    image[0x4000] = 0x34;
    image[0x7FFF] = 0x78;
    assert_eq!(cart.load_rom(&image), Ok(()));
    assert_eq!(cart.mbc, MBCType::MBC0);
    assert_eq!(cart.rom.len(), 2);
    assert_eq!(cart.exram.len(), 0);
    assert_eq!(cart.peek(0x0000), 0x12);
    assert_eq!(cart.peek(0x3FFF), 0x56);
    assert_eq!(cart.peek(0x4000), 0x34);
    assert_eq!(cart.peek(0x7FFF), 0x78);
    assert_eq!(cart.peek(0xA000), 0xFF);
}

#[test]
fn plain_cartridge_ignores_writes() {
    let mut cart = Cartridge::new();
    assert_eq!(cart.load_rom(&blank_image(2, 0, 0, 0)), Ok(()));
    cart.poke(0x2000, 1);
    cart.poke(0x0000, 0x0A);
    cart.poke(0xA000, 0x55);
    assert_eq!(cart.rom_bank, 0);
    assert!(!cart.exram_enable);
    assert_eq!(cart.peek(0xA000), 0xFF);
}

#[test]
fn ram_size_codes_give_bank_counts() {
    let mut cart = Cartridge::new();
    assert_eq!(cart.load_rom(&banked_image(4, 0)), Ok(()));
    assert_eq!(cart.exram.len(), 0);
    assert_eq!(cart.load_rom(&banked_image(4, 2)), Ok(()));
    assert_eq!(cart.exram.len(), 1);
    assert_eq!(cart.load_rom(&banked_image(4, 3)), Ok(()));
    assert_eq!(cart.exram.len(), 4);
}

#[test]
fn rom_bank_zero_selects_bank_one() {
    let mut cart = Cartridge::new();
    assert_eq!(cart.load_rom(&banked_image(8, 0)), Ok(()));
    assert_eq!(cart.peek(0x0010), 0);
    assert_eq!(cart.peek(0x4010), 1);
    cart.poke(0x2000, 5);
    assert_eq!(cart.peek(0x4010), 5);
    cart.poke(0x3FFF, 0xE3);
    assert_eq!(cart.rom_bank, 3);
    assert_eq!(cart.peek(0x4010), 3);
    cart.poke(0x2000, 0x20);
    assert_eq!(cart.rom_bank, 0);
    assert_eq!(cart.peek(0x4010), 1);
}

#[test]
fn absent_rom_bank_reads_ff() {
    let mut cart = Cartridge::new();
    assert_eq!(cart.load_rom(&banked_image(4, 0)), Ok(()));
    cart.poke(0x2000, 7);
    assert_eq!(cart.peek(0x4010), 0xFF);
}

#[test]
fn advanced_mode_moves_both_windows() {
    let mut cart = Cartridge::new();
    assert_eq!(cart.load_rom(&banked_image(64, 0)), Ok(()));
    cart.poke(0x4000, 1);
    cart.poke(0x2000, 2);
    assert_eq!(cart.peek(0x0010), 0);
    assert_eq!(cart.peek(0x4010), 2);
    cart.poke(0x6000, 1);
    assert!(cart.bank_mode);
    assert_eq!(cart.peek(0x0010), 32);
    assert_eq!(cart.peek(0x4010), 34);
    cart.poke(0x6000, 0);
    assert_eq!(cart.peek(0x0010), 0);
}

#[test]
fn external_ram_needs_enabling() {
    let mut cart = Cartridge::new();
    assert_eq!(cart.load_rom(&banked_image(4, 3)), Ok(()));
    cart.poke(0xA123, 0x42);
    assert_eq!(cart.peek(0xA123), 0xFF);
    cart.poke(0x0000, 0x0A);
    assert!(cart.exram_enable);
    assert_eq!(cart.peek(0xA123), 0x00);
    cart.poke(0xA123, 0x42);
    assert_eq!(cart.peek(0xA123), 0x42);
    cart.poke(0x4000, 2);
    assert_eq!(cart.peek(0xA123), 0x00);
    cart.poke(0xBFFF, 0x99);
    assert_eq!(cart.peek(0xBFFF), 0x99);
    cart.poke(0x4000, 0);
    assert_eq!(cart.peek(0xA123), 0x42);
    cart.poke(0x1FFF, 0x1B);
    assert!(!cart.exram_enable);
    assert_eq!(cart.peek(0xA123), 0xFF);
    cart.poke(0x0000, 0xFA);
    assert_eq!(cart.peek(0xA123), 0x42);
}

#[test]
fn absent_ram_bank_is_ignored() {
    let mut cart = Cartridge::new();
    assert_eq!(cart.load_rom(&banked_image(4, 2)), Ok(()));
    cart.poke(0x0000, 0x0A);
    cart.poke(0x4000, 3);
    cart.poke(0xA000, 0x11);
    assert_eq!(cart.peek(0xA000), 0xFF);
    cart.poke(0x4000, 0);
    assert_eq!(cart.peek(0xA000), 0x00);
}
