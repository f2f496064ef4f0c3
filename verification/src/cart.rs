//! Cartridge memory: ROM banks, optional external RAM, and the bank
//! controller that maps `0000..=7FFF` and `A000..=BFFF` onto them.

use vstd::prelude::*;

verus! {

/// Bytes in one ROM bank.
pub const ROM_BANK_SIZE: usize = 0x4000;

/// Bytes in one bank of external RAM.
pub const EXRAM_BANK_SIZE: usize = 0x2000;

/// Offset of the first header byte that is read, the controller type.
pub const HEADER_MBC: usize = 0x147;

/// Offset of the ROM size code.
pub const HEADER_ROM_SIZE: usize = 0x148;

/// Offset of the RAM size code.
pub const HEADER_RAM_SIZE: usize = 0x149;

/// The bank controllers that are understood.
#[derive(Debug, Clone, Copy, PartialEq, Eq, Structural)]
pub enum MBCType {
    /// Two fixed ROM banks, no external RAM.
    MBC0,
    /// Switchable ROM banks and up to four banks of external RAM.
    MBC1,
}

impl MBCType {
    /// Whether a header byte names a controller that is understood.
    pub open spec fn known(n: u8) -> bool {
        n == 0 || n == 1 || n == 3
    }

    /// The controller that a known header byte names.
    pub open spec fn of_header(n: u8) -> MBCType {
        if n == 0 {
            MBCType::MBC0
        } else {
            MBCType::MBC1
        }
    }

    /// Decodes the controller type byte of a cartridge header.
    pub fn from_header(n: u8) -> (t: MBCType)
        requires
            MBCType::known(n),
        ensures
            t == MBCType::of_header(n),
    {
        if n == 0 {
            MBCType::MBC0
        } else {
            MBCType::MBC1
        }
    }
}

/// Why a ROM image was refused.
#[derive(Debug, Clone, Copy, PartialEq, Eq, Structural)]
pub enum RomError {
    /// The image ends before the header does.
    Truncated,
    /// The controller type byte is none of 0, 1, 3.
    UnknownController(u8),
    /// The ROM size code is 9 or more.
    RomSizeCode(u8),
    /// The RAM size code is none of 0, 2, 3, 4, 5.
    RamSizeCode(u8),
    /// The header asks for banks that the controller cannot address.
    Unaddressable,
    /// The image is not as long as its header says.
    Length,
}

/// Number of ROM banks that a size code stands for.
pub open spec fn rom_banks_of(code: u8) -> int {
    if code == 0 {
        2
    } else if code == 1 {
        4
    } else if code == 2 {
        8
    } else if code == 3 {
        16
    } else if code == 4 {
        32
    } else if code == 5 {
        64
    } else if code == 6 {
        128
    } else if code == 7 {
        256
    } else {
        512
    }
}

/// Whether a RAM size code is one of those defined.
pub open spec fn ram_code_known(code: u8) -> bool {
    code == 0 || code == 2 || code == 3 || code == 4 || code == 5
}

/// Number of external RAM banks that a size code stands for.
pub open spec fn ram_banks_of(code: u8) -> int {
    if code == 2 {
        1
    } else if code == 3 {
        4
    } else if code == 4 {
        16
    } else if code == 5 {
        8
    } else {
        0
    }
}

/// The first reason, in header order, for which an image is refused.
pub open spec fn rom_fault(image: Seq<u8>) -> Option<RomError> {
    if image.len() <= HEADER_RAM_SIZE {
        Some(RomError::Truncated)
    } else if !MBCType::known(image[HEADER_MBC as int]) {
        Some(RomError::UnknownController(image[HEADER_MBC as int]))
    } else if image[HEADER_ROM_SIZE as int] >= 9 {
        Some(RomError::RomSizeCode(image[HEADER_ROM_SIZE as int]))
    } else if !ram_code_known(image[HEADER_RAM_SIZE as int]) {
        Some(RomError::RamSizeCode(image[HEADER_RAM_SIZE as int]))
    } else if MBCType::of_header(image[HEADER_MBC as int]) == MBCType::MBC0 && (rom_banks_of(
        image[HEADER_ROM_SIZE as int],
    ) != 2 || ram_banks_of(image[HEADER_RAM_SIZE as int]) != 0) {
        Some(RomError::Unaddressable)
    } else if MBCType::of_header(image[HEADER_MBC as int]) == MBCType::MBC1 && ram_banks_of(
        image[HEADER_RAM_SIZE as int],
    ) > 4 {
        Some(RomError::Unaddressable)
    } else if image.len() != ROM_BANK_SIZE * rom_banks_of(image[HEADER_ROM_SIZE as int]) {
        Some(RomError::Length)
    } else {
        None
    }
}

/// A cartridge: its memory and the state of its bank controller.
pub struct Cartridge {
    /// ROM, one entry per 16 KiB bank.
    pub rom: Vec<[u8; ROM_BANK_SIZE]>,
    /// Low five bits of the selected ROM bank; 0 selects bank 1.
    pub rom_bank: u8,
    /// External RAM, one entry per 8 KiB bank.
    pub exram: Vec<[u8; EXRAM_BANK_SIZE]>,
    /// Selected RAM bank, which is also the upper ROM bank bits.
    pub exram_bank: u8,
    /// Whether external RAM answers.
    pub exram_enable: bool,
    /// Advanced banking mode.
    pub bank_mode: bool,
    /// The controller on the cartridge.
    pub mbc: MBCType,
    /// Host flag: report bank switches.
    pub debug_bank_switch: bool,
}

/// The mathematical content of a cartridge.
#[verifier::ext_equal]
pub struct CartridgeView {
    pub rom: Seq<[u8; ROM_BANK_SIZE]>,
    pub rom_bank: u8,
    pub exram: Seq<[u8; EXRAM_BANK_SIZE]>,
    pub exram_bank: u8,
    pub exram_enable: bool,
    pub bank_mode: bool,
    pub mbc: MBCType,
    pub debug_bank_switch: bool,
}

impl View for Cartridge {
    type V = CartridgeView;

    open spec fn view(&self) -> CartridgeView {
        CartridgeView {
            rom: self.rom@,
            rom_bank: self.rom_bank,
            exram: self.exram@,
            exram_bank: self.exram_bank,
            exram_enable: self.exram_enable,
            bank_mode: self.bank_mode,
            mbc: self.mbc,
            debug_bank_switch: self.debug_bank_switch,
        }
    }
}

impl CartridgeView {
    /// An empty cartridge slot: no ROM, no RAM, the plain controller.
    pub open spec fn empty() -> CartridgeView {
        CartridgeView {
            rom: Seq::empty(),
            rom_bank: 0,
            exram: Seq::empty(),
            exram_bank: 0,
            exram_enable: false,
            bank_mode: false,
            mbc: MBCType::MBC0,
            debug_bank_switch: false,
        }
    }

    /// ROM bank seen through `0000..=3FFF`.
    pub open spec fn low_bank(self) -> int {
        if self.mbc == MBCType::MBC1 && self.bank_mode {
            self.exram_bank * 32
        } else {
            0
        }
    }

    /// ROM bank seen through `4000..=7FFF`.
    pub open spec fn high_bank(self) -> int {
        if self.mbc == MBCType::MBC0 {
            1
        } else if self.rom_bank == 0 {
            self.low_bank() + 1
        } else {
            self.low_bank() + self.rom_bank
        }
    }

    /// The byte at an offset of a ROM bank; `0xFF` where the bank is absent.
    pub open spec fn rom_byte(self, bank: int, offset: int) -> u8 {
        if 0 <= bank < self.rom.len() {
            self.rom[bank]@[offset]
        } else {
            0xFF
        }
    }

    /// Whether external RAM is present, switched on and the selected bank exists.
    pub open spec fn ram_ready(self) -> bool {
        self.mbc == MBCType::MBC1 && self.exram_enable && self.exram_bank < self.exram.len()
    }

    /// What a read at a mapped address returns.
    pub open spec fn peek(self, addr: u16) -> u8 {
        if addr <= 0x3FFF {
            self.rom_byte(self.low_bank(), addr as int)
        } else if addr <= 0x7FFF {
            self.rom_byte(self.high_bank(), addr - 0x4000)
        } else if self.ram_ready() {
            self.exram[self.exram_bank as int]@[addr - 0xA000]
        } else {
            0xFF
        }
    }

    /// The cartridge after a write at a mapped address.
    pub open spec fn poke(self, addr: u16, data: u8) -> CartridgeView {
        if addr <= 0x7FFF {
            if self.mbc == MBCType::MBC0 {
                self
            } else if addr <= 0x1FFF {
                CartridgeView { exram_enable: data % 16 == 0xA, ..self }
            } else if addr <= 0x3FFF {
                CartridgeView { rom_bank: data % 32, ..self }
            } else if addr <= 0x5FFF {
                CartridgeView { exram_bank: data % 4, ..self }
            } else {
                CartridgeView { bank_mode: data % 2 == 1, ..self }
            }
        } else if self.ram_ready() {
            CartridgeView {
                exram: self.exram.update(
                    self.exram_bank as int,
                    vstd::array::spec_array_update(
                        self.exram[self.exram_bank as int],
                        addr - 0xA000,
                        data,
                    ),
                ),
                ..self
            }
        } else {
            self
        }
    }
}

impl Cartridge {
    /// Whether the cartridge answers at this bus address.
    pub open spec fn maps(addr: u16) -> bool {
        addr <= 0x7FFF || (0xA000 <= addr && addr <= 0xBFFF)
    }

    /// A cartridge slot with nothing in it: every read returns `0xFF`.
    pub fn new() -> (cart: Cartridge)
        ensures
            cart@ == CartridgeView::empty(),
    {
        Cartridge {
            rom: Vec::new(),
            rom_bank: 0,
            exram: Vec::new(),
            exram_bank: 0,
            exram_enable: false,
            bank_mode: false,
            mbc: MBCType::MBC0,
            debug_bank_switch: false,
        }
    }

    /// Whether a cartridge holds exactly what a well-formed image describes:
    /// the image cut into ROM banks, zeroed external RAM of the size the
    /// header gives, and a controller in its reset state.
    pub open spec fn holds_image(cart: CartridgeView, image: Seq<u8>) -> bool {
        &&& cart.mbc == MBCType::of_header(image[HEADER_MBC as int])
        &&& cart.rom.len() == rom_banks_of(image[HEADER_ROM_SIZE as int])
        &&& forall|b: int, i: int|
            0 <= b < cart.rom.len() && 0 <= i < ROM_BANK_SIZE ==> #[trigger] cart.rom[b]@[i]
                == image[b * ROM_BANK_SIZE + i]
        &&& cart.exram.len() == ram_banks_of(image[HEADER_RAM_SIZE as int])
        &&& forall|b: int, i: int|
            0 <= b < cart.exram.len() && 0 <= i < EXRAM_BANK_SIZE ==> #[trigger] cart.exram[b]@[i]
                == 0
        &&& cart.rom_bank == 0
        &&& cart.exram_bank == 0
        &&& !cart.exram_enable
        &&& !cart.bank_mode
    }

    /// Replaces the cartridge by the one that `image` describes, or refuses
    /// the image and leaves the cartridge as it was.
    pub fn load_rom(&mut self, image: &[u8]) -> (r: Result<(), RomError>)
        ensures
            r is Ok <==> rom_fault(image@) is None,
            r matches Err(e) ==> rom_fault(image@) == Some(e) && final(self)@ == old(self)@,
            r is Ok ==> Cartridge::holds_image(final(self)@, image@),
            final(self)@.debug_bank_switch == old(self)@.debug_bank_switch,
    {
        if image.len() <= HEADER_RAM_SIZE {
            return Err(RomError::Truncated);
        }
        let kind: u8 = image[HEADER_MBC];
        let rom_code: u8 = image[HEADER_ROM_SIZE];
        let ram_code: u8 = image[HEADER_RAM_SIZE];
        if !(kind == 0 || kind == 1 || kind == 3) {
            return Err(RomError::UnknownController(kind));
        }
        if rom_code >= 9 {
            return Err(RomError::RomSizeCode(rom_code));
        }
        let ram_banks: usize = match ram_code {
            0 => 0,
            2 => 1,
            3 => 4,
            4 => 16,
            5 => 8,
            _ => {
                return Err(RomError::RamSizeCode(ram_code));
            },
        };
        let mbc = MBCType::from_header(kind);
        proof {
            crate::bits::lemma_bank_count(rom_code);
        }
        let rom_banks: usize = (2u32 << rom_code as u32) as usize;
        match mbc {
            MBCType::MBC0 => {
                if rom_banks != 2 || ram_banks != 0 {
                    return Err(RomError::Unaddressable);
                }
            },
            MBCType::MBC1 => {
                if ram_banks > 4 {
                    return Err(RomError::Unaddressable);
                }
            },
        }
        if image.len() != ROM_BANK_SIZE * rom_banks {
            return Err(RomError::Length);
        }
        let mut rom: Vec<[u8; ROM_BANK_SIZE]> = Vec::new();
        let mut b: usize = 0;
        while b < rom_banks
            invariant
                b <= rom_banks,
                rom_banks <= 512,
                image@.len() == ROM_BANK_SIZE * rom_banks,
                rom@.len() == b,
                forall|k: int, i: int|
                    0 <= k < b && 0 <= i < ROM_BANK_SIZE ==> #[trigger] rom@[k]@[i] == image@[k
                        * ROM_BANK_SIZE + i],
            decreases rom_banks - b,
        {
            let mut bank: [u8; ROM_BANK_SIZE] = [0u8; ROM_BANK_SIZE];
            let base: usize = b * ROM_BANK_SIZE;
            let mut i: usize = 0;
            while i < ROM_BANK_SIZE
                invariant
                    i <= ROM_BANK_SIZE,
                    b < rom_banks,
                    rom_banks <= 512,
                    base == b * ROM_BANK_SIZE,
                    image@.len() == ROM_BANK_SIZE * rom_banks,
                    forall|j: int| 0 <= j < i ==> #[trigger] bank@[j] == image@[base + j],
                decreases ROM_BANK_SIZE - i,
            {
                bank[i] = image[base + i];
                i += 1;
            }
            rom.push(bank);
            b += 1;
        }
        let mut exram: Vec<[u8; EXRAM_BANK_SIZE]> = Vec::new();
        let mut n: usize = 0;
        while n < ram_banks
            invariant
                n <= ram_banks,
                exram@.len() == n,
                forall|k: int, i: int|
                    0 <= k < n && 0 <= i < EXRAM_BANK_SIZE ==> #[trigger] exram@[k]@[i] == 0,
            decreases ram_banks - n,
        {
            exram.push([0u8; EXRAM_BANK_SIZE]);
            n += 1;
        }
        self.rom = rom;
        self.exram = exram;
        self.mbc = mbc;
        self.rom_bank = 0;
        self.exram_bank = 0;
        self.exram_enable = false;
        self.bank_mode = false;
        Ok(())
    }

    /// Reads the byte that the cartridge shows at `addr16`.
    pub fn peek(&self, addr16: u16) -> (data: u8)
        requires
            Cartridge::maps(addr16),
        ensures
            data == self@.peek(addr16),
    {
        let addr: usize = addr16 as usize;
        if addr16 <= 0x7FFF {
            let low: usize = match self.mbc {
                MBCType::MBC0 => 0,
                MBCType::MBC1 => if self.bank_mode {
                    self.exram_bank as usize * 32
                } else {
                    0
                },
            };
            if addr16 <= 0x3FFF {
                if low < self.rom.len() {
                    self.rom[low][addr]
                } else {
                    0xFF
                }
            } else {
                let high: usize = match self.mbc {
                    MBCType::MBC0 => 1,
                    MBCType::MBC1 => if self.rom_bank == 0 {
                        low + 1
                    } else {
                        low + self.rom_bank as usize
                    },
                };
                if high < self.rom.len() {
                    self.rom[high][addr - 0x4000]
                } else {
                    0xFF
                }
            }
        } else {
            match self.mbc {
                MBCType::MBC0 => 0xFF,
                MBCType::MBC1 => {
                    let bank: usize = self.exram_bank as usize;
                    if self.exram_enable && bank < self.exram.len() {
                        self.exram[bank][addr - 0xA000]
                    } else {
                        0xFF
                    }
                },
            }
        }
    }

    /// Writes `data` at `addr16`: a controller register below `8000`, external RAM above.
    pub fn poke(&mut self, addr16: u16, data: u8)
        requires
            Cartridge::maps(addr16),
        ensures
            final(self)@ == old(self)@.poke(addr16, data),
    {
        let addr: usize = addr16 as usize;
        if addr16 <= 0x7FFF {
            match self.mbc {
                MBCType::MBC0 => {},
                MBCType::MBC1 => {
                    proof {
                        crate::bits::lemma_low_bits(data);
                    }
                    if addr16 <= 0x1FFF {
                        self.exram_enable = data & 0xF == 0xA;
                    } else if addr16 <= 0x3FFF {
                        self.rom_bank = data & 0x1F;
                    } else if addr16 <= 0x5FFF {
                        self.exram_bank = data & 3;
                    } else {
                        self.bank_mode = data & 1 != 0;
                    }
                },
            }
        } else {
            match self.mbc {
                MBCType::MBC0 => {},
                MBCType::MBC1 => {
                    let bank: usize = self.exram_bank as usize;
                    if self.exram_enable && bank < self.exram.len() {
                        self.exram[bank][addr - 0xA000] = data;
                    }
                },
            }
        }
    }
}

impl Default for Cartridge {
    /// An empty cartridge slot.
    fn default() -> (cart: Cartridge)
        ensures
            cart@ == CartridgeView::empty(),
    {
        Cartridge::new()
    }
}

} // verus!
