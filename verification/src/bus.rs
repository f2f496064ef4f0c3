//! The 16-bit address space: it routes every access to the boot ROM, the
//! cartridge, video RAM, work RAM, object memory, the I/O registers or
//! high RAM.

use vstd::prelude::*;
use crate::audio::AudioParams;
use crate::bits::{lemma_same_bits, lemma_word};
use crate::cart::{Cartridge, CartridgeView};
use crate::ioreg::IoReg;

verus! {

/// Bytes in one bank of video RAM.
pub const VRAM_SIZE: usize = 0x2000;

/// Bytes in one bank of work RAM.
pub const WRAM_BANK_SIZE: usize = 0x1000;

/// Bytes of object attribute memory.
pub const OAM_SIZE: usize = 0xA0;

/// Bytes of high RAM.
pub const HRAM_SIZE: usize = 0x7F;

/// The built-in boot program: it sets up the stack, switches the LCD on
/// and unmaps itself, leaving the program counter at `0100`.
pub const BOOT_ROM: [u8; 0x100] = [
    0, 0, 0, 0, 0, 0, 0, 0, 0, 0, 0, 0, 0, 0, 0, 0, 0, 0, 0, 0, 0, 0, 0, 0, 0, 0, 0, 0, 0, 0, 0, 0,
    0, 0, 0, 0, 0, 0, 0, 0, 0, 0, 0, 0, 0, 0, 0, 0, 0, 0, 0, 0, 0, 0, 0, 0, 0, 0, 0, 0, 0, 0, 0, 0,
    0, 0, 0, 0, 0, 0, 0, 0, 0, 0, 0, 0, 0, 0, 0, 0, 0, 0, 0, 0, 0, 0, 0, 0, 0, 0, 0, 0, 0, 0, 0, 0,
    0, 0, 0, 0, 0, 0, 0, 0, 0, 0, 0, 0, 0, 0, 0, 0, 0, 0, 0, 0, 0, 0, 0, 0, 0, 0, 0, 0, 0, 0, 0, 0,
    0, 0, 0, 0, 0, 0, 0, 0, 0, 0, 0, 0, 0, 0, 0, 0, 0, 0, 0, 0, 0, 0, 0, 0, 0, 0, 0, 0, 0, 0, 0, 0,
    0, 0, 0, 0, 0, 0, 0, 0, 0, 0, 0, 0, 0, 0, 0, 0, 0, 0, 0, 0, 0, 0, 0, 0, 0, 0, 0, 0, 0, 0, 0, 0,
    0, 0, 0, 0, 0, 0, 0, 0, 0, 0, 0, 0, 0, 0, 0, 0, 0, 0, 0, 0, 0, 0, 0, 0, 0, 0, 0, 0, 0, 0, 0, 0,
    0, 0, 0, 0, 0, 0, 0, 0, 0, 0, 0, 0, 0, 0, 0, 0, 0, 0, 0, 0, 0,
    0x31, 0xfe, 0xff,
    0x3e, 0x91,
    0xe0, 0x40,
    0x3e, 0x01,
    0xe0, 0x50,
];

/// The memory behind the bus.
pub struct Bus {
    /// Video RAM, two banks.
    pub vram: [[u8; VRAM_SIZE]; 2],
    /// Work RAM, eight banks.
    pub wram: [[u8; WRAM_BANK_SIZE]; 8],
    /// Object attribute memory.
    pub oam: [u8; OAM_SIZE],
    /// The I/O registers.
    pub io: IoReg,
    /// High RAM.
    pub hram: [u8; HRAM_SIZE],
    /// The cartridge in the slot.
    pub cart: Cartridge,
}

/// The mathematical content of the bus.
#[verifier::ext_equal]
pub struct BusView {
    pub vram: Seq<Seq<u8>>,
    pub wram: Seq<Seq<u8>>,
    pub oam: Seq<u8>,
    pub io: IoReg,
    pub hram: Seq<u8>,
    pub cart: CartridgeView,
}

impl View for Bus {
    type V = BusView;

    open spec fn view(&self) -> BusView {
        BusView {
            vram: Seq::new(2, |b: int| self.vram[b]@),
            wram: Seq::new(8, |b: int| self.wram[b]@),
            oam: self.oam@,
            io: self.io,
            hram: self.hram@,
            cart: self.cart@,
        }
    }
}

impl BusView {
    /// Whether the bus is as at power-on: all memory zero, the
    /// registers at their reset values, the boot ROM mapped and no
    /// cartridge in the slot.
    pub open spec fn at_power_on(self) -> bool {
        &&& forall|b: int, i: int| 0 <= b < 2 && 0 <= i < VRAM_SIZE ==> self.vram[b][i] == 0
        &&& forall|b: int, i: int| 0 <= b < 8 && 0 <= i < WRAM_BANK_SIZE ==> self.wram[b][i] == 0
        &&& forall|i: int| 0 <= i < OAM_SIZE ==> self.oam[i] == 0
        &&& forall|i: int| 0 <= i < HRAM_SIZE ==> self.hram[i] == 0
        &&& self.io.at_power_on()
        &&& self.cart == CartridgeView::empty()
    }

    /// The video RAM bank seen at `8000..=9FFF`.
    pub open spec fn vram_bank(self) -> int {
        if self.io.vbk {
            1
        } else {
            0
        }
    }

    /// The work RAM bank seen at `D000..=DFFF`; selecting bank 0 gives bank 1.
    pub open spec fn wram_bank(self) -> int {
        if self.io.svbk % 8 == 0 {
            1
        } else {
            (self.io.svbk % 8) as int
        }
    }

    /// Whether reads below `0100` come from the boot ROM.
    pub open spec fn boot_mapped(self) -> bool {
        !self.io.hide_boot_rom
    }

    /// What a read at `addr` returns.
    #[verifier::opaque]
    pub open spec fn peek(self, addr: u16) -> u8 {
        if addr <= 0x00FF && self.boot_mapped() {
            BOOT_ROM[addr as int]
        } else if addr <= 0x7FFF {
            self.cart.peek(addr)
        } else if addr <= 0x9FFF {
            self.vram[self.vram_bank()][addr - 0x8000]
        } else if addr <= 0xBFFF {
            self.cart.peek(addr)
        } else if addr <= 0xCFFF {
            self.wram[0][addr - 0xC000]
        } else if addr <= 0xDFFF {
            self.wram[self.wram_bank()][addr - 0xD000]
        } else if addr <= 0xEFFF {
            self.wram[0][addr - 0xE000]
        } else if addr <= 0xFDFF {
            self.wram[self.wram_bank()][addr - 0xF000]
        } else if addr <= 0xFE9F {
            self.oam[addr - 0xFE00]
        } else if addr <= 0xFEFF {
            0
        } else if addr <= 0xFF7F {
            self.io.spec_get(addr as int)
        } else if addr <= 0xFFFE {
            self.hram[addr - 0xFF80]
        } else {
            self.io.spec_get(0xFFFF)
        }
    }

    /// The two bytes at `addr` and the address after it, low byte first.
    pub open spec fn peek16(self, addr: u16) -> u16 {
        (self.peek(addr) + 256 * self.peek(next(addr))) as u16
    }

    /// Whether a write at `addr` is permitted: the boot ROM cannot be written.
    pub open spec fn poke_allowed(self, addr: u16) -> bool {
        addr > 0x00FF || !self.boot_mapped()
    }

    /// The 160 bytes that a DMA started with `page` copies into object memory.
    pub open spec fn dma_source(self, page: u8) -> Seq<u8> {
        Seq::new(OAM_SIZE as nat, |i: int| self.peek((page * 256 + i) as u16))
    }

    /// The bus after a permitted write at `addr`.
    #[verifier::opaque]
    pub open spec fn poke(self, addr: u16, data: u8) -> BusView {
        if addr <= 0x7FFF {
            BusView { cart: self.cart.poke(addr, data), ..self }
        } else if addr <= 0x9FFF {
            BusView {
                vram: self.vram.update(
                    self.vram_bank(),
                    self.vram[self.vram_bank()].update(addr - 0x8000, data),
                ),
                ..self
            }
        } else if addr <= 0xBFFF {
            BusView { cart: self.cart.poke(addr, data), ..self }
        } else if addr <= 0xCFFF {
            BusView { wram: self.wram.update(0, self.wram[0].update(addr - 0xC000, data)), ..self }
        } else if addr <= 0xDFFF {
            BusView {
                wram: self.wram.update(
                    self.wram_bank(),
                    self.wram[self.wram_bank()].update(addr - 0xD000, data),
                ),
                ..self
            }
        } else if addr <= 0xFDFF {
            self
        } else if addr <= 0xFE9F {
            BusView { oam: self.oam.update(addr - 0xFE00, data), ..self }
        } else if addr <= 0xFEFF {
            self
        } else if addr == 0xFF46 {
            BusView { oam: self.dma_source(data), ..self }
        } else if addr <= 0xFF7F {
            BusView { io: self.io.spec_set(addr as int, data), ..self }
        } else if addr <= 0xFFFE {
            BusView { hram: self.hram.update(addr - 0xFF80, data), ..self }
        } else {
            BusView { io: self.io.spec_set(0xFFFF, data), ..self }
        }
    }

    /// Whether both bytes of a 16-bit write at `addr` are permitted.
    pub open spec fn poke16_allowed(self, addr: u16, data: u16) -> bool {
        self.poke_allowed(addr) && self.poke(addr, (data % 256) as u8).poke_allowed(next(addr))
    }

    /// The bus after a 16-bit write: the low byte at `addr`, then the high
    /// byte at the address after it.
    pub open spec fn poke16(self, addr: u16, data: u16) -> BusView {
        self.poke(addr, (data % 256) as u8).poke(next(addr), (data / 256) as u8)
    }
}

/// The address after `addr`; the one after `FFFF` is `0000`.
pub open spec fn next(addr: u16) -> u16 {
    if addr == 0xFFFF {
        0
    } else {
        (addr + 1) as u16
    }
}

impl Bus {
    /// The bus at power-on.
    pub fn new() -> (bus: Bus)
        ensures
            bus@.at_power_on(),
    {
        Bus {
            vram: [[0u8; VRAM_SIZE]; 2],
            wram: [[0u8; WRAM_BANK_SIZE]; 8],
            oam: [0u8; OAM_SIZE],
            io: IoReg::new(),
            hram: [0u8; HRAM_SIZE],
            cart: Cartridge::new(),
        }
    }

    /// Reads the byte at `addr16`.
    pub fn peek(&self, addr16: u16) -> (data: u8)
        ensures
            data == self@.peek(addr16),
    {
        let addr: usize = addr16 as usize;
        let bank: usize = if self.io.svbk & 7 == 0 {
            1
        } else {
            (self.io.svbk & 7) as usize
        };
        proof {
            reveal(BusView::peek);
            crate::bits::lemma_low_bits(self.io.svbk);
        }
        if addr16 <= 0x00FF && !self.io.hide_boot_rom {
            BOOT_ROM[addr]
        } else if addr16 <= 0x7FFF {
            self.cart.peek(addr16)
        } else if addr16 <= 0x9FFF {
            if self.io.vbk {
                self.vram[1][addr - 0x8000]
            } else {
                self.vram[0][addr - 0x8000]
            }
        } else if addr16 <= 0xBFFF {
            self.cart.peek(addr16)
        } else if addr16 <= 0xCFFF {
            self.wram[0][addr - 0xC000]
        } else if addr16 <= 0xDFFF {
            self.wram[bank][addr - 0xD000]
        } else if addr16 <= 0xEFFF {
            self.wram[0][addr - 0xE000]
        } else if addr16 <= 0xFDFF {
            self.wram[bank][addr - 0xF000]
        } else if addr16 <= 0xFE9F {
            self.oam[addr - 0xFE00]
        } else if addr16 <= 0xFEFF {
            0
        } else if addr16 <= 0xFF7F {
            self.io.get(addr)
        } else if addr16 <= 0xFFFE {
            self.hram[addr - 0xFF80]
        } else {
            self.io.get(addr)
        }
    }

    /// Writes `data` at `addr16`. A write to `FF46` copies 160 bytes from
    /// page `data` into object memory at once.
    pub fn poke(&mut self, addr16: u16, data: u8)
        requires
            old(self)@.poke_allowed(addr16),
        ensures
            final(self)@ == old(self)@.poke(addr16, data),
    {
        let addr: usize = addr16 as usize;
        let bank: usize = if self.io.svbk & 7 == 0 {
            1
        } else {
            (self.io.svbk & 7) as usize
        };
        proof {
            reveal(BusView::poke);
            crate::bits::lemma_low_bits(self.io.svbk);
        }
        if addr16 <= 0x7FFF {
            self.cart.poke(addr16, data);
        } else if addr16 <= 0x9FFF {
            if self.io.vbk {
                self.vram[1][addr - 0x8000] = data;
            } else {
                self.vram[0][addr - 0x8000] = data;
            }
            assert(final(self)@.vram =~~= old(self)@.poke(addr16, data).vram);
        } else if addr16 <= 0xBFFF {
            self.cart.poke(addr16, data);
        } else if addr16 <= 0xCFFF {
            self.wram[0][addr - 0xC000] = data;
            assert(final(self)@.wram =~~= old(self)@.poke(addr16, data).wram);
        } else if addr16 <= 0xDFFF {
            self.wram[bank][addr - 0xD000] = data;
            assert(final(self)@.wram =~~= old(self)@.poke(addr16, data).wram);
        } else if addr16 <= 0xFDFF {
        } else if addr16 <= 0xFE9F {
            self.oam[addr - 0xFE00] = data;
        } else if addr16 <= 0xFEFF {
        } else if addr16 == 0xFF46 {
            let base: u16 = (data as u16) * 256;
            let mut image: [u8; OAM_SIZE] = [0u8; OAM_SIZE];
            let mut i: usize = 0;
            while i < OAM_SIZE
                invariant
                    i <= OAM_SIZE,
                    base == data * 256,
                    *self == *old(self),
                    forall|j: int|
                        0 <= j < i ==> #[trigger] image@[j] == old(self)@.peek(
                            (data * 256 + j) as u16,
                        ),
                decreases OAM_SIZE - i,
            {
                image[i] = self.peek(base + i as u16);
                i += 1;
            }
            self.oam = image;
            assert(final(self)@.oam =~= old(self)@.dma_source(data));
        } else if addr16 <= 0xFF7F {
            self.io.set(addr, data);
        } else if addr16 <= 0xFFFE {
            self.hram[addr - 0xFF80] = data;
        } else {
            self.io.set(addr, data);
        }
    }

    /// Reads two bytes, low byte first.
    pub fn peek16(&self, addr: u16) -> (data: u16)
        ensures
            data == self@.peek16(addr),
    {
        let low: u8 = self.peek(addr);
        let high: u8 = self.peek(addr.wrapping_add(1));
        (low as u16) + (high as u16) * 256
    }

    /// Writes two bytes, low byte first.
    pub fn poke16(&mut self, addr: u16, data: u16)
        requires
            old(self)@.poke16_allowed(addr, data),
        ensures
            final(self)@ == old(self)@.poke16(addr, data),
    {
        proof {
            lemma_word(data);
        }
        self.poke(addr, (data & 0xff) as u8);
        self.poke(addr.wrapping_add(1), ((data & 0xff00) >> 8) as u8);
    }
}

impl IoReg {
    /// The bits of the register at `addr` that a write sets and a read
    /// then returns. `KEY0` is writable while the boot ROM is mapped, and
    /// the boot ROM latch until it is set.
    pub open spec fn writable(self, addr: int) -> u8 {
        if addr == 0xFF00 {
            0x30
        } else if addr == 0xFF05 || addr == 0xFF06 || addr == 0xFF07 || addr == 0xFF0F {
            0xFF
        } else if 0xFF10 <= addr <= 0xFF26 || 0xFF30 <= addr <= 0xFF3F {
            0xFF
        } else if addr == 0xFF40 || addr == 0xFF42 || addr == 0xFF43 || addr == 0xFF45 {
            0xFF
        } else if addr == 0xFF41 {
            0x78
        } else if 0xFF47 <= addr <= 0xFF4B {
            0xFF
        } else if addr == 0xFF4C {
            if self.hide_boot_rom {
                0
            } else {
                4
            }
        } else if addr == 0xFF4D || addr == 0xFF4F {
            1
        } else if addr == 0xFF50 {
            if self.hide_boot_rom {
                0
            } else {
                1
            }
        } else if addr == 0xFF70 {
            7
        } else if addr == 0xFFFF {
            0xFF
        } else {
            0
        }
    }
}

/// A sound register gives back the byte written to it.
pub proof fn lemma_sound_round_trip(params: AudioParams, addr: int, v: u8)
    requires
        0xFF10 <= addr <= 0xFF26 || 0xFF30 <= addr <= 0xFF3F,
    ensures
        params.spec_set(addr, v).spec_get(addr) == v,
{
    if addr <= 0xFF23 {
        let c = (addr - 0xFF10) / 5;
        let i = (addr - 0xFF10) % 5;
        assert(0 <= c < 4 && 0 <= i < 5);
        assert(params.spec_set(addr, v).channels[c].nr[i] == v);
    }
}

/// Whether all eight bits of a register can be written.
pub open spec fn fully_writable(addr: int) -> bool {
    addr == 0xFF05 || addr == 0xFF06 || addr == 0xFF07 || addr == 0xFF0F || (0xFF10 <= addr
        <= 0xFF26) || (0xFF30 <= addr <= 0xFF3F) || addr == 0xFF40 || addr == 0xFF42 || addr
        == 0xFF43 || addr == 0xFF45 || (0xFF47 <= addr <= 0xFF4B) || addr == 0xFFFF
}

/// A register of which all bits can be written gives back the byte written.
proof fn lemma_full_register(io: IoReg, addr: int, v: u8)
    requires
        fully_writable(addr),
    ensures
        io.spec_set(addr, v).spec_get(addr) == v,
        io.writable(addr) == 0xFF,
{
    if AudioParams::maps(addr) {
        lemma_sound_round_trip(io.audio_params, addr, v);
    }
}

/// A register of which some bits can be written gives back those
/// binary digits of the byte written.
proof fn lemma_partial_register(io: IoReg, addr: int, v: u8)
    ensures
        addr == 0xFF00 ==> (io.spec_set(addr, v).spec_get(addr) / 16) % 4 == (v / 16) % 4,
        addr == 0xFF41 ==> (io.spec_set(addr, v).spec_get(addr) / 8) % 16 == (v / 8) % 16,
        addr == 0xFF4C && !io.hide_boot_rom ==> (io.spec_set(addr, v).spec_get(addr) / 4) % 2 == (v
            / 4) % 2,
        addr == 0xFF4D || addr == 0xFF4F ==> io.spec_set(addr, v).spec_get(addr) % 2 == v % 2,
        addr == 0xFF50 && !io.hide_boot_rom ==> io.spec_set(addr, v).spec_get(addr) % 2 == v % 2,
        addr == 0xFF70 ==> io.spec_set(addr, v).spec_get(addr) % 8 == v % 8,
{
    if addr == 0xFF00 {
        let after = io.spec_set(addr, v);
        assert((after.p1_joyp / 16) % 4 == (v / 16) % 4);
        assert(after.spec_get(addr) == ((after.p1_joyp / 16) % 4) * 16 + (15
            - after.pressed_lines()));
    } else if addr == 0xFF41 {
        let after = io.spec_set(addr, v);
        assert((after.stat / 8) % 16 == (v / 8) % 16);
    }
}

/// A register gives back its writable bits as they were written.
pub proof fn lemma_register_round_trip(io: IoReg, addr: int, v: u8)
    requires
        IoReg::maps(addr),
    ensures
        io.spec_set(addr, v).spec_get(addr) & io.writable(addr) == v & io.writable(addr),
{
    let x = io.spec_set(addr, v).spec_get(addr);
    lemma_same_bits(x, v);
    if fully_writable(addr) {
        lemma_full_register(io, addr, v);
    } else {
        lemma_partial_register(io, addr, v);
    }
}

impl BusView {
    /// The bits at `addr` that a write sets and a read then returns:
    /// all eight in RAM, none where writes are dropped, and for a
    /// register those that it has.
    pub open spec fn writable(self, addr: u16) -> u8 {
        if addr <= 0x7FFF {
            0
        } else if addr <= 0x9FFF {
            0xFF
        } else if addr <= 0xBFFF {
            if self.cart.ram_ready() {
                0xFF
            } else {
                0
            }
        } else if addr <= 0xDFFF {
            0xFF
        } else if addr <= 0xFDFF {
            0
        } else if addr <= 0xFE9F {
            0xFF
        } else if addr <= 0xFEFF {
            0
        } else if addr == 0xFF46 {
            0
        } else if addr <= 0xFF7F {
            self.io.writable(addr as int)
        } else {
            0xFF
        }
    }

    /// Whether `addr` is plain memory: video RAM, work RAM, object
    /// memory or high RAM.
    pub open spec fn is_ram(addr: u16) -> bool {
        (0x8000 <= addr <= 0x9FFF) || (0xC000 <= addr <= 0xDFFF) || (0xFE00 <= addr <= 0xFE9F) || (
        0xFF80 <= addr <= 0xFFFE)
    }
}

/// Write, then read: at every address from `8000` on, the byte read
/// back agrees with the byte written in all bits that are writable there.
pub proof fn lemma_round_trip(bus: Bus, addr: u16, v: u8)
    requires
        addr >= 0x8000,
    ensures
        bus@.poke(addr, v).peek(addr) & bus@.writable(addr) == v & bus@.writable(addr),
{
    reveal(BusView::peek);
    reveal(BusView::poke);
    let x = bus@.poke(addr, v).peek(addr);
    lemma_same_bits(x, v);
    if addr == 0xFF46 {
    } else if 0xFF00 <= addr <= 0xFF7F || addr == 0xFFFF {
        lemma_register_round_trip(bus@.io, addr as int, v);
    } else if 0xA000 <= addr <= 0xBFFF {
        if bus@.cart.ram_ready() {
            assert(x == v);
        }
    } else if BusView::is_ram(addr) {
        assert(x == v);
    }
}

/// The background palette register reads back as written.
pub proof fn lemma_bgp_round_trip(bus: Bus, v: u8)
    ensures
        bus@.poke(0xFF47, v).peek(0xFF47) == v,
        bus@.poke(0xFF47, v).io.bgp == v,
{
    reveal(BusView::peek);
    reveal(BusView::poke);
}

/// Plain memory keeps what is written to it: a write there changes
/// what is read at that address to the byte written, what is read at
/// no other address, and no register.
pub proof fn lemma_ram(bus: Bus, addr: u16, v: u8, other: u16)
    requires
        BusView::is_ram(addr),
    ensures
        bus@.poke(addr, v).peek(addr) == v,
        other != addr && !(0xE000 <= other <= 0xFDFF && other - 0x2000 == addr) ==> bus@.poke(
            addr,
            v,
        ).peek(other) == bus@.peek(other),
        bus@.poke(addr, v).io == bus@.io,
        bus@.poke(addr, v).cart == bus@.cart,
{
    reveal(BusView::peek);
    reveal(BusView::poke);
}

impl Default for Bus {
    /// The bus at power-on.
    fn default() -> (bus: Bus)
        ensures
            bus@.at_power_on(),
    {
        Bus::new()
    }
}

} // verus!
