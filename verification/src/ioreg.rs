//! The memory-mapped hardware registers `FF00..=FF7F` and `FFFF`, with the
//! divider and timer that they own.

use vstd::prelude::*;
use crate::audio::AudioParams;
use crate::bits::{
    bit, lemma_bits, lemma_joypad, lemma_low_bits, lemma_raise, lemma_splice, lemma_status,
    lemma_word, raised,
};

verus! {

/// Interrupt bit: vertical blank.
pub const INT_VBLANK: u8 = 1;

/// Interrupt bit: LCD status.
pub const INT_LCD: u8 = 2;

/// Interrupt bit: timer overflow.
pub const INT_TIMER: u8 = 4;

/// Interrupt bit: serial transfer.
pub const INT_SERIAL: u8 = 8;

/// Interrupt bit: joypad.
pub const INT_JOYPAD: u8 = 16;

/// The register file.
#[derive(Clone, Copy)]
pub struct IoReg {
    /// `FF00`: the joypad line selector, bits 5..4.
    pub p1_joyp: u8,
    /// The 16-bit divider; `FF04` shows its high byte.
    pub div: u16,
    /// `FF05`: timer counter.
    pub tima: u8,
    /// `FF06`: timer modulo.
    pub tma: u8,
    /// `FF07`: timer control.
    pub tac: u8,
    /// `FF0F`: interrupt flags.
    pub interrupt: u8,
    /// `FF40`: LCD control.
    pub lcdc: u8,
    /// `FF41`: the stored bits 6..3 of LCD status.
    pub stat: u8,
    /// `FF42`: viewport Y.
    pub scy: u8,
    /// `FF43`: viewport X.
    pub scx: u8,
    /// `FF44`: current scanline.
    pub ly: u8,
    /// `FF45`: scanline to compare with.
    pub lyc: u8,
    /// `FF47`: background palette.
    pub bgp: u8,
    /// `FF48`: object palette 0.
    pub obp0: u8,
    /// `FF49`: object palette 1.
    pub obp1: u8,
    /// `FF4A`: window Y.
    pub wy: u8,
    /// `FF4B`: window X plus 7.
    pub wx: u8,
    /// `FF4C` bit 2: colour mode, writable while the boot ROM is mapped.
    pub cgb_mode: bool,
    /// `FF4D`: speed switch; bit 0 arms it, bit 7 shows the speed.
    pub speed_switch: u8,
    /// `FF4F` bit 0: the VRAM bank seen at `8000..=9FFF`.
    pub vbk: bool,
    /// `FF70` bits 2..0: the WRAM bank seen at `D000..=DFFF`; 0 selects bank 1.
    pub svbk: u8,
    /// `FF50`: latched once the boot ROM has been unmapped.
    pub hide_boot_rom: bool,
    /// `FFFF`: interrupt enable.
    pub ie: u8,
    /// `FF10..=FF3F`: the sound registers.
    pub audio_params: AudioParams,
    /// `FF60`, which is not implemented.
    pub joyc: bool,
    /// Host flag: report register accesses.
    pub debug: bool,
    /// Host latch, one bit per pressed button: A, B, Select, Start.
    pub user_input_buttons: u8,
    /// Host latch, one bit per pressed direction: Right, Left, Up, Down.
    pub user_input_joypad: u8,
    /// Dot within the current scanline.
    pub lx: u64,
}

/// How many divider counts lie between two timer increments, by `TAC` bits 1..0.
pub open spec fn timer_period(tac: u8) -> int {
    if tac % 4 == 0 {
        1024
    } else if tac % 4 == 1 {
        16
    } else if tac % 4 == 2 {
        64
    } else {
        256
    }
}

impl IoReg {
    /// Whether an address belongs to the register file.
    pub open spec fn maps(addr: int) -> bool {
        0xFF00 <= addr <= 0xFF7F || addr == 0xFFFF
    }

    /// The keys that are down on the selected joypad lines, as a nibble.
    pub open spec fn pressed_lines(self) -> u8 {
        let select = (self.p1_joyp / 16) % 4;
        if select == 3 {
            0
        } else if select == 1 {
            self.user_input_buttons % 16
        } else if select == 2 {
            self.user_input_joypad % 16
        } else {
            (self.user_input_buttons | self.user_input_joypad) % 16
        }
    }

    /// What a read at `addr` returns. Registers that are not implemented,
    /// and addresses outside the file, read as `0xFF`.
    pub open spec fn spec_get(self, addr: int) -> u8 {
        if addr == 0xFF00 {
            (((self.p1_joyp / 16) % 4) * 16 + (15 - self.pressed_lines())) as u8
        } else if addr == 0xFF04 {
            (self.div / 256) as u8
        } else if addr == 0xFF05 {
            self.tima
        } else if addr == 0xFF06 {
            self.tma
        } else if addr == 0xFF07 {
            self.tac
        } else if addr == 0xFF0F {
            self.interrupt
        } else if AudioParams::maps(addr) {
            self.audio_params.spec_get(addr)
        } else if addr == 0xFF40 {
            self.lcdc
        } else if addr == 0xFF41 {
            (((self.stat / 8) % 16) * 8 + (if self.ly == self.lyc {
                4int
            } else {
                0int
            })) as u8
        } else if addr == 0xFF42 {
            self.scy
        } else if addr == 0xFF43 {
            self.scx
        } else if addr == 0xFF44 {
            self.ly
        } else if addr == 0xFF45 {
            self.lyc
        } else if addr == 0xFF47 {
            self.bgp
        } else if addr == 0xFF48 {
            self.obp0
        } else if addr == 0xFF49 {
            self.obp1
        } else if addr == 0xFF4A {
            self.wy
        } else if addr == 0xFF4B {
            self.wx
        } else if addr == 0xFF4C {
            if self.cgb_mode {
                4
            } else {
                0
            }
        } else if addr == 0xFF4D {
            self.speed_switch
        } else if addr == 0xFF4F {
            if self.vbk {
                0xFF
            } else {
                0xFE
            }
        } else if addr == 0xFF50 {
            if self.hide_boot_rom {
                1
            } else {
                0
            }
        } else if addr == 0xFF70 {
            (0xF8 + self.svbk % 8) as u8
        } else if addr == 0xFFFF {
            self.ie
        } else {
            0xFF
        }
    }

    /// The register file after a write at `addr`. Writes to registers that
    /// are not implemented, to `LY`, and outside the file change nothing.
    pub open spec fn spec_set(self, addr: int, data: u8) -> IoReg {
        if addr == 0xFF00 {
            IoReg { p1_joyp: (((data / 16) % 4) * 16) as u8, ..self }
        } else if addr == 0xFF04 {
            IoReg { div: 0, ..self }
        } else if addr == 0xFF05 {
            IoReg { tima: data, ..self }
        } else if addr == 0xFF06 {
            IoReg { tma: data, ..self }
        } else if addr == 0xFF07 {
            IoReg { tac: data, ..self }
        } else if addr == 0xFF0F {
            IoReg { interrupt: data, ..self }
        } else if AudioParams::maps(addr) {
            IoReg { audio_params: self.audio_params.spec_set(addr, data), ..self }
        } else if addr == 0xFF40 {
            if data < 128 {
                IoReg { lcdc: data, lx: 0, ly: 0, ..self }
            } else {
                IoReg { lcdc: data, ..self }
            }
        } else if addr == 0xFF41 {
            IoReg { stat: (((data / 8) % 16) * 8) as u8, ..self }
        } else if addr == 0xFF42 {
            IoReg { scy: data, ..self }
        } else if addr == 0xFF43 {
            IoReg { scx: data, ..self }
        } else if addr == 0xFF45 {
            IoReg { lyc: data, ..self }
        } else if addr == 0xFF47 {
            IoReg { bgp: data, ..self }
        } else if addr == 0xFF48 {
            IoReg { obp0: data, ..self }
        } else if addr == 0xFF49 {
            IoReg { obp1: data, ..self }
        } else if addr == 0xFF4A {
            IoReg { wy: data, ..self }
        } else if addr == 0xFF4B {
            IoReg { wx: data, ..self }
        } else if addr == 0xFF4C {
            if self.hide_boot_rom {
                self
            } else {
                IoReg { cgb_mode: bit(data, 2), ..self }
            }
        } else if addr == 0xFF4D {
            IoReg { speed_switch: ((self.speed_switch / 128) * 128 + data % 2) as u8, ..self }
        } else if addr == 0xFF4F {
            IoReg { vbk: bit(data, 0), ..self }
        } else if addr == 0xFF50 {
            IoReg { hide_boot_rom: self.hide_boot_rom || bit(data, 0), ..self }
        } else if addr == 0xFF70 {
            IoReg { svbk: data % 8, ..self }
        } else if addr == 0xFFFF {
            IoReg { ie: data, ..self }
        } else {
            self
        }
    }

    /// Whether the M-cycle that follows this state overflows the timer.
    pub open spec fn tick_overflows(self) -> bool {
        bit(self.tac, 2) && ((self.div + 4) % 0x10000) % timer_period(self.tac) == 0 && self.tima
            == 0xFF
    }

    /// The register file one M-cycle later: the divider gains 4; if the
    /// timer is enabled and the divider reaches a multiple of the selected
    /// period, `TIMA` counts up, and on overflow reloads from `TMA` and
    /// raises the timer interrupt.
    pub open spec fn tick(self) -> IoReg {
        let div = ((self.div + 4) % 0x10000) as u16;
        if bit(self.tac, 2) && (div as int) % timer_period(self.tac) == 0 {
            if self.tima == 0xFF {
                IoReg { div, tima: self.tma, interrupt: raised(self.interrupt, 2), ..self }
            } else {
                IoReg { div, tima: (self.tima + 1) as u8, ..self }
            }
        } else {
            IoReg { div, ..self }
        }
    }

    /// The register file `m` M-cycles later.
    pub open spec fn advance(self, m: nat) -> IoReg
        decreases m,
    {
        if m == 0 {
            self
        } else {
            self.advance((m - 1) as nat).tick()
        }
    }

    /// Whether the timer overflows at least once within the next `m` M-cycles.
    pub open spec fn advance_overflows(self, m: nat) -> bool
        decreases m,
    {
        if m == 0 {
            false
        } else {
            self.advance_overflows((m - 1) as nat) || self.advance((m - 1) as nat).tick_overflows()
        }
    }

    /// Whether the register file is as at power-on: every register
    /// zero, the boot ROM mapped, no key down.
    pub open spec fn at_power_on(self) -> bool {
        &&& self.p1_joyp == 0 && self.div == 0 && self.tima == 0 && self.tma == 0 && self.tac == 0
        &&& self.interrupt == 0 && self.ie == 0
        &&& self.lcdc == 0 && self.stat == 0 && self.scy == 0 && self.scx == 0 && self.ly == 0
            && self.lyc == 0
        &&& self.bgp == 0 && self.obp0 == 0 && self.obp1 == 0 && self.wy == 0 && self.wx == 0
        &&& !self.cgb_mode && self.speed_switch == 0 && !self.vbk && self.svbk == 0
            && !self.hide_boot_rom
        &&& !self.joyc && !self.debug
        &&& self.user_input_buttons == 0 && self.user_input_joypad == 0 && self.lx == 0
        &&& self.audio_params.at_power_on()
    }

    /// The register file at power-on.
    pub fn new() -> (io: IoReg)
        ensures
            io.at_power_on(),
    {
        IoReg {
            p1_joyp: 0,
            div: 0,
            tima: 0,
            tma: 0,
            tac: 0,
            interrupt: 0,
            lcdc: 0,
            stat: 0,
            scy: 0,
            scx: 0,
            ly: 0,
            lyc: 0,
            bgp: 0,
            obp0: 0,
            obp1: 0,
            wy: 0,
            wx: 0,
            cgb_mode: false,
            speed_switch: 0,
            vbk: false,
            svbk: 0,
            hide_boot_rom: false,
            ie: 0,
            audio_params: AudioParams::new(),
            joyc: false,
            debug: false,
            user_input_buttons: 0,
            user_input_joypad: 0,
            lx: 0,
        }
    }

    /// Reads the register at `addr`.
    pub fn get(&self, addr: usize) -> (data: u8)
        ensures
            data == self.spec_get(addr as int),
    {
        match addr {
            0xFF00 => {
                proof {
                    lemma_joypad(self.p1_joyp, self.user_input_buttons, self.user_input_joypad);
                }
                let target: u8 = self.p1_joyp & 0b11_0000;
                let buttons: u8 = 0xf & !self.user_input_buttons;
                let joypad: u8 = 0xf & !self.user_input_joypad;
                if target == 0b11_0000 {
                    target | 0xf
                } else if target == 0b01_0000 {
                    target | buttons
                } else if target == 0b10_0000 {
                    target | joypad
                } else {
                    target | (buttons & joypad)
                }
            },
            0xFF04 => {
                proof {
                    lemma_word(self.div);
                }
                (self.div >> 8) as u8
            },
            0xFF05 => self.tima,
            0xFF06 => self.tma,
            0xFF07 => self.tac,
            0xFF0F => self.interrupt,
            0xFF10..=0xFF3F => self.audio_params.get(addr),
            0xFF40 => self.lcdc,
            0xFF41 => {
                proof {
                    lemma_status(self.stat);
                }
                if self.lyc == self.ly {
                    (self.stat & 0b_0111_1000) | 0b100
                } else {
                    self.stat & 0b_0111_1000
                }
            },
            0xFF42 => self.scy,
            0xFF43 => self.scx,
            0xFF44 => self.ly,
            0xFF45 => self.lyc,
            0xFF47 => self.bgp,
            0xFF48 => self.obp0,
            0xFF49 => self.obp1,
            0xFF4A => self.wy,
            0xFF4B => self.wx,
            0xFF4C => if self.cgb_mode {
                0b100
            } else {
                0
            },
            0xFF4D => self.speed_switch,
            0xFF4F => if self.vbk {
                0xFF
            } else {
                0xFE
            },
            0xFF50 => if self.hide_boot_rom {
                1
            } else {
                0
            },
            0xFF70 => {
                proof {
                    lemma_status(self.svbk);
                }
                0xF8 | (self.svbk & 7)
            },
            0xFFFF => self.ie,
            _ => 0xFF,
        }
    }

    /// Writes the register at `addr`.
    pub fn set(&mut self, addr: usize, data: u8)
        ensures
            *final(self) == old(self).spec_set(addr as int, data),
    {
        proof {
            lemma_bits(data);
            lemma_low_bits(data);
        }
        match addr {
            0xFF00 => {
                proof {
                    lemma_joypad(data, 0, 0);
                }
                self.p1_joyp = data & 0b11_0000;
            },
            0xFF04 => self.div = 0,
            0xFF05 => self.tima = data,
            0xFF06 => self.tma = data,
            0xFF07 => self.tac = data,
            0xFF0F => self.interrupt = data,
            0xFF10..=0xFF3F => self.audio_params.set(addr, data),
            0xFF40 => {
                if data & 0x80 == 0 {
                    self.lx = 0;
                    self.ly = 0;
                }
                self.lcdc = data;
            },
            0xFF41 => {
                proof {
                    lemma_status(data);
                }
                self.stat = data & 0b_0111_1000;
            },
            0xFF42 => self.scy = data,
            0xFF43 => self.scx = data,
            0xFF45 => self.lyc = data,
            0xFF47 => self.bgp = data,
            0xFF48 => self.obp0 = data,
            0xFF49 => self.obp1 = data,
            0xFF4A => self.wy = data,
            0xFF4B => self.wx = data,
            0xFF4C => {
                if !self.hide_boot_rom {
                    self.cgb_mode = data & 0b100 != 0;
                }
            },
            0xFF4D => {
                proof {
                    lemma_splice(self.speed_switch, data);
                }
                self.speed_switch = (self.speed_switch & 0x80) | (data & 1);
            },
            0xFF4F => self.vbk = data & 1 != 0,
            0xFF50 => {
                if data & 1 == 1 {
                    self.hide_boot_rom = true;
                }
            },
            0xFF70 => self.svbk = data & 7,
            0xFFFF => self.ie = data,
            _ => {},
        }
    }

    /// Lets `mcycles` M-cycles pass on the divider and the timer, and says
    /// whether the timer interrupt was raised meanwhile.
    pub fn advance_counter_div(&mut self, mcycles: u64) -> (raised: bool)
        ensures
            *final(self) == old(self).advance(mcycles as nat),
            raised == old(self).advance_overflows(mcycles as nat),
    {
        let mut do_interrupt: bool = false;
        let mut done: u64 = 0;
        while done < mcycles
            invariant
                done <= mcycles,
                *self == old(self).advance(done as nat),
                do_interrupt == old(self).advance_overflows(done as nat),
            decreases mcycles - done,
        {
            proof {
                lemma_bits(self.tac);
                lemma_low_bits(self.tac);
                lemma_raise(self.interrupt);
            }
            self.div = self.div.wrapping_add(4);
            proof {
                lemma_word(self.div);
            }
            if self.tac & 0b100 != 0 {
                let tima_check: u16 = match self.tac & 0b11 {
                    0 => 1023,
                    1 => 15,
                    2 => 63,
                    _ => 255,
                };
                if self.div & tima_check == 0 {
                    if self.tima == 0xff {
                        self.tima = self.tma;
                        self.interrupt |= INT_TIMER;
                        do_interrupt = true;
                    } else {
                        self.tima += 1;
                    }
                }
            }
            done += 1;
        }
        do_interrupt
    }
}

/// The divider counts four to the M-cycle, whatever the timer does: after
/// `m` M-cycles it has gained `4 m`, modulo 65536. Nothing but the
/// divider, the timer counter and the interrupt flags has changed.
pub proof fn lemma_divider_advance(io: IoReg, m: nat)
    ensures
        io.advance(m).div == (io.div + 4 * m) % 0x10000,
        io.advance(m) == (IoReg {
            div: io.advance(m).div,
            tima: io.advance(m).tima,
            interrupt: io.advance(m).interrupt,
            ..io
        }),
        !io.advance_overflows(m) ==> io.advance(m).interrupt == io.interrupt,
    decreases m,
{
    if m > 0 {
        lemma_divider_advance(io, (m - 1) as nat);
        let before = io.advance((m - 1) as nat);
        assert(before.tick().div == (before.div + 4) % 0x10000);
    }
}

/// The name by which the hardware manuals know a register.
pub open spec fn register_name(addr: int) -> Seq<char> {
    if addr == 0xFF00 {
        "P1/JOYP"@
    } else if addr == 0xFF01 {
        "SB"@
    } else if addr == 0xFF02 {
        "SC"@
    } else if addr == 0xFF04 {
        "DIV"@
    } else if addr == 0xFF05 {
        "TIMA"@
    } else if addr == 0xFF06 {
        "TMA"@
    } else if addr == 0xFF07 {
        "TAC"@
    } else if addr == 0xFF0F {
        "IF"@
    } else if addr == 0xFF10 {
        "NR10"@
    } else if addr == 0xFF11 {
        "NR11"@
    } else if addr == 0xFF12 {
        "NR12"@
    } else if addr == 0xFF13 {
        "NR13"@
    } else if addr == 0xFF14 {
        "NR14"@
    } else if addr == 0xFF16 {
        "NR21"@
    } else if addr == 0xFF17 {
        "NR22"@
    } else if addr == 0xFF18 {
        "NR23"@
    } else if addr == 0xFF19 {
        "NR24"@
    } else if addr == 0xFF1A {
        "NR30"@
    } else if addr == 0xFF1B {
        "NR31"@
    } else if addr == 0xFF1C {
        "NR32"@
    } else if addr == 0xFF1D {
        "NR33"@
    } else if addr == 0xFF1E {
        "NR34"@
    } else if addr == 0xFF20 {
        "NR41"@
    } else if addr == 0xFF21 {
        "NR42"@
    } else if addr == 0xFF22 {
        "NR43"@
    } else if addr == 0xFF23 {
        "NR44"@
    } else if addr == 0xFF24 {
        "NR50"@
    } else if addr == 0xFF25 {
        "NR51"@
    } else if addr == 0xFF26 {
        "NR52"@
    } else if 0xFF30 <= addr <= 0xFF3F {
        "WaveRAM"@
    } else if addr == 0xFF40 {
        "LCDC"@
    } else if addr == 0xFF41 {
        "STAT"@
    } else if addr == 0xFF42 {
        "SCY"@
    } else if addr == 0xFF43 {
        "SCX"@
    } else if addr == 0xFF44 {
        "LY"@
    } else if addr == 0xFF45 {
        "LYC"@
    } else if addr == 0xFF46 {
        "DMA"@
    } else if addr == 0xFF47 {
        "BGP"@
    } else if addr == 0xFF48 {
        "OBP0"@
    } else if addr == 0xFF49 {
        "OBP1"@
    } else if addr == 0xFF4A {
        "WY"@
    } else if addr == 0xFF4B {
        "WX"@
    } else if addr == 0xFF4D {
        "KEY1"@
    } else if addr == 0xFF4F {
        "VBK"@
    } else if addr == 0xFF51 {
        "HDMA1"@
    } else if addr == 0xFF52 {
        "HDMA2"@
    } else if addr == 0xFF53 {
        "HDMA3"@
    } else if addr == 0xFF54 {
        "HDMA4"@
    } else if addr == 0xFF55 {
        "HDMA5"@
    } else if addr == 0xFF56 {
        "RP"@
    } else if addr == 0xFF68 {
        "BCPS/BGPI"@
    } else if addr == 0xFF69 {
        "BCPD/BGPD"@
    } else if addr == 0xFF6A {
        "OCPS/OBPI"@
    } else if addr == 0xFF6B {
        "OCPD/OBPD"@
    } else if addr == 0xFF6C {
        "OPRI"@
    } else if addr == 0xFF70 {
        "SVBK"@
    } else if addr == 0xFF76 {
        "PCM12"@
    } else if addr == 0xFF77 {
        "PCM34"@
    } else if addr == 0xFFFF {
        "IE"@
    } else if addr == 0xFF4C {
        "KEY0 (CGB mode enable)"@
    } else if addr == 0xFF50 {
        "HIDE_BOOT_ROM_BANK"@
    } else if addr == 0xFF60 {
        "JOYC (undocumented in pandocs)"@
    } else {
        "UNKNOWN_REGISTER"@
    }
}

/// Names the register at `addr`.
pub fn name_of(addr: usize) -> (name: &'static str)
    ensures
        name@ == register_name(addr as int),
{
    if addr == 0xFF00 {
        "P1/JOYP"
    } else if addr == 0xFF01 {
        "SB"
    } else if addr == 0xFF02 {
        "SC"
    } else if addr == 0xFF04 {
        "DIV"
    } else if addr == 0xFF05 {
        "TIMA"
    } else if addr == 0xFF06 {
        "TMA"
    } else if addr == 0xFF07 {
        "TAC"
    } else if addr == 0xFF0F {
        "IF"
    } else if addr == 0xFF10 {
        "NR10"
    } else if addr == 0xFF11 {
        "NR11"
    } else if addr == 0xFF12 {
        "NR12"
    } else if addr == 0xFF13 {
        "NR13"
    } else if addr == 0xFF14 {
        "NR14"
    } else if addr == 0xFF16 {
        "NR21"
    } else if addr == 0xFF17 {
        "NR22"
    } else if addr == 0xFF18 {
        "NR23"
    } else if addr == 0xFF19 {
        "NR24"
    } else if addr == 0xFF1A {
        "NR30"
    } else if addr == 0xFF1B {
        "NR31"
    } else if addr == 0xFF1C {
        "NR32"
    } else if addr == 0xFF1D {
        "NR33"
    } else if addr == 0xFF1E {
        "NR34"
    } else if addr == 0xFF20 {
        "NR41"
    } else if addr == 0xFF21 {
        "NR42"
    } else if addr == 0xFF22 {
        "NR43"
    } else if addr == 0xFF23 {
        "NR44"
    } else if addr == 0xFF24 {
        "NR50"
    } else if addr == 0xFF25 {
        "NR51"
    } else if addr == 0xFF26 {
        "NR52"
    } else if 0xFF30 <= addr && addr <= 0xFF3F {
        "WaveRAM"
    } else if addr == 0xFF40 {
        "LCDC"
    } else if addr == 0xFF41 {
        "STAT"
    } else if addr == 0xFF42 {
        "SCY"
    } else if addr == 0xFF43 {
        "SCX"
    } else if addr == 0xFF44 {
        "LY"
    } else if addr == 0xFF45 {
        "LYC"
    } else if addr == 0xFF46 {
        "DMA"
    } else if addr == 0xFF47 {
        "BGP"
    } else if addr == 0xFF48 {
        "OBP0"
    } else if addr == 0xFF49 {
        "OBP1"
    } else if addr == 0xFF4A {
        "WY"
    } else if addr == 0xFF4B {
        "WX"
    } else if addr == 0xFF4D {
        "KEY1"
    } else if addr == 0xFF4F {
        "VBK"
    } else if addr == 0xFF51 {
        "HDMA1"
    } else if addr == 0xFF52 {
        "HDMA2"
    } else if addr == 0xFF53 {
        "HDMA3"
    } else if addr == 0xFF54 {
        "HDMA4"
    } else if addr == 0xFF55 {
        "HDMA5"
    } else if addr == 0xFF56 {
        "RP"
    } else if addr == 0xFF68 {
        "BCPS/BGPI"
    } else if addr == 0xFF69 {
        "BCPD/BGPD"
    } else if addr == 0xFF6A {
        "OCPS/OBPI"
    } else if addr == 0xFF6B {
        "OCPD/OBPD"
    } else if addr == 0xFF6C {
        "OPRI"
    } else if addr == 0xFF70 {
        "SVBK"
    } else if addr == 0xFF76 {
        "PCM12"
    } else if addr == 0xFF77 {
        "PCM34"
    } else if addr == 0xFFFF {
        "IE"
    } else if addr == 0xFF4C {
        "KEY0 (CGB mode enable)"
    } else if addr == 0xFF50 {
        "HIDE_BOOT_ROM_BANK"
    } else if addr == 0xFF60 {
        "JOYC (undocumented in pandocs)"
    } else {
        "UNKNOWN_REGISTER"
    }
}

impl IoReg {
    /// The register file after a key went down or up. `joypad` chooses
    /// the directions, else the buttons; `pin` is the bit of the key.
    pub open spec fn key_set(self, joypad: bool, pin: u8, down: bool) -> IoReg {
        if joypad {
            IoReg {
                user_input_joypad: if down {
                    self.user_input_joypad | pin
                } else {
                    self.user_input_joypad & !pin
                },
                ..self
            }
        } else {
            IoReg {
                user_input_buttons: if down {
                    self.user_input_buttons | pin
                } else {
                    self.user_input_buttons & !pin
                },
                ..self
            }
        }
    }

    /// Latches the state of one key.
    pub fn set_key(&mut self, joypad: bool, pin: u8, down: bool)
        ensures
            *final(self) == old(self).key_set(joypad, pin, down),
    {
        if joypad {
            if down {
                self.user_input_joypad |= pin;
            } else {
                self.user_input_joypad &= !pin;
            }
        } else {
            if down {
                self.user_input_buttons |= pin;
            } else {
                self.user_input_buttons &= !pin;
            }
        }
    }
}

} // verus!
