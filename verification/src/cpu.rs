//! The CPU: its registers and flags, how the instruction operands select
//! them, and the interpreter that executes one instruction per call.

use vstd::prelude::*;
use crate::alu::wrap16;
use crate::bits::{
    bit, lemma_bits, lemma_one_bit, lemma_pack, lemma_pending, lemma_switch, lemma_word, lowered,
};
use crate::bus::{next, Bus, BusView};
use crate::decode::execute;
use crate::ioreg::IoReg;
use crate::isa;
use crate::isa::Outcome;
use crate::{GBView, GB};

verus! {

/// The four condition flags.
#[derive(Clone, Copy, Debug, PartialEq, Eq, Structural)]
pub struct Flags {
    /// Zero.
    pub z: bool,
    /// Subtract.
    pub n: bool,
    /// Half carry.
    pub h: bool,
    /// Carry.
    pub c: bool,
}

impl Flags {
    /// The flags packed as the register F: Z, N, H, C in bits 7..4, the low nibble zero.
    pub open spec fn packed(self) -> int {
        (if self.z {
            128int
        } else {
            0int
        }) + (if self.n {
            64int
        } else {
            0int
        }) + (if self.h {
            32int
        } else {
            0int
        }) + (if self.c {
            16int
        } else {
            0int
        })
    }

    /// The flags that a byte holds in its bits 7..4.
    pub open spec fn unpacked(byte: u8) -> Flags {
        Flags { z: bit(byte, 7), n: bit(byte, 6), h: bit(byte, 5), c: bit(byte, 4) }
    }

    /// Whether a branch condition holds: NZ, Z, NC, C by their two-bit selector.
    pub open spec fn holds(self, cond: int) -> bool {
        if cond == 0 {
            !self.z
        } else if cond == 1 {
            self.z
        } else if cond == 2 {
            !self.c
        } else {
            self.c
        }
    }
}

/// The register file of the CPU.
#[derive(Clone, Copy, Debug, PartialEq, Eq, Structural)]
pub struct CPU {
    pub a: u8,
    pub b: u8,
    pub c: u8,
    pub d: u8,
    pub e: u8,
    pub h: u8,
    pub l: u8,
    /// Stack pointer.
    pub sp: u16,
    /// Program counter.
    pub pc: u16,
    pub f: Flags,
    /// Interrupts are enabled.
    pub ime: bool,
    /// Interrupts become enabled after the next instruction.
    pub ime_soon: bool,
    /// The CPU waits for an interrupt.
    pub halt: bool,
    /// Host flag: report each instruction.
    pub debug: bool,
}

/// A memory write that an instruction has decided on and not yet made.
#[derive(Clone, Copy, Debug, PartialEq, Eq, Structural)]
pub enum Store {
    /// Nothing is written.
    Skip,
    /// One byte at an address.
    Byte(u16, u8),
    /// Two bytes, the low one at the address and the high one after it.
    Word(u16, u16),
}

/// Two bytes as a 16-bit word.
pub open spec fn word(high: u8, low: u8) -> u16 {
    (high * 256 + low) as u16
}

impl CPU {
    /// The register pair BC.
    pub open spec fn bc(self) -> u16 {
        word(self.b, self.c)
    }

    /// The register pair DE.
    pub open spec fn de(self) -> u16 {
        word(self.d, self.e)
    }

    /// The register pair HL.
    pub open spec fn hl(self) -> u16 {
        word(self.h, self.l)
    }

    /// The register pair AF; the low nibble of F is zero.
    pub open spec fn af(self) -> u16 {
        (self.a * 256 + self.f.packed()) as u16
    }

    /// The CPU with HL replaced.
    pub open spec fn with_hl(self, value: u16) -> CPU {
        CPU { h: (value / 256) as u8, l: (value % 256) as u8, ..self }
    }

    /// An 8-bit operand by its three-bit selector: B, C, D, E, H, L, the
    /// byte at `[HL]`, A.
    pub open spec fn r8(self, bus: BusView, select: int) -> u8 {
        if select == 0 {
            self.b
        } else if select == 1 {
            self.c
        } else if select == 2 {
            self.d
        } else if select == 3 {
            self.e
        } else if select == 4 {
            self.h
        } else if select == 5 {
            self.l
        } else if select == 6 {
            bus.peek(self.hl())
        } else {
            self.a
        }
    }

    /// The CPU after an 8-bit operand is written; `[HL]` is no register.
    pub open spec fn with_r8(self, select: int, n: u8) -> CPU {
        if select == 0 {
            CPU { b: n, ..self }
        } else if select == 1 {
            CPU { c: n, ..self }
        } else if select == 2 {
            CPU { d: n, ..self }
        } else if select == 3 {
            CPU { e: n, ..self }
        } else if select == 4 {
            CPU { h: n, ..self }
        } else if select == 5 {
            CPU { l: n, ..self }
        } else if select == 6 {
            self
        } else {
            CPU { a: n, ..self }
        }
    }

    /// The memory write that goes with writing an 8-bit operand.
    pub open spec fn store_r8(self, select: int, n: u8) -> Store {
        if select == 6 {
            Store::Byte(self.hl(), n)
        } else {
            Store::Skip
        }
    }

    /// The extra M-cycles of an access to an 8-bit operand: one for `[HL]`.
    pub open spec fn cost_r8(select: int) -> int {
        if select == 6 {
            1
        } else {
            0
        }
    }

    /// A 16-bit operand by its two-bit selector: BC, DE, HL, SP.
    pub open spec fn r16(self, select: int) -> u16 {
        if select == 0 {
            self.bc()
        } else if select == 1 {
            self.de()
        } else if select == 2 {
            self.hl()
        } else {
            self.sp
        }
    }

    /// The CPU after a 16-bit operand is written.
    pub open spec fn with_r16(self, select: int, n: u16) -> CPU {
        if select == 0 {
            CPU { b: (n / 256) as u8, c: (n % 256) as u8, ..self }
        } else if select == 1 {
            CPU { d: (n / 256) as u8, e: (n % 256) as u8, ..self }
        } else if select == 2 {
            self.with_hl(n)
        } else {
            CPU { sp: n, ..self }
        }
    }

    /// The address that a memory operand names: `[BC]`, `[DE]`, `[HL+]`, `[HL-]`.
    pub open spec fn r16mem(self, select: int) -> u16 {
        if select == 0 {
            self.bc()
        } else if select == 1 {
            self.de()
        } else {
            self.hl()
        }
    }

    /// The CPU after a memory operand was used: `[HL+]` and `[HL-]` step HL.
    pub open spec fn after_r16mem(self, select: int) -> CPU {
        if select == 2 {
            self.with_hl(wrap16(self.hl() + 1))
        } else if select == 3 {
            self.with_hl(wrap16(self.hl() - 1))
        } else {
            self
        }
    }

    /// A stack operand by its two-bit selector: BC, DE, HL, AF.
    pub open spec fn r16stk(self, select: int) -> u16 {
        if select == 0 {
            self.bc()
        } else if select == 1 {
            self.de()
        } else if select == 2 {
            self.hl()
        } else {
            self.af()
        }
    }

    /// The CPU after a stack operand is written; of F only bits 7..4 exist.
    pub open spec fn with_r16stk(self, select: int, n: u16) -> CPU {
        if select == 3 {
            CPU { a: (n / 256) as u8, f: Flags::unpacked((n % 256) as u8), ..self }
        } else {
            self.with_r16(select, n)
        }
    }

    /// The CPU at power-on: all registers zero, interrupts disabled, running.
    pub open spec fn at_power_on() -> CPU {
        CPU {
            a: 0,
            b: 0,
            c: 0,
            d: 0,
            e: 0,
            h: 0,
            l: 0,
            sp: 0,
            pc: 0,
            f: Flags { z: false, n: false, h: false, c: false },
            ime: false,
            ime_soon: false,
            halt: false,
            debug: false,
        }
    }

    /// The CPU at power-on.
    pub fn new() -> (cpu: CPU)
        ensures
            cpu == CPU::at_power_on(),
    {
        CPU {
            a: 0,
            b: 0,
            c: 0,
            d: 0,
            e: 0,
            h: 0,
            l: 0,
            sp: 0,
            pc: 0,
            f: Flags { z: false, n: false, h: false, c: false },
            ime: false,
            ime_soon: false,
            halt: false,
            debug: false,
        }
    }

    /// Reads the register pair BC.
    pub fn get_bc(&self) -> (r: u16)
        ensures
            r == self.bc(),
    {
        (self.b as u16) * 256 + (self.c as u16)
    }

    /// Reads the register pair DE.
    pub fn get_de(&self) -> (r: u16)
        ensures
            r == self.de(),
    {
        (self.d as u16) * 256 + (self.e as u16)
    }

    /// Reads the register pair HL.
    pub fn get_hl(&self) -> (r: u16)
        ensures
            r == self.hl(),
    {
        (self.h as u16) * 256 + (self.l as u16)
    }

    /// Writes the register pair HL.
    pub fn set_hl(&mut self, value: u16)
        ensures
            *final(self) == old(self).with_hl(value),
    {
        proof {
            lemma_word(value);
        }
        self.h = (value >> 8) as u8;
        self.l = (value & 0xff) as u8;
    }
}

/// Reads an 8-bit operand; the second result is the extra M-cycle of `[HL]`.
pub fn get_r8(cpu: &CPU, mem: &Bus, r8: u8) -> (r: (u8, u64))
    requires
        r8 < 8,
    ensures
        r.0 == cpu.r8(mem@, r8 as int),
        r.1 == CPU::cost_r8(r8 as int),
{
    let data: u8 = match r8 {
        0 => cpu.b,
        1 => cpu.c,
        2 => cpu.d,
        3 => cpu.e,
        4 => cpu.h,
        5 => cpu.l,
        6 => mem.peek(cpu.get_hl()),
        _ => cpu.a,
    };
    if r8 == 6 {
        (data, 1)
    } else {
        (data, 0)
    }
}

/// Writes an 8-bit operand: a register at once, `[HL]` as a pending
/// store. The second result is the extra M-cycle of `[HL]`.
pub fn set_r8(cpu: &mut CPU, r8: u8, n: u8) -> (r: (Store, u64))
    requires
        r8 < 8,
    ensures
        *final(cpu) == old(cpu).with_r8(r8 as int, n),
        r.0 == old(cpu).store_r8(r8 as int, n),
        r.1 == CPU::cost_r8(r8 as int),
{
    match r8 {
        0 => cpu.b = n,
        1 => cpu.c = n,
        2 => cpu.d = n,
        3 => cpu.e = n,
        4 => cpu.h = n,
        5 => cpu.l = n,
        6 => {
            return (Store::Byte(cpu.get_hl(), n), 1);
        },
        _ => cpu.a = n,
    }
    (Store::Skip, 0)
}

/// Reads a 16-bit operand.
pub fn get_r16(cpu: &CPU, r16: u8) -> (r: u16)
    requires
        r16 < 4,
    ensures
        r == cpu.r16(r16 as int),
{
    match r16 {
        0 => cpu.get_bc(),
        1 => cpu.get_de(),
        2 => cpu.get_hl(),
        _ => cpu.sp,
    }
}

/// Writes a 16-bit operand.
pub fn set_r16(cpu: &mut CPU, r16: u8, n: u16)
    requires
        r16 < 4,
    ensures
        *final(cpu) == old(cpu).with_r16(r16 as int, n),
{
    proof {
        lemma_word(n);
    }
    let lo: u8 = (n & 0xff) as u8;
    let hi: u8 = (n >> 8) as u8;
    match r16 {
        0 => {
            cpu.b = hi;
            cpu.c = lo;
        },
        1 => {
            cpu.d = hi;
            cpu.e = lo;
        },
        2 => {
            cpu.h = hi;
            cpu.l = lo;
        },
        _ => cpu.sp = n,
    }
}

/// Steps HL as a memory operand says: up for `[HL+]`, down for `[HL-]`.
fn step_r16mem(cpu: &mut CPU, r16: u8)
    requires
        r16 < 4,
    ensures
        *final(cpu) == old(cpu).after_r16mem(r16 as int),
{
    let hl: u16 = cpu.get_hl();
    if r16 == 2 {
        cpu.set_hl(hl.wrapping_add(1));
    } else if r16 == 3 {
        cpu.set_hl(hl.wrapping_sub(1));
    }
}

/// The address that a memory operand names.
fn addr_r16mem(cpu: &CPU, r16: u8) -> (addr: u16)
    requires
        r16 < 4,
    ensures
        addr == cpu.r16mem(r16 as int),
{
    match r16 {
        0 => cpu.get_bc(),
        1 => cpu.get_de(),
        _ => cpu.get_hl(),
    }
}

/// Loads A through a memory operand and steps HL where the operand says so.
pub fn get_r16mem(cpu: &mut CPU, mem: &Bus, r16: u8)
    requires
        r16 < 4,
    ensures
        *final(cpu) == (CPU {
            a: mem@.peek(old(cpu).r16mem(r16 as int)),
            ..*old(cpu)
        }).after_r16mem(r16 as int),
{
    cpu.a = mem.peek(addr_r16mem(cpu, r16));
    step_r16mem(cpu, r16);
}

/// Stores A through a memory operand, as a pending store, and steps HL
/// where the operand says so.
pub fn set_r16mem(cpu: &mut CPU, r16: u8) -> (store: Store)
    requires
        r16 < 4,
    ensures
        *final(cpu) == old(cpu).after_r16mem(r16 as int),
        store == Store::Byte(old(cpu).r16mem(r16 as int), old(cpu).a),
{
    let addr: u16 = addr_r16mem(cpu, r16);
    step_r16mem(cpu, r16);
    Store::Byte(addr, cpu.a)
}

/// Reads a stack operand.
pub fn get_r16stk(cpu: &CPU, r16: u8) -> (r: u16)
    requires
        r16 < 4,
    ensures
        r == cpu.r16stk(r16 as int),
{
    match r16 {
        0 => cpu.get_bc(),
        1 => cpu.get_de(),
        2 => cpu.get_hl(),
        _ => {
            proof {
                lemma_pack(cpu.a, cpu.f.z, cpu.f.n, cpu.f.h, cpu.f.c);
            }
            ((cpu.a as u16) << 8) | ((cpu.f.z as u16) << 7) | ((cpu.f.n as u16) << 6) | ((
            cpu.f.h as u16) << 5) | ((cpu.f.c as u16) << 4)
        },
    }
}

/// Writes a stack operand.
pub fn set_r16stk(cpu: &mut CPU, r16: u8, n: u16)
    requires
        r16 < 4,
    ensures
        *final(cpu) == old(cpu).with_r16stk(r16 as int, n),
{
    if r16 == 3 {
        proof {
            lemma_word(n);
            lemma_bits((n % 256) as u8);
        }
        let low: u8 = (n & 0xff) as u8;
        cpu.a = (n >> 8) as u8;
        cpu.f.z = low & 0x80 != 0;
        cpu.f.n = low & 0x40 != 0;
        cpu.f.h = low & 0x20 != 0;
        cpu.f.c = low & 0x10 != 0;
    } else {
        set_r16(cpu, r16, n);
    }
}

/// Evaluates a branch condition.
pub fn get_cond(f: &Flags, cond: u8) -> (r: bool)
    requires
        cond < 4,
    ensures
        r == f.holds(cond as int),
{
    match cond {
        0 => !f.z,
        1 => f.z,
        2 => !f.c,
        _ => f.c,
    }
}

/// The lowest-numbered interrupt that is both flagged and enabled.
pub open spec fn pending(io: IoReg) -> Option<int> {
    if bit(io.interrupt, 0) && bit(io.ie, 0) {
        Some(0)
    } else if bit(io.interrupt, 1) && bit(io.ie, 1) {
        Some(1)
    } else if bit(io.interrupt, 2) && bit(io.ie, 2) {
        Some(2)
    } else if bit(io.interrupt, 3) && bit(io.ie, 3) {
        Some(3)
    } else if bit(io.interrupt, 4) && bit(io.ie, 4) {
        Some(4)
    } else {
        None
    }
}

/// Whether the CPU stays halted: it is halted and no enabled interrupt is flagged.
pub open spec fn idles(gb: GBView) -> bool {
    gb.cpu.halt && pending(gb.bus.io) is None
}

/// Whether the CPU services an interrupt instead of executing an instruction.
pub open spec fn services(gb: GBView) -> bool {
    gb.cpu.ime && pending(gb.bus.io) is Some
}

/// The opcode at PC.
pub open spec fn opcode_at(gb: GBView) -> u8 {
    gb.bus.peek(gb.cpu.pc)
}

/// The byte after the opcode at PC.
pub open spec fn operand_at(gb: GBView) -> u8 {
    gb.bus.peek(next(gb.cpu.pc))
}

/// What the instruction at PC comes to, the CPU being awake.
pub open spec fn fetched(gb: GBView) -> Outcome {
    isa::execute(
        CPU { halt: false, ..gb.cpu },
        gb.bus,
        opcode_at(gb),
        operand_at(gb),
        word(gb.bus.peek(next(next(gb.cpu.pc))), operand_at(gb)),
    )
}

/// The registers once an instruction is over: PC has moved on, and an
/// `EI` that came before this instruction has taken effect.
pub open spec fn retire(out: Outcome) -> CPU {
    CPU {
        pc: wrap16(out.cpu.pc + out.bytes),
        ime: out.cpu.ime || out.cpu.ime_soon,
        ime_soon: !out.cpu.ime_soon && out.ei,
        ..out.cpu
    }
}

/// Whether the bus permits a pending store.
pub open spec fn store_allowed(bus: BusView, store: Store) -> bool {
    match store {
        Store::Skip => true,
        Store::Byte(addr, _) => bus.poke_allowed(addr),
        Store::Word(addr, data) => bus.poke16_allowed(addr, data),
    }
}

/// The bus after a pending store is made.
pub open spec fn after_store(bus: BusView, store: Store) -> BusView {
    match store {
        Store::Skip => bus,
        Store::Byte(addr, data) => bus.poke(addr, data),
        Store::Word(addr, data) => bus.poke16(addr, data),
    }
}

/// The speed register after an armed switch: bit 0 is cleared and bit 7 flipped.
pub open spec fn switched(speed: u8) -> u8 {
    if !bit(speed, 0) {
        speed
    } else if speed >= 128 {
        (speed - 129) as u8
    } else {
        (speed + 127) as u8
    }
}

/// The bus once an instruction is over: its store is made, and `STOP`
/// has carried out an armed speed switch.
pub open spec fn commit(bus: BusView, out: Outcome) -> BusView {
    let written = after_store(bus, out.store);
    if out.stop {
        BusView {
            io: IoReg { speed_switch: switched(written.io.speed_switch), ..written.io },
            ..written
        }
    } else {
        written
    }
}

/// The console after the CPU has serviced interrupt `index`: PC is
/// pushed, the flag is acknowledged, and PC is at the handler.
pub open spec fn serviced(gb: GBView, index: int) -> GBView {
    let sp = wrap16(gb.cpu.sp - 2);
    let pushed = gb.bus.poke16(sp, gb.cpu.pc);
    GBView {
        cpu: CPU {
            halt: false,
            ime: false,
            ime_soon: false,
            sp,
            pc: (0x40 + 8 * index) as u16,
            ..gb.cpu
        },
        bus: BusView {
            io: IoReg { interrupt: lowered(pushed.io.interrupt, index), ..pushed.io },
            ..pushed
        },
        ..gb
    }
}

/// Whether the CPU can take its next step: the opcode exists, and the
/// step writes nothing to the boot ROM while that is mapped.
pub open spec fn cycle_allowed(gb: GBView) -> bool {
    if idles(gb) {
        true
    } else if services(gb) {
        gb.bus.poke16_allowed(wrap16(gb.cpu.sp - 2), gb.cpu.pc)
    } else {
        fetched(gb).legal && store_allowed(gb.bus, fetched(gb).store)
    }
}

/// The console after the next step of the CPU, and the M-cycles that the
/// step takes. A halted CPU idles for one M-cycle unless an enabled
/// interrupt is flagged, which wakes it. With interrupts enabled, the
/// lowest such interrupt is serviced in five M-cycles. Otherwise the
/// instruction at PC is executed.
pub open spec fn spec_cycle(gb: GBView) -> (GBView, u64) {
    if idles(gb) {
        (gb, 1)
    } else if services(gb) {
        (serviced(gb, pending(gb.bus.io).unwrap()), 5)
    } else {
        (
            GBView { cpu: retire(fetched(gb)), bus: commit(gb.bus, fetched(gb)), ..gb },
            fetched(gb).mcycles,
        )
    }
}

/// Whether the bus permits a pending store.
fn check_store(bus: &Bus, store: Store) -> (ok: bool)
    ensures
        ok == store_allowed(bus@, store),
{
    proof {
        reveal(BusView::poke);
    }
    match store {
        Store::Skip => true,
        Store::Byte(addr, _) => addr > 0x00FF || bus.io.hide_boot_rom,
        Store::Word(addr, _) => {
            (addr > 0x00FF || bus.io.hide_boot_rom) && (addr.wrapping_add(1) > 0x00FF
                || bus.io.hide_boot_rom)
        },
    }
}

/// Makes a pending store.
fn make_store(bus: &mut Bus, store: Store)
    requires
        store_allowed(old(bus)@, store),
    ensures
        final(bus)@ == after_store(old(bus)@, store),
{
    match store {
        Store::Skip => {},
        Store::Byte(addr, data) => bus.poke(addr, data),
        Store::Word(addr, data) => bus.poke16(addr, data),
    }
}

/// Finishes an instruction on the registers.
fn retire_cpu(out: &Outcome) -> (cpu: CPU)
    ensures
        cpu == retire(*out),
{
    let mut cpu: CPU = out.cpu;
    if cpu.ime_soon {
        cpu.ime = true;
        cpu.ime_soon = false;
    } else if out.ei {
        cpu.ime_soon = true;
    }
    cpu.pc = cpu.pc.wrapping_add(out.bytes);
    cpu
}

/// Finishes an instruction on the bus.
fn commit_bus(bus: &mut Bus, out: &Outcome)
    requires
        store_allowed(old(bus)@, out.store),
    ensures
        final(bus)@ == commit(old(bus)@, *out),
{
    make_store(bus, out.store);
    if out.stop {
        proof {
            lemma_switch(bus.io.speed_switch);
        }
        if bus.io.speed_switch & 1 != 0 {
            bus.io.speed_switch ^= 0x81;
        }
    }
}

/// Reads the instruction at PC and executes it on a copy of the registers.
fn fetch(gb: &GB) -> (out: Outcome)
    ensures
        out == fetched(gb@),
        out.legal ==> 1 <= out.mcycles <= 6,
{
    let op: u8 = gb.bus.peek(gb.cpu.pc);
    let imm8: u8 = gb.bus.peek(gb.cpu.pc.wrapping_add(1));
    let imm8_2: u8 = gb.bus.peek(gb.cpu.pc.wrapping_add(2));
    let imm16: u16 = (imm8_2 as u16) * 256 + (imm8 as u16);
    let mut awake: CPU = gb.cpu;
    awake.halt = false;
    execute(awake, &gb.bus, op, imm8, imm16)
}

/// The number of the lowest interrupt among those flagged and enabled.
fn lowest(io: &IoReg) -> (r: Option<u8>)
    ensures
        r is Some <==> pending(*io) is Some,
        r matches Some(i) ==> pending(*io) == Some(i as int) && i < 5,
{
    let inter: u8 = io.interrupt & io.ie & 0b11111;
    proof {
        lemma_pending(io.interrupt, io.ie);
    }
    if inter == 0 {
        None
    } else if inter & 1 != 0 {
        Some(0)
    } else if inter & 2 != 0 {
        Some(1)
    } else if inter & 4 != 0 {
        Some(2)
    } else if inter & 8 != 0 {
        Some(3)
    } else {
        Some(4)
    }
}

/// Services interrupt `index` if the push of PC is allowed.
fn service(gb: &mut GB, index: u8) -> (r: Option<u64>)
    requires
        index < 5,
    ensures
        r is Some <==> old(gb)@.bus.poke16_allowed(wrap16(old(gb)@.cpu.sp - 2), old(gb)@.cpu.pc),
        r is Some ==> final(gb)@ == serviced(old(gb)@, index as int) && r == Some(5u64),
        r is None ==> final(gb)@ == old(gb)@,
{
    let sp: u16 = gb.cpu.sp.wrapping_sub(2);
    if !check_store(&gb.bus, Store::Word(sp, gb.cpu.pc)) {
        return None;
    }
    gb.bus.poke16(sp, gb.cpu.pc);
    proof {
        lemma_one_bit(gb.bus.io.interrupt, index);
    }
    gb.bus.io.interrupt = gb.bus.io.interrupt & !(1 << index);
    gb.cpu.halt = false;
    gb.cpu.ime = false;
    gb.cpu.ime_soon = false;
    gb.cpu.sp = sp;
    gb.cpu.pc = 0x40 + 8 * index as u16;
    Some(5)
}

/// Takes the next step of the CPU if it is allowed, and returns the
/// M-cycles that it took; otherwise changes nothing and returns `None`.
pub fn try_cycle(gb: &mut GB) -> (r: Option<u64>)
    ensures
        r is Some <==> cycle_allowed(old(gb)@),
        r matches Some(m) ==> final(gb)@ == spec_cycle(old(gb)@).0 && m == spec_cycle(
            old(gb)@,
        ).1,
        r is None ==> final(gb)@ == old(gb)@,
        r matches Some(m) ==> 1 <= m <= 6,
{
    let waiting: Option<u8> = lowest(&gb.bus.io);
    match waiting {
        None => {
            if gb.cpu.halt {
                return Some(1);
            }
        },
        Some(index) => {
            if gb.cpu.ime {
                return service(gb, index);
            }
        },
    }
    let out: Outcome = fetch(gb);
    if !out.legal || !check_store(&gb.bus, out.store) {
        return None;
    }
    commit_bus(&mut gb.bus, &out);
    gb.cpu = retire_cpu(&out);
    Some(out.mcycles)
}

/// Takes the next step of the CPU: idles, services an interrupt or
/// executes one instruction. Returns the M-cycles that the step took.
pub fn cycle(gb: &mut GB) -> (mcycles: u64)
    requires
        cycle_allowed(old(gb)@),
    ensures
        final(gb)@ == spec_cycle(old(gb)@).0,
        mcycles == spec_cycle(old(gb)@).1,
        1 <= mcycles <= 6,
        !idles(old(gb)@) && !services(old(gb)@) ==> mcycles == isa::mcycles_of(
            opcode_at(old(gb)@),
            operand_at(old(gb)@),
        ).0 || mcycles == isa::mcycles_of(opcode_at(old(gb)@), operand_at(old(gb)@)).1,
{
    proof {
        let g = old(gb)@;
        isa::lemma_timing(
            CPU { halt: false, ..g.cpu },
            g.bus,
            opcode_at(g),
            operand_at(g),
            word(g.bus.peek(next(next(g.cpu.pc))), operand_at(g)),
        );
    }
    match try_cycle(gb) {
        Some(m) => m,
        None => 0,
    }
}

impl Default for Flags {
    /// All flags clear.
    fn default() -> (f: Flags)
        ensures
            f == (Flags { z: false, n: false, h: false, c: false }),
    {
        Flags { z: false, n: false, h: false, c: false }
    }
}

impl Default for CPU {
    /// The CPU at power-on.
    fn default() -> (cpu: CPU)
        ensures
            cpu == CPU::at_power_on(),
    {
        CPU::new()
    }
}

} // verus!
