//! A cross-check of the interpreter against the instruction listing, and
//! the disassembler that the listing makes possible.

use vstd::prelude::*;
use vstd::string::*;
use crate::bus::next;
use crate::opcodes::Opcodes;
use crate::{GBView, GB};

verus! {

/// The tables drawn from the listing.
pub struct Verify {
    /// The T-cycles of each instruction behind the `CB` prefix.
    pub cycles_cb: Vec<Vec<u64>>,
    /// The T-cycles of each unprefixed instruction.
    pub cycles_un: Vec<Vec<u64>>,
    /// The text of each instruction: the unprefixed ones, then those behind `CB`.
    pub instructions: Vec<String>,
    /// The length of each instruction by its first byte.
    pub instruction_size: Vec<u16>,
}

/// The character for a hexadecimal digit, in lower case.
pub open spec fn hex_char(n: int) -> char {
    if n == 0 {
        '0'
    } else if n == 1 {
        '1'
    } else if n == 2 {
        '2'
    } else if n == 3 {
        '3'
    } else if n == 4 {
        '4'
    } else if n == 5 {
        '5'
    } else if n == 6 {
        '6'
    } else if n == 7 {
        '7'
    } else if n == 8 {
        '8'
    } else if n == 9 {
        '9'
    } else if n == 10 {
        'a'
    } else if n == 11 {
        'b'
    } else if n == 12 {
        'c'
    } else if n == 13 {
        'd'
    } else if n == 14 {
        'e'
    } else {
        'f'
    }
}

/// A byte as two hexadecimal digits.
pub open spec fn hex_byte(b: u8) -> Seq<char> {
    seq![hex_char(b as int / 16), hex_char(b as int % 16)]
}

/// A word as four hexadecimal digits.
pub open spec fn hex_word(w: u16) -> Seq<char> {
    hex_byte((w / 256) as u8) + hex_byte((w % 256) as u8)
}

/// The first `n` of the bytes in hexadecimal, with a space between two.
pub open spec fn hex_bytes(mem: Seq<u8>, n: int) -> Seq<char>
    decreases n,
{
    if n <= 0 {
        Seq::empty()
    } else if n == 1 {
        hex_byte(mem[0])
    } else {
        hex_bytes(mem, n - 1) + seq![' '] + hex_byte(mem[n - 1])
    }
}

/// `n` spaces.
pub open spec fn spaces(n: int) -> Seq<char>
    decreases n,
{
    if n <= 0 {
        Seq::empty()
    } else {
        spaces(n - 1) + seq![' ']
    }
}

/// A text filled up with spaces to eight characters.
pub open spec fn padded(text: Seq<char>) -> Seq<char> {
    text + spaces(8 - text.len())
}

/// Writes the two hexadecimal digits of a byte.
pub fn push_hex(out: &mut String, b: u8)
    ensures
        final(out)@ == old(out)@ + hex_byte(b),
{
    let ghost before = out@;
    push_digit(out, b / 16);
    push_digit(out, b % 16);
    assert(out@ =~= before + hex_byte(b));
}

/// Writes the four hexadecimal digits of a word.
pub fn push_hex_word(out: &mut String, w: u16)
    ensures
        final(out)@ == old(out)@ + hex_word(w),
{
    let ghost before = out@;
    proof {
        crate::bits::lemma_word(w);
    }
    push_hex(out, (w >> 8) as u8);
    push_hex(out, (w & 0xff) as u8);
    assert(out@ =~= before + hex_word(w));
}

/// Writes one hexadecimal digit.
fn push_digit(out: &mut String, n: u8)
    requires
        n < 16,
    ensures
        final(out)@ == old(out)@ + seq![hex_char(n as int)],
{
    proof {
        reveal_strlit("0");
        reveal_strlit("1");
        reveal_strlit("2");
        reveal_strlit("3");
        reveal_strlit("4");
        reveal_strlit("5");
        reveal_strlit("6");
        reveal_strlit("7");
        reveal_strlit("8");
        reveal_strlit("9");
        reveal_strlit("a");
        reveal_strlit("b");
        reveal_strlit("c");
        reveal_strlit("d");
        reveal_strlit("e");
        reveal_strlit("f");
    }
    let digit: &'static str = match n {
        0 => "0",
        1 => "1",
        2 => "2",
        3 => "3",
        4 => "4",
        5 => "5",
        6 => "6",
        7 => "7",
        8 => "8",
        9 => "9",
        10 => "a",
        11 => "b",
        12 => "c",
        13 => "d",
        14 => "e",
        _ => "f",
    };
    out.append(digit);
}

impl Verify {
    /// Whether every table has an entry for every index.
    pub open spec fn wf(self) -> bool {
        &&& self.cycles_cb@.len() == 0x100
        &&& self.cycles_un@.len() == 0x100
        &&& self.instructions@.len() == 0x200
        &&& self.instruction_size@.len() == 0x100
    }

    /// Whether the tables are drawn from a listing: the T-cycles and the
    /// text of every entry, and the length of every instruction, that of
    /// the `CB` prefix being 2 for the prefix and the byte behind it.
    pub open spec fn drawn_from(self, opcodes: Opcodes) -> bool {
        &&& self.wf()
        &&& forall|i: int|
            0 <= i < 0x100 ==> (#[trigger] self.cycles_un@[i])@ == opcodes.unprefixed@[i].cycles@
        &&& forall|i: int|
            0 <= i < 0x100 ==> (#[trigger] self.cycles_cb@[i])@ == opcodes.cbprefixed@[i].cycles@
        &&& forall|i: int|
            0 <= i < 0x100 ==> (#[trigger] self.instructions@[i])@ == opcodes.unprefixed@[i].text()
        &&& forall|i: int|
            0x100 <= i < 0x200 ==> (#[trigger] self.instructions@[i])@ == opcodes.cbprefixed@[i
                - 0x100].text()
        &&& forall|i: int|
            0 <= i < 0x100 ==> #[trigger] self.instruction_size@[i] == (if i == 0xCB {
                2u16
            } else {
                opcodes.unprefixed@[i].bytes
            })
    }

    /// The T-cycles that the listing admits for an instruction, by its
    /// first two bytes.
    pub open spec fn timings(self, pair: (u8, u8)) -> Seq<u64> {
        if pair.0 == 0xCB {
            self.cycles_cb@[pair.1 as int]@
        } else {
            self.cycles_un@[pair.0 as int]@
        }
    }

    /// The text of an instruction, by its first two bytes.
    pub open spec fn mnemonic(self, mem: Seq<u8>) -> Seq<char> {
        if mem[0] == 0xCB {
            self.instructions@[mem[1] + 0x100]@
        } else {
            self.instructions@[mem[0] as int]@
        }
    }

    /// How many of three bytes the disassembly shows: the length of the
    /// instruction, and no more than there are.
    pub open spec fn shown(self, mem: Seq<u8>) -> int {
        if self.instruction_size@[mem[0] as int] >= 3 {
            3
        } else {
            self.instruction_size@[mem[0] as int] as int
        }
    }

    /// One line of disassembly: the bytes of the instruction in
    /// hexadecimal, filled up to eight characters, then ` - ` and the text.
    pub open spec fn line(self, mem: Seq<u8>) -> Seq<char> {
        padded(hex_bytes(mem, self.shown(mem))) + seq![' ', '-', ' '] + self.mnemonic(mem)
    }

    /// Draws the tables from a listing.
    pub fn new(opcodes: &Opcodes) -> (verify: Verify)
        requires
            opcodes.complete(),
        ensures
            verify.drawn_from(*opcodes),
    {
        let mut cycles_cb: Vec<Vec<u64>> = Vec::new();
        let mut cycles_un: Vec<Vec<u64>> = Vec::new();
        let mut instructions: Vec<String> = Vec::new();
        let mut instruction_size: Vec<u16> = Vec::new();
        let mut i: usize = 0;
        while i < 0x100
            invariant
                i <= 0x100,
                opcodes.complete(),
                cycles_cb@.len() == i,
                cycles_un@.len() == i,
                instructions@.len() == i,
                instruction_size@.len() == i,
                forall|k: int|
                    0 <= k < i ==> (#[trigger] cycles_un@[k])@ == opcodes.unprefixed@[k].cycles@,
                forall|k: int|
                    0 <= k < i ==> (#[trigger] cycles_cb@[k])@ == opcodes.cbprefixed@[k].cycles@,
                forall|k: int|
                    0 <= k < i ==> (#[trigger] instructions@[k])@ == opcodes.unprefixed@[k].text(),
                forall|k: int|
                    0 <= k < i ==> #[trigger] instruction_size@[k] == (if k == 0xCB {
                        2u16
                    } else {
                        opcodes.unprefixed@[k].bytes
                    }),
            decreases 0x100 - i,
        {
            let un_inst = &opcodes.unprefixed[i];
            let cb_inst = &opcodes.cbprefixed[i];
            cycles_un.push(copy_cycles(&un_inst.cycles));
            cycles_cb.push(copy_cycles(&cb_inst.cycles));
            instruction_size.push(
                if i == 0xcb {
                    2
                } else {
                    un_inst.bytes
                },
            );
            instructions.push(un_inst.render());
            i += 1;
        }
        let mut j: usize = 0;
        while j < 0x100
            invariant
                j <= 0x100,
                opcodes.complete(),
                instructions@.len() == 0x100 + j,
                forall|k: int|
                    0 <= k < 0x100 ==> (#[trigger] instructions@[k])@
                        == opcodes.unprefixed@[k].text(),
                forall|k: int|
                    0x100 <= k < 0x100 + j ==> (#[trigger] instructions@[k])@
                        == opcodes.cbprefixed@[k - 0x100].text(),
            decreases 0x100 - j,
        {
            instructions.push(opcodes.cbprefixed[j].render());
            j += 1;
        }
        Verify { cycles_cb, cycles_un, instructions, instruction_size }
    }

    /// Says whether the listing admits `cyc` M-cycles, which are four
    /// T-cycles each, for the instruction with these first two bytes.
    pub fn cycles(&self, cyc: u64, pair: (u8, u8)) -> (admitted: bool)
        requires
            self.wf(),
        ensures
            admitted == (exists|i: int|
                0 <= i < self.timings(pair).len() && #[trigger] self.timings(pair)[i] == cyc * 4),
    {
        let timings: &Vec<u64> = if pair.0 == 0xcb {
            &self.cycles_cb[pair.1 as usize]
        } else {
            &self.cycles_un[pair.0 as usize]
        };
        if cyc > u64::MAX / 4 {
            return false;
        }
        let tcycles: u64 = cyc * 4;
        let mut i: usize = 0;
        while i < timings.len()
            invariant
                i <= timings@.len(),
                timings@ == self.timings(pair),
                tcycles == cyc * 4,
                forall|k: int| 0 <= k < i ==> timings@[k] != tcycles,
            decreases timings@.len() - i,
        {
            if timings[i] == tcycles {
                return true;
            }
            i += 1;
        }
        false
    }

    /// Disassembles the instruction that three bytes begin with: returns
    /// the line and the length of the instruction.
    pub fn disasm(&self, mem: [u8; 3]) -> (r: (String, u16))
        requires
            self.wf(),
        ensures
            r.0@ == self.line(mem@),
            r.1 == self.instruction_size@[mem[0] as int],
    {
        let inst_index: usize = if mem[0] == 0xcb {
            mem[1] as usize + 0x100
        } else {
            mem[0] as usize
        };
        let size: u16 = self.instruction_size[mem[0] as usize];
        let shown: usize = if size >= 3 {
            3
        } else {
            size as usize
        };
        let mut r: String = String::new();
        let mut i: usize = 0;
        proof {
            reveal_strlit(" ");
            reveal_strlit(" - ");
        }
        while i < shown
            invariant
                i <= shown <= 3,
                r@ == hex_bytes(mem@, i as int),
                " "@ == seq![' '],
            decreases shown - i,
        {
            if i > 0 {
                r.append(" ");
            }
            push_hex(&mut r, mem[i]);
            i += 1;
            assert(r@ =~= hex_bytes(mem@, i as int));
        }
        let ghost dump = r@;
        let width: usize = if shown == 0 {
            0
        } else {
            3 * shown - 1
        };
        proof {
            lemma_hex_bytes_len(mem@, shown as int);
        }
        let mut filled: usize = width;
        proof {
            assert(r@ =~= dump + spaces(0));
        }
        while filled < 8
            invariant
                width <= filled <= 8,
                dump.len() == width,
                r@ == dump + spaces(filled - width),
                " "@ == seq![' '],
            decreases 8 - filled,
        {
            r.append(" ");
            filled += 1;
            assert(r@ =~= dump + spaces(filled - width));
        }
        r.append(" - ");
        r.append(self.instructions[inst_index].as_str());
        (r, size)
    }
}

/// A copy of a list of T-cycles.
fn copy_cycles(cycles: &Vec<u64>) -> (copy: Vec<u64>)
    ensures
        copy@ == cycles@,
{
    let mut copy: Vec<u64> = Vec::new();
    let mut i: usize = 0;
    while i < cycles.len()
        invariant
            i <= cycles@.len(),
            copy@ == cycles@.subrange(0, i as int),
        decreases cycles@.len() - i,
    {
        copy.push(cycles[i]);
        i += 1;
        assert(copy@ =~= cycles@.subrange(0, i as int));
    }
    assert(cycles@.subrange(0, cycles@.len() as int) =~= cycles@);
    copy
}

/// A dump of `n` bytes is `3 n - 1` characters long, and empty for none.
proof fn lemma_hex_bytes_len(mem: Seq<u8>, n: int)
    ensures
        hex_bytes(mem, n).len() == (if n <= 0 {
            0
        } else {
            3 * n - 1
        }),
    decreases n,
{
    if n > 1 {
        lemma_hex_bytes_len(mem, n - 1);
    }
}

/// The address of the instruction `k` instructions after the one at `addr`.
pub open spec fn following(verify: Verify, gb: GBView, addr: u16, k: int) -> u16
    decreases k,
{
    if k <= 0 {
        addr
    } else {
        let at = following(verify, gb, addr, k - 1);
        crate::alu::wrap16(at + verify.instruction_size@[gb.bus.peek(at) as int])
    }
}

/// The three bytes at an address.
pub open spec fn three_at(gb: GBView, addr: u16) -> Seq<u8> {
    seq![gb.bus.peek(addr), gb.bus.peek(next(addr)), gb.bus.peek(next(next(addr)))]
}

/// One line of a listing: the address in hexadecimal, `: `, and the disassembly.
pub open spec fn listing_line(verify: Verify, gb: GBView, addr: u16) -> Seq<char> {
    hex_word(addr) + seq![':', ' '] + verify.line(three_at(gb, addr))
}

/// Disassembles `n` instructions in a row from `addr` on, one line each.
pub fn disasm_multi(verify: &Verify, gb: &GB, addr: u16, n: usize) -> (lines: Vec<String>)
    requires
        verify.wf(),
    ensures
        lines@.len() == n,
        forall|k: int|
            0 <= k < n ==> (#[trigger] lines@[k])@ == listing_line(
                *verify,
                gb@,
                following(*verify, gb@, addr, k),
            ),
{
    let mut r: Vec<String> = Vec::new();
    let mut at: u16 = addr;
    let mut i: usize = 0;
    proof {
        reveal_strlit(": ");
    }
    while i < n
        invariant
            i <= n,
            verify.wf(),
            r@.len() == i,
            at == following(*verify, gb@, addr, i as int),
            ": "@ == seq![':', ' '],
            forall|k: int|
                0 <= k < i ==> (#[trigger] r@[k])@ == listing_line(
                    *verify,
                    gb@,
                    following(*verify, gb@, addr, k),
                ),
        decreases n - i,
    {
        let mem: [u8; 3] = [
            gb.bus.peek(at),
            gb.bus.peek(at.wrapping_add(1)),
            gb.bus.peek(at.wrapping_add(2)),
        ];
        assert(mem@ =~= three_at(gb@, at));
        let line: (String, u16) = verify.disasm(mem);
        let mut new_s: String = String::new();
        push_hex_word(&mut new_s, at);
        new_s.append(": ");
        new_s.append(line.0.as_str());
        r.push(new_s);
        at = at.wrapping_add(line.1);
        i += 1;
    }
    r
}

} // verus!
