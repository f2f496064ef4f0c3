//! The debugger console: what its command lines mean, how it shows
//! registers and memory, and how it keeps its breakpoints.

use vstd::prelude::*;
use vstd::string::*;
use vstd::utf8::encode_utf8;
use crate::bus::Bus;
use crate::cpu::CPU;
use crate::verify::{hex_byte, hex_word, push_hex, push_hex_word};
use crate::GB;

verus! {

/// Instructions that `pd` shows unless told otherwise.
pub const DEFAULT_LINES: usize = 10;

/// Bytes that `hd` shows unless told otherwise.
pub const DEFAULT_DUMP: u16 = 0x20;

/// Words of the stack that `c` shows.
pub const STACK_WORDS: u16 = 10;

/// One of the three kinds of logging.
#[derive(Clone, Copy, Debug, PartialEq, Eq, Structural)]
pub enum Topic {
    Bank,
    Cpu,
    Io,
}

/// What a line typed at the console asks for.
#[derive(Clone, Copy, Debug, PartialEq, Eq, Structural)]
pub enum Command {
    /// An empty line, or a `poke` without two good numbers: nothing is done.
    Nothing,
    /// `r`: show the registers.
    Registers,
    /// `p`: pause or go on.
    Pause,
    /// `si`: execute one instruction.
    Step,
    /// `c`: show banks, registers, the next instructions and the stack.
    Context,
    /// `pd [addr] [n]`: disassemble `n` instructions from `addr`, or from PC.
    Disasm(Option<u16>, usize),
    /// `v [bank|cpu|io]`: toggle a kind of logging, and show all three.
    Verbose(Option<Topic>),
    /// `d addr`: remove a breakpoint.
    Delete(u16),
    /// `b addr`: set a breakpoint.
    Break(u16),
    /// `b`: list the breakpoints.
    ListBreaks,
    /// `d` or `b` with something that is no address.
    BadAddress,
    /// `d` without an address.
    MissingAddress,
    /// `poke addr data`: write a byte.
    Poke(u16, u8),
    /// `hd [addr] [size]`: dump `size` bytes from `addr`, or from SP.
    HexDump(Option<u16>, u16),
    /// Anything else.
    Unknown,
}

/// The value of a hexadecimal digit in ASCII, upper or lower case.
pub open spec fn digit_value(b: u8) -> Option<int> {
    if 0x30 <= b <= 0x39 {
        Some(b - 0x30)
    } else if 0x41 <= b <= 0x46 {
        Some(b - 0x41 + 10)
    } else if 0x61 <= b <= 0x66 {
        Some(b - 0x61 + 10)
    } else {
        None
    }
}

/// The number that the first `n` of some hexadecimal digits stand for,
/// if they are digits and the number is at most `max`.
pub open spec fn digits_value(digits: Seq<u8>, n: int, max: int) -> Option<int>
    decreases n,
{
    if n <= 0 {
        Some(0)
    } else {
        match (digits_value(digits, n - 1, max), digit_value(digits[n - 1])) {
            (Some(high), Some(low)) => if 16 * high + low <= max {
                Some(16 * high + low)
            } else {
                None
            },
            _ => None,
        }
    }
}

/// A text without the `+` that may stand before its digits.
pub open spec fn hex_digits(text: Seq<u8>) -> Seq<u8> {
    if text.len() > 0 && text[0] == 0x2B {
        text.subrange(1, text.len() as int)
    } else {
        text
    }
}

/// The number that a text stands for in hexadecimal: at least one
/// digit, behind at most one `+`, and no more than `max`.
pub open spec fn hex_number(text: Seq<u8>, max: int) -> Option<int> {
    let digits = hex_digits(text);
    if digits.len() == 0 {
        None
    } else {
        digits_value(digits, digits.len() as int, max)
    }
}

/// Reads a hexadecimal number of at most `max`.
pub fn parse_hex(text: &str, max: u64) -> (r: Option<u64>)
    ensures
        r is Some <==> hex_number(encode_utf8(text@), max as int) is Some,
        r matches Some(v) ==> hex_number(encode_utf8(text@), max as int) == Some(v as int),
{
    let bytes: &[u8] = text.as_bytes();
    let start: usize = if bytes.len() > 0 && bytes[0] == 0x2B {
        1
    } else {
        0
    };
    if bytes.len() == start {
        return None;
    }
    let ghost digits = hex_digits(bytes@);
    let mut value: u64 = 0;
    let mut i: usize = start;
    while i < bytes.len()
        invariant
            start <= i <= bytes@.len(),
            start <= 1,
            digits == hex_digits(bytes@),
            bytes@ == encode_utf8(text@),
            digits.len() == bytes@.len() - start,
            forall|k: int| 0 <= k < digits.len() ==> digits[k] == bytes@[k + start],
            value <= max,
            digits_value(digits, i - start, max as int) == Some(value as int),
        decreases bytes@.len() - i,
    {
        let b: u8 = bytes[i];
        assert(digits[i - start] == b);
        let low: u64 = if 0x30 <= b && b <= 0x39 {
            (b - 0x30) as u64
        } else if 0x41 <= b && b <= 0x46 {
            (b - 0x41) as u64 + 10
        } else if 0x61 <= b && b <= 0x66 {
            (b - 0x61) as u64 + 10
        } else {
            proof {
                lemma_digits_fail(digits, i - start + 1, digits.len() as int, max as int);
            }
            return None;
        };
        if low > max || value > (max - low) / 16 {
            proof {
                lemma_digits_fail(digits, i - start + 1, digits.len() as int, max as int);
            }
            return None;
        }
        value = 16 * value + low;
        i += 1;
    }
    Some(value)
}

/// Once a prefix of the digits stands for no number, neither does a longer one.
proof fn lemma_digits_fail(digits: Seq<u8>, n: int, m: int, max: int)
    requires
        0 <= n <= m,
        digits_value(digits, n, max) is None,
    ensures
        digits_value(digits, m, max) is None,
    decreases m - n,
{
    if n < m {
        lemma_digits_fail(digits, n, m - 1, max);
    }
}

/// Whether two texts are the same.
fn same(a: &str, b: &str) -> (r: bool)
    ensures
        r == (a@ == b@),
{
    let x: String = a.to_owned();
    let y: String = b.to_owned();
    x == y
}

/// A text in lower case, as `str::to_lowercase` gives it.
pub uninterp spec fn lowercase_of(text: Seq<char>) -> Seq<char>;

/// Calls `str::to_lowercase`: the result is the lower-case form of the
/// text, which depends on the text alone.
#[verifier::external_body]
fn to_lowercase(text: &str) -> (r: String)
    ensures
        r@ == lowercase_of(text@),
{
    text.to_lowercase()
}

/// An address given as the word at `index`, if there is such a word and it is one.
pub open spec fn address_at(words: Seq<String>, index: int) -> Option<u16> {
    if index < words.len() {
        match hex_number(encode_utf8(words[index]@), 0xFFFF) {
            Some(v) => Some(v as u16),
            None => None,
        }
    } else {
        None
    }
}

/// The kind of logging that a word in lower case names.
pub open spec fn topic_named(lower: Seq<char>) -> Option<Topic> {
    if lower == "bank"@ {
        Some(Topic::Bank)
    } else if lower == "cpu"@ {
        Some(Topic::Cpu)
    } else if lower == "io"@ {
        Some(Topic::Io)
    } else {
        None
    }
}

/// The kind of logging that a word names, in any case of letters.
pub open spec fn topic_of(word: Seq<char>) -> Option<Topic> {
    topic_named(lowercase_of(word))
}

/// Tells which kind of logging a word in lower case names.
pub fn parse_topic(lower: &str) -> (topic: Option<Topic>)
    ensures
        topic == topic_named(lower@),
{
    if same(lower, "bank") {
        Some(Topic::Bank)
    } else if same(lower, "cpu") {
        Some(Topic::Cpu)
    } else if same(lower, "io") {
        Some(Topic::Io)
    } else {
        None
    }
}

/// What the words of a line ask for.
pub open spec fn command_of(words: Seq<String>) -> Command {
    if words.len() == 0 {
        Command::Nothing
    } else if words[0]@ == "r"@ {
        Command::Registers
    } else if words[0]@ == "p"@ {
        Command::Pause
    } else if words[0]@ == "si"@ {
        Command::Step
    } else if words[0]@ == "c"@ {
        Command::Context
    } else if words[0]@ == "pd"@ {
        Command::Disasm(
            address_at(words, 1),
            if words.len() > 2 {
                match hex_number(encode_utf8(words[2]@), usize::MAX as int) {
                    Some(n) => n as usize,
                    None => DEFAULT_LINES,
                }
            } else {
                DEFAULT_LINES
            },
        )
    } else if words[0]@ == "v"@ {
        Command::Verbose(
            if words.len() > 1 {
                topic_of(words[1]@)
            } else {
                None
            },
        )
    } else if words[0]@ == "d"@ {
        if words.len() < 2 {
            Command::MissingAddress
        } else {
            match address_at(words, 1) {
                Some(n) => Command::Delete(n),
                None => Command::BadAddress,
            }
        }
    } else if words[0]@ == "b"@ {
        if words.len() < 2 {
            Command::ListBreaks
        } else {
            match address_at(words, 1) {
                Some(n) => Command::Break(n),
                None => Command::BadAddress,
            }
        }
    } else if words[0]@ == "poke"@ {
        if words.len() < 3 {
            Command::Nothing
        } else {
            match (address_at(words, 1), hex_number(encode_utf8(words[2]@), 0xFF)) {
                (Some(addr), Some(data)) => Command::Poke(addr, data as u8),
                _ => Command::Nothing,
            }
        }
    } else if words[0]@ == "hd"@ {
        Command::HexDump(
            address_at(words, 1),
            match address_at(words, 2) {
                Some(size) => size,
                None => DEFAULT_DUMP,
            },
        )
    } else {
        Command::Unknown
    }
}

/// Reads the word at `index` as an address.
fn parse_address(words: &Vec<String>, index: usize) -> (r: Option<u16>)
    ensures
        r == address_at(words@, index as int),
{
    if index < words.len() {
        match parse_hex(words[index].as_str(), 0xFFFF) {
            Some(v) => Some(v as u16),
            None => None,
        }
    } else {
        None
    }
}

/// Tells what the words of a line ask for.
pub fn parse_command(words: &Vec<String>) -> (command: Command)
    ensures
        command == command_of(words@),
{
    if words.len() == 0 {
        return Command::Nothing;
    }
    let first: &str = words[0].as_str();
    if same(first, "r") {
        Command::Registers
    } else if same(first, "p") {
        Command::Pause
    } else if same(first, "si") {
        Command::Step
    } else if same(first, "c") {
        Command::Context
    } else if same(first, "pd") {
        let count: usize = if words.len() > 2 {
            match parse_hex(words[2].as_str(), usize::MAX as u64) {
                Some(n) => n as usize,
                None => DEFAULT_LINES,
            }
        } else {
            DEFAULT_LINES
        };
        Command::Disasm(parse_address(words, 1), count)
    } else if same(first, "v") {
        if words.len() > 1 {
            let lower: String = to_lowercase(words[1].as_str());
            Command::Verbose(parse_topic(lower.as_str()))
        } else {
            Command::Verbose(None)
        }
    } else if same(first, "d") {
        if words.len() < 2 {
            Command::MissingAddress
        } else {
            match parse_address(words, 1) {
                Some(n) => Command::Delete(n),
                None => Command::BadAddress,
            }
        }
    } else if same(first, "b") {
        if words.len() < 2 {
            Command::ListBreaks
        } else {
            match parse_address(words, 1) {
                Some(n) => Command::Break(n),
                None => Command::BadAddress,
            }
        }
    } else if same(first, "poke") {
        if words.len() < 3 {
            Command::Nothing
        } else {
            match (parse_address(words, 1), parse_hex(words[2].as_str(), 0xFF)) {
                (Some(addr), Some(data)) => Command::Poke(addr, data as u8),
                _ => Command::Nothing,
            }
        }
    } else if same(first, "hd") {
        let size: u16 = match parse_address(words, 2) {
            Some(size) => size,
            None => DEFAULT_DUMP,
        };
        Command::HexDump(parse_address(words, 1), size)
    } else {
        Command::Unknown
    }
}

/// Sets a breakpoint: the address goes to the end of the list unless it is in it.
pub fn add_breakpoint(breakpoints: &mut Vec<u16>, addr: u16)
    ensures
        final(breakpoints)@ == (if old(breakpoints)@.contains(addr) {
            old(breakpoints)@
        } else {
            old(breakpoints)@.push(addr)
        }),
{
    let mut i: usize = 0;
    while i < breakpoints.len()
        invariant
            i <= breakpoints@.len(),
            *breakpoints == *old(breakpoints),
            forall|k: int| 0 <= k < i ==> breakpoints@[k] != addr,
        decreases breakpoints@.len() - i,
    {
        if breakpoints[i] == addr {
            return ;
        }
        i += 1;
    }
    breakpoints.push(addr);
}

/// Removes a breakpoint: every entry with that address leaves the
/// list, and the others stay in their order.
pub fn remove_breakpoint(breakpoints: &mut Vec<u16>, addr: u16)
    ensures
        final(breakpoints)@ == old(breakpoints)@.filter(|x: u16| x != addr),
{
    let mut kept: Vec<u16> = Vec::new();
    let mut i: usize = 0;
    while i < breakpoints.len()
        invariant
            i <= breakpoints@.len(),
            *breakpoints == *old(breakpoints),
            kept@ == breakpoints@.subrange(0, i as int).filter(|x: u16| x != addr),
        decreases breakpoints@.len() - i,
    {
        let x: u16 = breakpoints[i];
        proof {
            let pred = |x: u16| x != addr;
            let front = breakpoints@.subrange(0, i as int);
            assert(breakpoints@.subrange(0, i + 1) =~= front.push(x));
            assert(front.push(x).drop_last() =~= front);
            reveal(Seq::filter);
        }
        if x != addr {
            kept.push(x);
        }
        i += 1;
    }
    assert(breakpoints@.subrange(0, breakpoints@.len() as int) =~= breakpoints@);
    *breakpoints = kept;
}

/// One binary digit.
pub open spec fn flag_char(b: bool) -> char {
    if b {
        '1'
    } else {
        '0'
    }
}

/// How the interrupt master flag shows: `Y` when set, `S` when it is
/// about to be set, else `N`.
pub open spec fn ime_char(cpu: CPU) -> char {
    if cpu.ime {
        'Y'
    } else if cpu.ime_soon {
        'S'
    } else {
        'N'
    }
}

/// The flags as they show in the line of registers.
pub open spec fn flags_text(cpu: CPU) -> Seq<char> {
    "znhc:"@ + seq![flag_char(cpu.f.z)] + seq![flag_char(cpu.f.n)] + seq![flag_char(cpu.f.h)]
        + seq![flag_char(cpu.f.c)]
}

/// The 8-bit registers as they show in the line of registers.
pub open spec fn pairs_text(cpu: CPU) -> Seq<char> {
    " A:"@ + hex_byte(cpu.a) + " BC:"@ + hex_byte(cpu.b) + hex_byte(cpu.c) + " DE:"@ + hex_byte(
        cpu.d,
    ) + hex_byte(cpu.e) + " HL:"@ + hex_byte(cpu.h) + hex_byte(cpu.l)
}

/// SP, PC and the interrupt master flag as they show in the line of registers.
pub open spec fn pointers_text(cpu: CPU) -> Seq<char> {
    " SP:"@ + hex_word(cpu.sp) + " PC:"@ + hex_word(cpu.pc) + " IME:"@ + seq![ime_char(cpu)]
}

/// The registers in one line.
pub open spec fn registers_text(cpu: CPU) -> Seq<char> {
    flags_text(cpu) + pairs_text(cpu) + pointers_text(cpu)
}

/// Writes one binary digit.
fn push_flag(out: &mut String, b: bool)
    ensures
        final(out)@ == old(out)@ + seq![flag_char(b)],
{
    proof {
        reveal_strlit("1");
        reveal_strlit("0");
    }
    if b {
        out.append("1");
    } else {
        out.append("0");
    }
}

/// Writes the flags.
fn push_flags(out: &mut String, cpu: &CPU)
    ensures
        final(out)@ == old(out)@ + flags_text(*cpu),
{
    let ghost before = out@;
    out.append("znhc:");
    push_flag(out, cpu.f.z);
    push_flag(out, cpu.f.n);
    push_flag(out, cpu.f.h);
    push_flag(out, cpu.f.c);
    assert(out@ =~= before + flags_text(*cpu));
}

/// Writes the 8-bit registers.
fn push_pairs(out: &mut String, cpu: &CPU)
    ensures
        final(out)@ == old(out)@ + pairs_text(*cpu),
{
    let ghost before = out@;
    out.append(" A:");
    push_hex(out, cpu.a);
    out.append(" BC:");
    push_hex(out, cpu.b);
    push_hex(out, cpu.c);
    assert(out@ =~= before + (" A:"@ + hex_byte(cpu.a) + " BC:"@ + hex_byte(cpu.b) + hex_byte(
        cpu.c,
    )));
    out.append(" DE:");
    push_hex(out, cpu.d);
    push_hex(out, cpu.e);
    assert(out@ =~= before + (" A:"@ + hex_byte(cpu.a) + " BC:"@ + hex_byte(cpu.b) + hex_byte(
        cpu.c,
    ) + " DE:"@ + hex_byte(cpu.d) + hex_byte(cpu.e)));
    out.append(" HL:");
    push_hex(out, cpu.h);
    push_hex(out, cpu.l);
    assert(out@ =~= before + pairs_text(*cpu));
}

/// Writes SP, PC and the interrupt master flag.
fn push_pointers(out: &mut String, cpu: &CPU)
    ensures
        final(out)@ == old(out)@ + pointers_text(*cpu),
{
    proof {
        reveal_strlit("Y");
        reveal_strlit("S");
        reveal_strlit("N");
    }
    let ghost before = out@;
    out.append(" SP:");
    push_hex_word(out, cpu.sp);
    out.append(" PC:");
    push_hex_word(out, cpu.pc);
    out.append(" IME:");
    if cpu.ime {
        out.append("Y");
    } else if cpu.ime_soon {
        out.append("S");
    } else {
        out.append("N");
    }
    assert(out@ =~= before + pointers_text(*cpu));
}

/// Shows the registers in one line.
pub fn registers_line(cpu: &CPU) -> (line: String)
    ensures
        line@ == registers_text(*cpu),
{
    let mut r: String = String::new();
    push_flags(&mut r, cpu);
    push_pairs(&mut r, cpu);
    push_pointers(&mut r, cpu);
    assert(r@ =~= registers_text(*cpu));
    r
}

/// A word of memory in one line: its address, its two bytes in the
/// order of memory, and its value.
pub open spec fn word_text(addr: u16, data: u16) -> Seq<char> {
    hex_word(addr) + ": ["@ + hex_byte((data % 256) as u8) + ", "@ + hex_byte((data / 256) as u8)
        + "] ("@ + hex_word(data) + ")"@
}

/// Shows a word of memory in one line.
pub fn word_line(addr: u16, data: u16) -> (line: String)
    ensures
        line@ == word_text(addr, data),
{
    proof {
        crate::bits::lemma_word(data);
    }
    let mut r: String = String::new();
    push_hex_word(&mut r, addr);
    r.append(": [");
    push_hex(&mut r, (data & 0xff) as u8);
    r.append(", ");
    push_hex(&mut r, (data >> 8) as u8);
    r.append("] (");
    push_hex_word(&mut r, data);
    r.append(")");
    assert(r@ =~= word_text(addr, data));
    r
}

/// The address `2 k` bytes after `addr`, round the top of memory.
pub open spec fn word_address(addr: u16, k: int) -> u16 {
    ((addr + 2 * k) % 0x10000) as u16
}

/// Shows `count` words of memory from `addr` on, one line each.
pub fn dump_words(bus: &Bus, addr: u16, count: u16) -> (lines: Vec<String>)
    ensures
        lines@.len() == count,
        forall|k: int|
            0 <= k < count ==> (#[trigger] lines@[k])@ == word_text(
                word_address(addr, k),
                bus@.peek16(word_address(addr, k)),
            ),
{
    let mut lines: Vec<String> = Vec::new();
    let mut at: u16 = addr;
    let mut i: u16 = 0;
    while i < count
        invariant
            i <= count,
            lines@.len() == i,
            at == word_address(addr, i as int),
            forall|k: int|
                0 <= k < i ==> (#[trigger] lines@[k])@ == word_text(
                    word_address(addr, k),
                    bus@.peek16(word_address(addr, k)),
                ),
        decreases count - i,
    {
        lines.push(word_line(at, bus.peek16(at)));
        at = at.wrapping_add(2);
        i += 1;
    }
    lines
}

/// How many words `hd` shows: those that begin before the end of the
/// dump, which is `size` bytes after `addr` and at most `FFFF`.
pub open spec fn dump_count(addr: u16, size: u16) -> int {
    if addr + size > 0xFFFF {
        (0xFFFF - addr + 1) / 2
    } else {
        (size + 1) / 2
    }
}

/// Shows the words of memory from `addr` up to `size` bytes on, one
/// line each; the dump ends at `FFFF` at the latest.
pub fn hex_dump(bus: &Bus, addr: u16, size: u16) -> (lines: Vec<String>)
    ensures
        lines@.len() == dump_count(addr, size),
        forall|k: int|
            0 <= k < lines@.len() ==> (#[trigger] lines@[k])@ == word_text(
                (addr + 2 * k) as u16,
                bus@.peek16((addr + 2 * k) as u16),
            ),
{
    let end: u16 = if addr as u32 + size as u32 > 0xFFFF {
        0xFFFF
    } else {
        addr + size
    };
    let count: u16 = ((end as u32 - addr as u32 + 1) / 2) as u16;
    let lines = dump_words(bus, addr, count);
    assert forall|k: int| 0 <= k < count implies word_address(addr, k) == addr + 2 * k by {
        assert(addr + 2 * k < 0x10000);
    }
    lines
}

/// Shows the ten words of the stack from SP on, one line each.
pub fn stack_lines(gb: &GB) -> (lines: Vec<String>)
    ensures
        lines@.len() == STACK_WORDS,
        forall|k: int|
            0 <= k < STACK_WORDS ==> (#[trigger] lines@[k])@ == word_text(
                word_address(gb@.cpu.sp, k),
                gb@.bus.peek16(word_address(gb@.cpu.sp, k)),
            ),
{
    dump_words(&gb.bus, gb.cpu.sp, STACK_WORDS)
}

} // verus!
