use gameboy_core::opcodes::{Opcode, Opcodes, Operand};
use gameboy_core::verify::{disasm_multi, Verify};
use gameboy_core::GB;

fn operand(name: &str, immediate: bool) -> Operand {
    Operand { name: name.to_string(), bytes: None, immediate }
}

fn opcode(mnemonic: &str, operands: Vec<Operand>, bytes: u16, cycles: Vec<u64>) -> Opcode {
    Opcode { bytes, cycles, flags: vec![], immediate: true, mnemonic: mnemonic.to_string(), operands }
}

fn listing() -> Opcodes {
    let mut unprefixed = vec![];
    let mut cbprefixed = vec![];
    for i in 0..256usize {
        let un = match i {
            0x00 => opcode("NOP", vec![], 1, vec![4]),
            0x01 => opcode("LD", vec![operand("BC", true), operand("n16", true)], 3, vec![12]),
            0x20 => opcode("JR", vec![operand("NZ", true), operand("e8", true)], 2, vec![12, 8]),
            0x36 => opcode("LD", vec![operand("HL", false), operand("n8", true)], 2, vec![12]),
            0xCB => opcode("PREFIX", vec![], 1, vec![4]),
            _ => opcode("DB", vec![], 1, vec![4]),
        };
        let cb = match i {
            0x46 => opcode("BIT", vec![operand("0", true), operand("HL", false)], 2, vec![12]),
            _ => opcode("RLC", vec![operand("B", true)], 2, vec![8]),
        };
        unprefixed.push(un);
        cbprefixed.push(cb);
    }
    Opcodes { unprefixed, cbprefixed }
}

#[test]
fn render_brackets_addresses() {
    assert_eq!(opcode("NOP", vec![], 1, vec![]).render(), "NOP");
    assert_eq!(
        opcode("LD", vec![operand("HL", false), operand("n8", true)], 2, vec![]).render(),
        "LD [HL] n8"
    );
    assert_eq!(
        opcode("LD", vec![operand("a16", false), operand("SP", true)], 3, vec![]).render(),
        "LD [a16] SP"
    );
}

#[test]
fn incomplete_listing_is_told_apart() {
    let mut l = listing();
    assert!(l.is_complete());
    l.cbprefixed.pop();
    assert!(!l.is_complete());
}

#[test]
fn tables_are_drawn_from_the_listing() {
    let v = Verify::new(&listing());
    assert_eq!(v.cycles_un.len(), 256);
    assert_eq!(v.cycles_cb.len(), 256);
    assert_eq!(v.instructions.len(), 512);
    assert_eq!(v.instruction_size.len(), 256);
    assert_eq!(v.cycles_un[0x20], vec![12, 8]);
    assert_eq!(v.cycles_cb[0x46], vec![12]);
    assert_eq!(v.instructions[0x01], "LD BC n16");
    assert_eq!(v.instructions[0x36], "LD [HL] n8");
    assert_eq!(v.instructions[0x146], "BIT 0 [HL]");
    assert_eq!(v.instructions[0x100], "RLC B");
    assert_eq!(v.instruction_size[0x01], 3);
    assert_eq!(v.instruction_size[0xCB], 2);
}

#[test]
fn cycles_are_checked_in_t_cycles() {
    let v = Verify::new(&listing());
    assert!(v.cycles(1, (0x00, 0x00)));
    assert!(!v.cycles(2, (0x00, 0x00)));
    assert!(v.cycles(3, (0x20, 0x00)));
    assert!(v.cycles(2, (0x20, 0x00)));
    assert!(!v.cycles(4, (0x20, 0x00)));
    assert!(v.cycles(3, (0xCB, 0x46)));
    assert!(!v.cycles(2, (0xCB, 0x46)));
    assert!(v.cycles(2, (0xCB, 0x47)));
    assert!(!v.cycles(u64::MAX, (0x00, 0x00)));
    assert!(!v.cycles(0x4000_0000_0000_0001, (0x00, 0x00)));
}

#[test]
fn disasm_shows_bytes_and_text() {
    let v = Verify::new(&listing());
    assert_eq!(v.disasm([0x00, 0x12, 0x34]), ("00       - NOP".to_string(), 1));
    assert_eq!(v.disasm([0x01, 0xCD, 0xAB]), ("01 cd ab - LD BC n16".to_string(), 3));
    assert_eq!(v.disasm([0x36, 0x0F, 0x00]), ("36 0f    - LD [HL] n8".to_string(), 2));
    assert_eq!(v.disasm([0xCB, 0x46, 0x00]), ("cb 46    - BIT 0 [HL]".to_string(), 2));
    assert_eq!(v.disasm([0xCB, 0x00, 0xFF]), ("cb 00    - RLC B".to_string(), 2));
}

#[test]
fn disasm_shows_no_more_than_three_bytes() {
    let mut l = listing();
    l.unprefixed[0x02] = opcode("LONG", vec![], 5, vec![4]);
    l.unprefixed[0x03] = opcode("NONE", vec![], 0, vec![4]);
    let v = Verify::new(&l);
    assert_eq!(v.disasm([0x02, 0x01, 0x02]), ("02 01 02 - LONG".to_string(), 5));
    assert_eq!(v.disasm([0x03, 0x01, 0x02]), ("         - NONE".to_string(), 0));
}

#[test]
fn disasm_multi_walks_the_instructions() {
    let v = Verify::new(&listing());
    let mut gb = GB::new();
    gb.bus.io.hide_boot_rom = true;
    for (i, b) in [0x01u8, 0x34, 0x12, 0x00, 0xCB, 0x46, 0x36, 0x99].iter().enumerate() {
        gb.bus.poke(0xC000 + i as u16, *b);
    }
    let lines = disasm_multi(&v, &gb, 0xC000, 4);
    assert_eq!(
        lines,
        vec![
            "c000: 01 34 12 - LD BC n16",
            "c003: 00       - NOP",
            "c004: cb 46    - BIT 0 [HL]",
            "c006: 36 99    - LD [HL] n8",
        ]
    );
    assert_eq!(disasm_multi(&v, &gb, 0xC000, 0), Vec::<String>::new());
    gb.bus.poke(0xFFFF, 0x01);
    let lines = disasm_multi(&v, &gb, 0xFFFF, 2);
    assert_eq!(lines[0], "ffff: 01 ff ff - LD BC n16");
    assert_eq!(&lines[1][..4], "0002");
}
