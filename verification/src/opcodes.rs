//! The instruction listing that a debugger shows: for each opcode its
//! mnemonic, its operands, its length and the T-cycles it may take.

use vstd::prelude::*;
use vstd::string::*;

verus! {

/// One operand of an instruction.
pub struct Operand {
    /// The operand as the listing writes it.
    pub name: String,
    /// Bytes that the operand takes in the instruction, where it takes any.
    pub bytes: Option<u8>,
    /// The operand is the value itself; otherwise it is an address.
    pub immediate: bool,
}

/// One entry of the listing.
pub struct Opcode {
    /// Length of the instruction in bytes.
    pub bytes: u16,
    /// The T-cycles that the instruction may take.
    pub cycles: Vec<u64>,
    /// What the instruction does to each flag, by the flag's name.
    pub flags: Vec<(String, String)>,
    pub immediate: bool,
    pub mnemonic: String,
    pub operands: Vec<Operand>,
}

/// The listing: one entry for each opcode and one for each byte after the `CB` prefix.
pub struct Opcodes {
    pub unprefixed: Vec<Opcode>,
    pub cbprefixed: Vec<Opcode>,
}

impl Operand {
    /// The operand as an instruction shows it: an address stands in brackets.
    pub open spec fn text(self) -> Seq<char> {
        if self.immediate {
            self.name@
        } else {
            seq!['['] + self.name@ + seq![']']
        }
    }
}

/// The first `n` operands, each behind a space.
pub open spec fn operands_text(operands: Seq<Operand>, n: int) -> Seq<char>
    decreases n,
{
    if n <= 0 {
        Seq::empty()
    } else {
        operands_text(operands, n - 1) + seq![' '] + operands[n - 1].text()
    }
}

impl Opcode {
    /// The instruction as the listing shows it: the mnemonic and the operands.
    pub open spec fn text(self) -> Seq<char> {
        self.mnemonic@ + operands_text(self.operands@, self.operands@.len() as int)
    }

    /// Writes the instruction out.
    pub fn render(&self) -> (line: String)
        ensures
            line@ == self.text(),
    {
        let mut inst: String = self.mnemonic.clone();
        let mut i: usize = 0;
        proof {
            reveal_strlit(" ");
            reveal_strlit("[");
            reveal_strlit("]");
            assert(inst@ =~= self.mnemonic@ + operands_text(self.operands@, 0));
        }
        while i < self.operands.len()
            invariant
                i <= self.operands@.len(),
                inst@ == self.mnemonic@ + operands_text(self.operands@, i as int),
                " "@ == seq![' '],
                "["@ == seq!['['],
                "]"@ == seq![']'],
            decreases self.operands@.len() - i,
        {
            let oper = &self.operands[i];
            inst.append(" ");
            if oper.immediate {
                inst.append(oper.name.as_str());
            } else {
                inst.append("[");
                inst.append(oper.name.as_str());
                inst.append("]");
            }
            i += 1;
            assert(inst@ =~= self.mnemonic@ + operands_text(self.operands@, i as int));
        }
        inst
    }
}

impl Opcodes {
    /// Whether the listing has an entry for every byte in both tables.
    pub open spec fn complete(self) -> bool {
        self.unprefixed@.len() == 0x100 && self.cbprefixed@.len() == 0x100
    }

    /// Says whether the listing has an entry for every byte in both tables.
    pub fn is_complete(&self) -> (r: bool)
        ensures
            r == self.complete(),
    {
        self.unprefixed.len() == 0x100 && self.cbprefixed.len() == 0x100
    }
}

} // verus!
