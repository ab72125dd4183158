//! The node that stands for one instruction.

use super::text::{append_decimal, decimal_text};
use super::tree_element::TreeElement;
use crate::amxmod::opcode::{Opcode as AmxOpcode, Operands};
use crate::error::Error;
use vstd::prelude::*;
use vstd::string::StringExecFns;

verus! {

/// One instruction in the body of a function.
#[derive(Clone, Copy, Debug, PartialEq, Eq, Structural)]
pub struct Opcode {
    /// The instruction as it was decoded.
    pub opcode: AmxOpcode,
}

/// The text of the instruction `opcode`: its mnemonic, then each operand in
/// decimal after a space.
pub open spec fn opcode_text(opcode: AmxOpcode) -> Seq<char> {
    match opcode.operands {
        Operands::Empty => opcode.code.spec_mnemonic(),
        Operands::One(first) => opcode.code.spec_mnemonic() + " "@ + decimal_text(first as nat),
        Operands::Two(first, second) => opcode.code.spec_mnemonic() + " "@ + decimal_text(
            first as nat,
        ) + " "@ + decimal_text(second as nat),
    }
}

impl Opcode {
    /// The node for `opcode`.
    pub fn from(opcode: AmxOpcode) -> (r: Opcode)
        ensures
            r.opcode == opcode,
    {
        Opcode { opcode }
    }
}

impl TreeElement for Opcode {
    open spec fn text(&self) -> Result<Seq<char>, Error> {
        Ok(opcode_text(self.opcode))
    }

    fn to_string(&self) -> (r: Result<String, Error>) {
        let mut source = String::from_str(self.opcode.code.mnemonic());
        match self.opcode.operands {
            Operands::Empty => {},
            Operands::One(first) => {
                source.append(" ");
                append_decimal(&mut source, first as usize);
            },
            Operands::Two(first, second) => {
                source.append(" ");
                append_decimal(&mut source, first as usize);
                source.append(" ");
                append_decimal(&mut source, second as usize);
            },
        }
        Ok(source)
    }
}

} // verus!
