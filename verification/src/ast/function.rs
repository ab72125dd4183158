//! The node that stands for one function.

use super::opcode::{opcode_text, Opcode};
use super::text::{append_decimal, decimal_bytes, decimal_text, push_decimal, utf8_text};
use super::tree_element::TreeElement;
use crate::amxmod::symbol::{public_symbols, Public, Symbol};
use crate::error::Error;
use vstd::prelude::*;
use vstd::slice::slice_to_vec;
use vstd::string::StringExecFns;
use vstd::utf8::{decode_utf8, valid_utf8};

verus! {

/// One function: its name, where it starts in the code segment, and the
/// instructions that were attached to it.
#[derive(Debug, PartialEq, Eq)]
pub struct Function {
    /// The name from the table of publics, or a made-up one.
    pub name: Vec<u8>,
    /// Where the function starts, in bytes from the start of the code segment.
    pub address: usize,
    /// The body, in the order in which the instructions were attached.
    pub tree_elements: Vec<Opcode>,
}

/// What a function node holds.
pub ghost struct FunctionView {
    pub name: Seq<u8>,
    pub address: int,
    pub body: Seq<Opcode>,
}

impl View for Function {
    type V = FunctionView;

    open spec fn view(&self) -> FunctionView {
        FunctionView {
            name: self.name@,
            address: self.address as int,
            body: self.tree_elements@,
        }
    }
}

/// The name that a function at `address` gets where no public names it:
/// `sub_` and the address in decimal.
pub open spec fn synthesized_name(address: int) -> Seq<u8> {
    seq![115u8, 117u8, 98u8, 95u8] + decimal_bytes(address as nat)
}

/// The name of the function at `address`: that of the first public with this
/// address, or a made-up one where there is none.
pub open spec fn resolve_name(publics: Seq<Symbol>, address: int) -> Seq<u8>
    decreases publics.len(),
{
    if publics.len() == 0 {
        synthesized_name(address)
    } else if publics[0].address == address {
        publics[0].name
    } else {
        resolve_name(publics.drop_first(), address)
    }
}

/// The text of a body: one line for each instruction, four spaces in.
pub open spec fn body_text(body: Seq<Opcode>) -> Seq<char>
    decreases body.len(),
{
    if body.len() == 0 {
        Seq::empty()
    } else {
        body_text(body.drop_last()) + "    "@ + opcode_text(body.last().opcode) + "\n"@
    }
}

/// The text of a function whose name is valid UTF-8: a line with the name
/// and the address, then the body.
pub open spec fn function_text(f: FunctionView) -> Seq<char> {
    decode_utf8(f.name) + "() // address: "@ + decimal_text(f.address as nat) + "\n"@ + body_text(
        f.body,
    )
}

impl Function {
    /// The function that starts with the instruction `opcode`, with an empty
    /// body. Its name is looked up in `public_list` by the address of the
    /// instruction.
    pub fn from(opcode: &Opcode, public_list: &Vec<Public>) -> (r: Function)
        ensures
            r@ == (FunctionView {
                name: resolve_name(public_symbols(public_list@), opcode.opcode.address as int),
                address: opcode.opcode.address as int,
                body: Seq::empty(),
            }),
    {
        let address = opcode.opcode.address;
        let ghost publics = public_symbols(public_list@);
        let mut i: usize = 0;
        assert(publics.subrange(0, publics.len() as int) == publics);
        while i < public_list.len()
            invariant
                i <= public_list@.len(),
                address == opcode.opcode.address,
                publics == public_symbols(public_list@),
                resolve_name(publics, address as int) == resolve_name(
                    publics.subrange(i as int, publics.len() as int),
                    address as int,
                ),
            decreases public_list@.len() - i,
        {
            let ghost rest = publics.subrange(i as int, publics.len() as int);
            assert(rest[0] == public_list@[i as int]@);
            if public_list[i].address == address {
                let name = slice_to_vec(public_list[i].name.as_slice());
                return Function { name, address, tree_elements: Vec::new() };
            }
            assert(rest.drop_first() == publics.subrange(i + 1, publics.len() as int));
            i = i + 1;
        }
        let mut name: Vec<u8> = Vec::new();
        name.push(115u8);
        name.push(117u8);
        name.push(98u8);
        name.push(95u8);
        assert(name@ == seq![115u8, 117u8, 98u8, 95u8]);
        push_decimal(&mut name, address);
        Function { name, address, tree_elements: Vec::new() }
    }
}

impl TreeElement for Function {
    open spec fn text(&self) -> Result<Seq<char>, Error> {
        if valid_utf8(self.name@) {
            Ok(function_text(self@))
        } else {
            Err(Error::InvalidName)
        }
    }

    fn to_string(&self) -> (r: Result<String, Error>) {
        let mut source = match utf8_text(slice_to_vec(self.name.as_slice())) {
            Some(s) => s,
            None => return Err(Error::InvalidName),
        };
        source.append("() // address: ");
        append_decimal(&mut source, self.address);
        source.append("\n");
        let ghost head = source@;
        let mut i: usize = 0;
        while i < self.tree_elements.len()
            invariant
                i <= self.tree_elements@.len(),
                source@ == head + body_text(self.tree_elements@.take(i as int)),
            decreases self.tree_elements@.len() - i,
        {
            let line = match self.tree_elements[i].to_string() {
                Ok(s) => s,
                Err(e) => return Err(e),
            };
            proof {
                let done = self.tree_elements@.take(i as int);
                let next = self.tree_elements@.take(i + 1);
                assert(next.drop_last() == done);
                assert(next.last() == self.tree_elements@[i as int]);
            }
            source.append("    ");
            source.append(line.as_str());
            source.append("\n");
            i = i + 1;
        }
        assert(self.tree_elements@.take(i as int) == self.tree_elements@);
        Ok(source)
    }
}

} // verus!
