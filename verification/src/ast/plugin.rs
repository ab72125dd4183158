//! The root of the tree, and the pass that groups a stream of instructions
//! into functions.

use super::function::{function_text, resolve_name, Function, FunctionView};
use super::opcode::Opcode;
use super::tree_element::TreeElement;
use crate::amxmod::opcode::{decode, Opcode as AmxOpcode, OpcodeType};
use crate::amxmod::plugin::Plugin as AmxPlugin;
use crate::amxmod::symbol::{public_symbols, table, Public, Symbol};
use crate::error::Error;
use vstd::prelude::*;
use vstd::string::StringExecFns;
use vstd::utf8::valid_utf8;

verus! {

/// The functions of a module, in the order in which they start in the code
/// segment.
#[derive(Debug, PartialEq, Eq)]
pub struct Plugin {
    pub tree_elements: Vec<Function>,
}

/// What the function nodes `functions` hold.
pub open spec fn views_of(functions: Seq<Function>) -> Seq<FunctionView> {
    functions.map_values(|f: Function| f@)
}

impl View for Plugin {
    type V = Seq<FunctionView>;

    open spec fn view(&self) -> Seq<FunctionView> {
        views_of(self.tree_elements@)
    }
}

/// Whether a function starts with `opcode`.
pub open spec fn is_function_start(opcode: AmxOpcode) -> bool {
    opcode.code == OpcodeType::OP_PROC
}

/// Whether `opcode` ends a stretch of a function: a return, or a break.
pub open spec fn is_function_end(opcode: AmxOpcode) -> bool {
    opcode.code == OpcodeType::OP_BREAK || opcode.code == OpcodeType::OP_RETN
}

/// Where the reconstruction stands: the functions started so far, of which
/// the last is the open one, and the instructions seen since the last end
/// of a stretch, which wait for the next.
pub ghost struct Progress {
    pub functions: Seq<FunctionView>,
    pub pending: Seq<AmxOpcode>,
}

/// The nodes for the instructions `opcodes`.
pub open spec fn nodes_of(opcodes: Seq<AmxOpcode>) -> Seq<Opcode> {
    opcodes.map_values(|o: AmxOpcode| Opcode { opcode: o })
}

/// The function `f` with the nodes for `pending` at the end of its body.
pub open spec fn attach(f: FunctionView, pending: Seq<AmxOpcode>) -> FunctionView {
    FunctionView { name: f.name, address: f.address, body: f.body + nodes_of(pending) }
}

/// Where the reconstruction stands after `opcode`.
/// - The start of a function opens a new one, with an empty body and the
///   name that `publics` give its address. What is pending stays pending.
/// - The end of a stretch moves what is pending to the end of the body of the
///   open function. With no function open it is an error.
/// - Any other instruction becomes pending.
pub open spec fn advance(p: Progress, opcode: AmxOpcode, publics: Seq<Symbol>) -> Result<
    Progress,
    Error,
> {
    if is_function_start(opcode) {
        Ok(
            Progress {
                functions: p.functions.push(
                    FunctionView {
                        name: resolve_name(publics, opcode.address as int),
                        address: opcode.address as int,
                        body: Seq::empty(),
                    },
                ),
                pending: p.pending,
            },
        )
    } else if is_function_end(opcode) {
        if p.functions.len() == 0 {
            Err(Error::MalformedBytecode)
        } else {
            Ok(
                Progress {
                    functions: p.functions.drop_last().push(attach(p.functions.last(), p.pending)),
                    pending: Seq::empty(),
                },
            )
        }
    } else {
        Ok(Progress { functions: p.functions, pending: p.pending.push(opcode) })
    }
}

/// Where the reconstruction stands after all of `opcodes`, taken from left
/// to right, or the error of the first instruction that it stops at.
pub open spec fn progress_after(opcodes: Seq<AmxOpcode>, publics: Seq<Symbol>) -> Result<
    Progress,
    Error,
>
    decreases opcodes.len(),
{
    if opcodes.len() == 0 {
        Ok(Progress { functions: Seq::empty(), pending: Seq::empty() })
    } else {
        match progress_after(opcodes.drop_last(), publics) {
            Err(e) => Err(e),
            Ok(p) => advance(p, opcodes.last(), publics),
        }
    }
}

/// The functions that `opcodes` are grouped into. What is still pending at
/// the end belongs to no function and is left out.
pub open spec fn reconstruction(opcodes: Seq<AmxOpcode>, publics: Seq<Symbol>) -> Result<
    Seq<FunctionView>,
    Error,
> {
    match progress_after(opcodes, publics) {
        Err(e) => Err(e),
        Ok(p) => Ok(p.functions),
    }
}

/// Once the reconstruction has stopped at an error, more instructions do not
/// change it.
pub proof fn lemma_error_persists(opcodes: Seq<AmxOpcode>, publics: Seq<Symbol>, n: int)
    requires
        0 <= n <= opcodes.len(),
        progress_after(opcodes.take(n), publics) is Err,
    ensures
        progress_after(opcodes, publics) == progress_after(opcodes.take(n), publics),
    decreases opcodes.len() - n,
{
    if n == opcodes.len() {
        assert(opcodes.take(n) == opcodes);
    } else {
        assert(opcodes.take(n + 1).drop_last() == opcodes.take(n));
        lemma_error_persists(opcodes, publics, n + 1);
    }
}

/// The line that every rendered plugin starts with, and the empty line
/// after it.
pub open spec fn plugin_header() -> Seq<char> {
    "// Plugin source approximation starts here\n\n"@
}

/// The texts of `functions`, one after the other.
pub open spec fn functions_text(functions: Seq<FunctionView>) -> Seq<char>
    decreases functions.len(),
{
    if functions.len() == 0 {
        Seq::empty()
    } else {
        functions_text(functions.drop_last()) + function_text(functions.last())
    }
}

/// Whether every one of `functions` can be rendered: its name is valid UTF-8.
pub open spec fn all_renderable(functions: Seq<FunctionView>) -> bool {
    forall|i: int| 0 <= i < functions.len() ==> valid_utf8(#[trigger] functions[i].name)
}

/// The functions that the module `amx` is rebuilt into: its table of
/// publics is read, then its code segment is decoded, then the instructions
/// are grouped. The first of these that fails gives the error.
pub open spec fn rebuilt(amx: AmxPlugin) -> Result<Seq<FunctionView>, Error> {
    match table(amx.bin@, amx.publics as int, amx.natives as int) {
        Err(e) => Err(e),
        Ok(publics) => if !(amx.cod <= amx.dat <= amx.bin@.len()) {
            Err(Error::MalformedSegment)
        } else {
            match decode(amx.cod_bytes()) {
                Err(e) => Err(e),
                Ok(opcodes) => reconstruction(opcodes, publics),
            }
        },
    }
}

impl Plugin {
    /// Groups `opcodes` into functions, the names taken from `public_list`.
    /// The instructions are taken from left to right; see [`advance`] for
    /// what each of them does.
    pub fn reconstruct(opcodes: &Vec<AmxOpcode>, public_list: &Vec<Public>) -> (r: Result<
        Plugin,
        Error,
    >)
        ensures
            match reconstruction(opcodes@, public_symbols(public_list@)) {
                Ok(functions) => r matches Ok(p) && p@ == functions,
                Err(e) => r matches Err(found) && found == e,
            },
    {
        let ghost publics = public_symbols(public_list@);
        let mut functions: Vec<Function> = Vec::new();
        let mut stack: Vec<AmxOpcode> = Vec::new();
        let mut i: usize = 0;
        assert(views_of(functions@) == Seq::<FunctionView>::empty());
        while i < opcodes.len()
            invariant
                i <= opcodes@.len(),
                publics == public_symbols(public_list@),
                progress_after(opcodes@.take(i as int), publics) == Ok::<Progress, Error>(
                    Progress { functions: views_of(functions@), pending: stack@ },
                ),
            decreases opcodes@.len() - i,
        {
            let opcode = opcodes[i];
            let ghost before = Progress { functions: views_of(functions@), pending: stack@ };
            proof {
                assert(opcodes@.take(i + 1).drop_last() == opcodes@.take(i as int));
                assert(opcodes@.take(i + 1).last() == opcode);
            }
            if opcode.code == OpcodeType::OP_PROC {
                let ast_opcode = Opcode::from(opcode);
                let function = Function::from(&ast_opcode, public_list);
                functions.push(function);
                assert(views_of(functions@) == before.functions.push(function@));
            } else if opcode.code == OpcodeType::OP_BREAK || opcode.code == OpcodeType::OP_RETN {
                let mut last_function = match functions.pop() {
                    Some(f) => f,
                    None => {
                        proof {
                            lemma_error_persists(opcodes@, publics, i + 1);
                        }
                        return Err(Error::MalformedBytecode);
                    },
                };
                assert(views_of(functions@) == before.functions.drop_last());
                assert(last_function@ == before.functions.last());
                let ghost open = last_function@;
                let mut j: usize = 0;
                while j < stack.len()
                    invariant
                        j <= stack@.len(),
                        last_function@ == attach(open, stack@.take(j as int)),
                    decreases stack@.len() - j,
                {
                    last_function.tree_elements.push(Opcode::from(stack[j]));
                    assert(nodes_of(stack@.take(j + 1)) == nodes_of(stack@.take(j as int)).push(
                        Opcode { opcode: stack@[j as int] },
                    ));
                    j = j + 1;
                }
                assert(stack@.take(j as int) == stack@);
                functions.push(last_function);
                assert(views_of(functions@) == before.functions.drop_last().push(
                    attach(open, stack@),
                ));
                stack.clear();
            } else {
                stack.push(opcode);
            }
            i = i + 1;
        }
        assert(opcodes@.take(i as int) == opcodes@);
        Ok(Plugin { tree_elements: functions })
    }

    /// Rebuilds the functions of `amx_plugin`: reads its table of publics,
    /// decodes its code segment, and groups the instructions. An error of
    /// the table comes before one of the code segment.
    pub fn from_amxmod_plugin(amx_plugin: &AmxPlugin) -> (r: Result<Plugin, Error>)
        ensures
            match rebuilt(*amx_plugin) {
                Ok(functions) => r matches Ok(p) && p@ == functions,
                Err(e) => r matches Err(found) && found == e,
            },
    {
        let public_list = amx_plugin.publics()?;
        let opcodes = amx_plugin.opcodes()?;
        Plugin::reconstruct(&opcodes, &public_list)
    }
}

impl TreeElement for Plugin {
    open spec fn text(&self) -> Result<Seq<char>, Error> {
        if all_renderable(self@) {
            Ok(plugin_header() + functions_text(self@))
        } else {
            Err(Error::InvalidName)
        }
    }

    fn to_string(&self) -> (r: Result<String, Error>) {
        let mut source = String::from_str("// Plugin source approximation starts here\n\n");
        let mut i: usize = 0;
        while i < self.tree_elements.len()
            invariant
                i <= self.tree_elements@.len(),
                all_renderable(self@.take(i as int)),
                source@ == plugin_header() + functions_text(self@.take(i as int)),
            decreases self.tree_elements@.len() - i,
        {
            proof {
                let done = self@.take(i as int);
                let next = self@.take(i + 1);
                assert(next.drop_last() == done);
                assert(next.last() == self.tree_elements@[i as int]@);
            }
            let element_str = match self.tree_elements[i].to_string() {
                Ok(s) => s,
                Err(e) => {
                    proof {
                        // The function that cannot be rendered is one of
                        // this plugin's, so the plugin cannot be either.
                        assert(self@[i as int] == self.tree_elements@[i as int]@);
                        assert(!valid_utf8(self@[i as int].name));
                        assert(!all_renderable(self@));
                        assert(e == Error::InvalidName);
                    }
                    return Err(e);
                },
            };
            proof {
                assert(self@[i as int] == self.tree_elements@[i as int]@);
                assert(valid_utf8(self@[i as int].name));
                let next = self@.take(i + 1);
                assert forall|k: int| 0 <= k < next.len() implies valid_utf8(
                    #[trigger] next[k].name,
                ) by {
                    if k < i {
                        assert(self@.take(i as int)[k] == next[k]);
                    }
                }
            }
            source.append(element_str.as_str());
            i = i + 1;
        }
        assert(self@.take(i as int) == self@);
        Ok(source)
    }
}

} // verus!
