//! What holds of every reconstruction: how many functions it has, which
//! instructions their bodies hold, and when it fails.

use super::function::FunctionView;
use super::opcode::Opcode;
use super::plugin::{
    attach, is_function_end, is_function_start, nodes_of, progress_after, reconstruction,
};
use crate::amxmod::opcode::Opcode as AmxOpcode;
use crate::amxmod::symbol::Symbol;
use crate::error::Error;
use vstd::prelude::*;

verus! {

/// The instructions of `opcodes` that start a function, in their order.
pub open spec fn starts(opcodes: Seq<AmxOpcode>) -> Seq<AmxOpcode>
    decreases opcodes.len(),
{
    if opcodes.len() == 0 {
        Seq::empty()
    } else if is_function_start(opcodes.last()) {
        starts(opcodes.drop_last()).push(opcodes.last())
    } else {
        starts(opcodes.drop_last())
    }
}

/// The instructions of `opcodes` that neither start a function nor end a
/// stretch of one, in their order.
pub open spec fn ordinary(opcodes: Seq<AmxOpcode>) -> Seq<AmxOpcode>
    decreases opcodes.len(),
{
    if opcodes.len() == 0 {
        Seq::empty()
    } else if is_function_start(opcodes.last()) || is_function_end(opcodes.last()) {
        ordinary(opcodes.drop_last())
    } else {
        ordinary(opcodes.drop_last()).push(opcodes.last())
    }
}

/// The number of instructions of `opcodes` up to the last end of a stretch,
/// that end included; zero where there is none.
pub open spec fn flushed(opcodes: Seq<AmxOpcode>) -> int
    decreases opcodes.len(),
{
    if opcodes.len() == 0 {
        0
    } else if is_function_end(opcodes.last()) {
        opcodes.len() as int
    } else {
        flushed(opcodes.drop_last())
    }
}

/// The bodies of `functions`, one after the other.
pub open spec fn attached(functions: Seq<FunctionView>) -> Seq<Opcode>
    decreases functions.len(),
{
    if functions.len() == 0 {
        Seq::empty()
    } else {
        attached(functions.drop_last()) + functions.last().body
    }
}

/// Whether an end of a stretch comes in `opcodes` before any start of a
/// function.
pub open spec fn ends_before_start(opcodes: Seq<AmxOpcode>) -> bool {
    exists|i: int|
        {
            &&& 0 <= i < opcodes.len()
            &&& is_function_end(#[trigger] opcodes[i])
            &&& forall|j: int| 0 <= j < i ==> !is_function_start(#[trigger] opcodes[j])
        }
}

/// `flushed` is a place in the sequence.
proof fn lemma_flushed_bounds(opcodes: Seq<AmxOpcode>)
    ensures
        0 <= flushed(opcodes) <= opcodes.len(),
    decreases opcodes.len(),
{
    if opcodes.len() > 0 {
        lemma_flushed_bounds(opcodes.drop_last());
    }
}

/// No instruction starts a function exactly where `starts` is empty.
proof fn lemma_no_starts(opcodes: Seq<AmxOpcode>)
    ensures
        starts(opcodes).len() == 0 <==> forall|j: int|
            0 <= j < opcodes.len() ==> !is_function_start(#[trigger] opcodes[j]),
    decreases opcodes.len(),
{
    if opcodes.len() > 0 {
        let front = opcodes.drop_last();
        lemma_no_starts(front);
        if starts(opcodes).len() == 0 {
            assert forall|j: int| 0 <= j < opcodes.len() implies !is_function_start(
                #[trigger] opcodes[j],
            ) by {
                if j < front.len() {
                    assert(front[j] == opcodes[j]);
                }
            }
        } else if !is_function_start(opcodes.last()) {
            let j = choose|j: int| 0 <= j < front.len() && is_function_start(#[trigger] front[j]);
            assert(front[j] == opcodes[j]);
        }
    }
}

/// What holds of the state after every instruction: the functions are those
/// that were started, in their order; the bodies hold the ordinary
/// instructions up to the last end of a stretch, and what is pending are
/// the ordinary instructions after it.
proof fn lemma_progress(opcodes: Seq<AmxOpcode>, publics: Seq<Symbol>)
    requires
        progress_after(opcodes, publics) is Ok,
    ensures
        ({
            let p = progress_after(opcodes, publics)->Ok_0;
            &&& p.functions.len() == starts(opcodes).len()
            &&& forall|k: int|
                0 <= k < p.functions.len() ==> (#[trigger] p.functions[k]).address == starts(
                    opcodes,
                )[k].address
            &&& attached(p.functions) == nodes_of(ordinary(opcodes.take(flushed(opcodes))))
            &&& p.pending == ordinary(opcodes.skip(flushed(opcodes)))
        }),
    decreases opcodes.len(),
{
    if opcodes.len() == 0 {
        assert(opcodes.take(0) == opcodes);
        assert(opcodes.skip(0) == opcodes);
        assert(nodes_of(Seq::<AmxOpcode>::empty()) == Seq::<Opcode>::empty());
    } else {
        let front = opcodes.drop_last();
        let last = opcodes.last();
        lemma_progress(front, publics);
        lemma_flushed_bounds(front);
        let before = progress_after(front, publics)->Ok_0;
        let p = progress_after(opcodes, publics)->Ok_0;
        let n = flushed(front);
        if is_function_end(last) {
            // All that was pending moves to the last body.
            assert(opcodes.take(opcodes.len() as int) == opcodes);
            assert(opcodes.skip(opcodes.len() as int) == Seq::<AmxOpcode>::empty());
            assert(before.functions.drop_last().push(p.functions.last()).drop_last()
                == before.functions.drop_last());
            lemma_ordinary_split(front, n);
            assert(nodes_of(ordinary(front.take(n)) + ordinary(front.skip(n))) == nodes_of(
                ordinary(front.take(n)),
            ) + nodes_of(ordinary(front.skip(n))));
            lemma_attached_last(before.functions, before.pending);
        } else {
            // The bodies stay as they are.
            assert(opcodes.take(n) == front.take(n));
            assert(opcodes.skip(n).drop_last() == front.skip(n));
            assert(opcodes.skip(n).last() == last);
            if is_function_start(last) {
                assert(p.functions.drop_last() == before.functions);
                assert(attached(p.functions) == attached(before.functions) + Seq::<
                    Opcode,
                >::empty());
            }
        }
    }
}

/// The ordinary instructions of a sequence are those of a front part, then
/// those of the rest.
proof fn lemma_ordinary_split(opcodes: Seq<AmxOpcode>, n: int)
    requires
        0 <= n <= opcodes.len(),
    ensures
        ordinary(opcodes) == ordinary(opcodes.take(n)) + ordinary(opcodes.skip(n)),
    decreases opcodes.len(),
{
    if n == opcodes.len() {
        assert(opcodes.take(n) == opcodes);
        assert(opcodes.skip(n) == Seq::<AmxOpcode>::empty());
        assert(ordinary(opcodes) + Seq::<AmxOpcode>::empty() == ordinary(opcodes));
    } else {
        let front = opcodes.drop_last();
        lemma_ordinary_split(front, n);
        assert(front.take(n) == opcodes.take(n));
        assert(opcodes.skip(n).drop_last() == front.skip(n));
        assert(opcodes.skip(n).last() == opcodes.last());
        if !(is_function_start(opcodes.last()) || is_function_end(opcodes.last())) {
            assert((ordinary(front.take(n)) + ordinary(front.skip(n))).push(opcodes.last())
                == ordinary(front.take(n)) + ordinary(front.skip(n)).push(opcodes.last()));
        }
    }
}

/// Attaching to the last function attaches at the end of all bodies.
proof fn lemma_attached_last(functions: Seq<FunctionView>, pending: Seq<AmxOpcode>)
    requires
        functions.len() > 0,
    ensures
        attached(
            functions.drop_last().push(attach(functions.last(), pending)),
        ) == attached(functions) + nodes_of(pending),
{
    let moved = functions.drop_last().push(attach(functions.last(), pending));
    assert(moved.drop_last() == functions.drop_last());
    assert(attached(functions.drop_last()) + (functions.last().body + nodes_of(pending)) == (
    attached(functions.drop_last()) + functions.last().body) + nodes_of(pending));
}

/// A reconstruction has one function for each instruction that starts one,
/// in the order of these instructions and at their addresses. The bodies of
/// its functions, taken one after the other, are the ordinary instructions
/// up to the last end of a stretch, each of them once and in the order of
/// the stream: none is attached twice, and those after that end are attached
/// to no function.
pub proof fn lemma_functions_and_bodies(opcodes: Seq<AmxOpcode>, publics: Seq<Symbol>)
    requires
        reconstruction(opcodes, publics) is Ok,
    ensures
        ({
            let functions = reconstruction(opcodes, publics)->Ok_0;
            &&& functions.len() == starts(opcodes).len()
            &&& forall|k: int|
                0 <= k < functions.len() ==> (#[trigger] functions[k]).address == starts(
                    opcodes,
                )[k].address
            &&& attached(functions) == nodes_of(ordinary(opcodes.take(flushed(opcodes))))
        }),
{
    lemma_progress(opcodes, publics);
}

/// A reconstruction fails exactly where an end of a stretch comes before
/// any start of a function, and then with `MalformedBytecode`.
pub proof fn lemma_end_needs_start(opcodes: Seq<AmxOpcode>, publics: Seq<Symbol>)
    ensures
        reconstruction(opcodes, publics) is Err <==> ends_before_start(opcodes),
        reconstruction(opcodes, publics) is Err ==> reconstruction(opcodes, publics) == Err::<
            Seq<FunctionView>,
            Error,
        >(Error::MalformedBytecode),
    decreases opcodes.len(),
{
    if opcodes.len() > 0 {
        let front = opcodes.drop_last();
        let last = opcodes.last();
        lemma_end_needs_start(front, publics);
        lemma_no_starts(front);
        if progress_after(front, publics) is Ok {
            lemma_progress(front, publics);
        }
        if ends_before_start(front) {
            // The same end comes too early in the longer sequence.
            let i = choose|i: int|
                {
                    &&& 0 <= i < front.len()
                    &&& is_function_end(#[trigger] front[i])
                    &&& forall|j: int| 0 <= j < i ==> !is_function_start(#[trigger] front[j])
                };
            assert(is_function_end(opcodes[i]));
            assert forall|j: int| 0 <= j < i implies !is_function_start(#[trigger] opcodes[j]) by {
                assert(front[j] == opcodes[j]);
            }
        } else if ends_before_start(opcodes) {
            // The end that comes too early is the last instruction, and no
            // function is open when it is reached.
            let i = choose|i: int|
                {
                    &&& 0 <= i < opcodes.len()
                    &&& is_function_end(#[trigger] opcodes[i])
                    &&& forall|j: int| 0 <= j < i ==> !is_function_start(#[trigger] opcodes[j])
                };
            if i < front.len() {
                assert(is_function_end(front[i]));
                assert forall|j: int| 0 <= j < i implies !is_function_start(
                    #[trigger] front[j],
                ) by {
                    assert(front[j] == opcodes[j]);
                }
                assert(false);
            }
            assert forall|j: int| 0 <= j < front.len() implies !is_function_start(
                #[trigger] front[j],
            ) by {
                assert(front[j] == opcodes[j]);
            }
        } else if reconstruction(opcodes, publics) is Err {
            // Only the last instruction can have failed: it is an end, and
            // nothing before it starts a function.
            assert(is_function_end(opcodes[opcodes.len() - 1]));
            assert forall|j: int| 0 <= j < opcodes.len() - 1 implies !is_function_start(
                #[trigger] opcodes[j],
            ) by {
                assert(front[j] == opcodes[j]);
            }
        }
    }
}

} // verus!
