//! What every node of the tree can do: render itself as text.

use crate::error::Error;
use vstd::prelude::*;

verus! {

/// Whether `result` is what rendering gives for a node whose text is `text`:
/// that text, or the error that stands in its place.
pub open spec fn is_rendering(text: Result<Seq<char>, Error>, result: Result<String, Error>) -> bool {
    match text {
        Ok(t) => result matches Ok(s) && s@ == t,
        Err(e) => result matches Err(found) && found == e,
    }
}

/// A node of the tree.
pub trait TreeElement {
    /// The text of this node, or the error that keeps it from being rendered.
    spec fn text(&self) -> Result<Seq<char>, Error>;

    /// Renders this node as text. The node is left as it is.
    fn to_string(&self) -> (r: Result<String, Error>)
        ensures
            is_rendering(self.text(), r),
    ;
}

/// Rendering the same node twice gives the same outcome: the same text,
/// character for character, or the same error.
pub proof fn lemma_rendering_repeats<T: TreeElement>(
    node: &T,
    first: Result<String, Error>,
    second: Result<String, Error>,
)
    requires
        is_rendering(node.text(), first),
        is_rendering(node.text(), second),
    ensures
        first is Ok <==> second is Ok,
        first is Ok ==> first->Ok_0@ == second->Ok_0@,
        first is Err ==> first->Err_0 == second->Err_0,
{
}

} // verus!
