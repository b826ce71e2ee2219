use vstd::prelude::*;

verus! {

/// The single fault this library can signal: a CST node whose shape does not
/// match what the grammar promises (an unexpected rule, a missing required
/// child, or residual children after a fixed-arity composition).
///
/// It carries the offending node's matched text for diagnosis. Well-formed
/// input accepted by the grammar never triggers it; it marks drift between
/// the grammar and this library's dispatch logic.
#[derive(Clone, Debug, PartialEq, Eq)]
pub struct IllegalGrammar {
    pub input: String,
}

impl View for IllegalGrammar {
    type V = Seq<char>;

    open spec fn view(&self) -> Seq<char> {
        self.input@
    }
}

/// A result as the contracts state it: the payload's view on success, the
/// offending node's text on failure.
pub open spec fn result_view<T: View>(r: Result<T, IllegalGrammar>) -> Result<T::V, Seq<char>> {
    match r {
        Ok(v) => Ok(v@),
        Err(e) => Err(e@),
    }
}

} // verus!
