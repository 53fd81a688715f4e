//! Lexical tokens, as the parser hands them over.
//!
//! The evaluator keeps a token inside each syntax node for provenance only
//! and never reads it: evaluation depends on the node structure alone.

use vstd::prelude::*;

verus! {

/// A lexical token.  Only the literal text is kept.
#[derive(Debug)]
pub struct Token {
    pub literal: String,
}

impl Token {
    /// Builds a token from its literal text.
    pub fn new(literal: String) -> (t: Token)
        ensures
            t.literal == literal,
    {
        Token { literal }
    }
}

impl Clone for Token {
    fn clone(&self) -> (t: Self)
        ensures
            t == *self,
    {
        Token { literal: self.literal.clone() }
    }
}

impl Default for Token {
    fn default() -> (t: Self)
        ensures
            t.literal@ == Seq::<char>::empty(),
    {
        Token { literal: String::new() }
    }
}

} // verus!
