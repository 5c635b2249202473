//! Lexical tokens as handed over by the lexer.

use vstd::prelude::*;
use vstd::string::StrSliceExecFns;

verus! {

/// The classification of a token.  Literal payloads keep the signedness the
/// lexer gave them; coercion into operands reinterprets them as unsigned
/// 64-bit values (a deliberate truncation policy, see [`crate::parser`]).
#[derive(Clone, Copy, Debug, PartialEq, Eq, Structural)]
pub enum Kind {
    /// An identifier; the token's text carries the name.
    Name,
    /// A register literal with its register index.
    Reg(u64),
    /// An integer literal.
    Int(i64),
    /// A memory-address literal.
    Memory(i64),
    /// A run of whitespace.
    White,
    /// The end-of-stream sentinel; the cursor fabricates it past the end.
    EOF,
    /// Anything the lexer could not classify further.
    Other,
}

/// A token: its kind together with the source slice it was lexed from.
/// Only `Name` tokens have their text inspected by the parser.
#[derive(Debug)]
pub struct Token {
    pub kind: Kind,
    pub text: String,
}

/// The mathematical value of a [`Token`]: the kind and the text's characters.
pub struct TokenView {
    pub kind: Kind,
    pub text: Seq<char>,
}

impl View for Token {
    type V = TokenView;

    open spec fn view(&self) -> TokenView {
        TokenView { kind: self.kind, text: self.text@ }
    }
}

impl Clone for Token {
    fn clone(&self) -> (res: Self)
        ensures
            res == *self,
    {
        Token { kind: self.kind, text: self.text.clone() }
    }
}

/// The views of a token sequence, element by element.
pub open spec fn token_views(toks: Seq<Token>) -> Seq<TokenView> {
    toks.map(|i: int, t: Token| t@)
}

/// The text with its first character removed, or `None` on an empty text.
pub fn remove_first(s: &str) -> (r: Option<&str>)
    ensures
        match r {
            Some(rest) => s@.len() > 0 && rest@ == s@.subrange(1, s@.len() as int),
            None => s@.len() == 0,
        },
{
    let n = s.unicode_len();
    if n == 0 {
        None
    } else {
        Some(s.substring_char(1, n))
    }
}

} // verus!
