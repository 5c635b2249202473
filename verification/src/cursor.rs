//! A monotonic, whitespace-skipping cursor over the token sequence.

use vstd::prelude::*;

use crate::token::{Kind, Token, TokenView, token_views};

verus! {

/// The first position at or after `i` whose token is not whitespace, or the
/// sequence's length when only whitespace (or nothing) remains.
pub open spec fn next_non_white(toks: Seq<TokenView>, i: nat) -> nat
    decreases toks.len() - i,
{
    if i < toks.len() && toks[i as int].kind is White {
        next_non_white(toks, i + 1)
    } else {
        i
    }
}

/// The token visible at position `i`: the element there, or the end-of-stream
/// sentinel once the sequence is exhausted.
pub open spec fn token_at(toks: Seq<TokenView>, i: nat) -> TokenView {
    if i < toks.len() {
        toks[i as int]
    } else {
        TokenView { kind: Kind::EOF, text: Seq::empty() }
    }
}

/// The cursor position after one advance from `i`: one step forward, then
/// past any whitespace run.  A cursor already at the end stays there.
pub open spec fn advanced_pos(toks: Seq<TokenView>, i: nat) -> nat {
    if i < toks.len() {
        next_non_white(toks, i + 1)
    } else {
        i
    }
}

/// The position after `n` advances from `i`.
pub open spec fn advanced_pos_n(toks: Seq<TokenView>, i: nat, n: nat) -> nat
    decreases n,
{
    if n == 0 {
        i
    } else {
        advanced_pos_n(toks, advanced_pos(toks, i), (n - 1) as nat)
    }
}

/// `next_non_white` never moves backwards, never leaves the sequence, and
/// stops only at the end or on a non-whitespace token.
pub proof fn lemma_next_non_white(toks: Seq<TokenView>, i: nat)
    requires
        i <= toks.len(),
    ensures
        i <= next_non_white(toks, i) <= toks.len(),
        !(token_at(toks, next_non_white(toks, i)).kind is White),
    decreases toks.len() - i,
{
    if i < toks.len() && toks[i as int].kind is White {
        lemma_next_non_white(toks, i + 1);
    }
}

/// Advancing moves the position strictly forward while tokens remain, stays
/// within bounds, and never lands on a whitespace token.  This is the
/// cursor's guarantee that callers reading the current token at a decision
/// point never see whitespace after an advance.
pub proof fn lemma_advanced_pos(toks: Seq<TokenView>, i: nat)
    requires
        i <= toks.len(),
    ensures
        i <= advanced_pos(toks, i) <= toks.len(),
        i < toks.len() ==> i < advanced_pos(toks, i),
        !(token_at(toks, advanced_pos(toks, i)).kind is White),
{
    if i < toks.len() {
        lemma_next_non_white(toks, i + 1);
    }
}

/// Bounds for `n` advances in a row: the position never moves backwards,
/// stays within the sequence, and moves strictly forward as long as at least
/// one advance happens before the end.
pub proof fn lemma_advanced_pos_n(toks: Seq<TokenView>, i: nat, n: nat)
    requires
        i <= toks.len(),
    ensures
        i <= advanced_pos_n(toks, i, n) <= toks.len(),
        n > 0 && i < toks.len() ==> i < advanced_pos_n(toks, i, n),
    decreases n,
{
    if n > 0 {
        lemma_advanced_pos(toks, i);
        lemma_advanced_pos_n(toks, advanced_pos(toks, i), (n - 1) as nat);
    }
}

/// A read-only view over the token sequence that skips whitespace whenever it
/// advances and presents an end-of-stream sentinel past the end.  The
/// position only ever moves forward.
pub struct TokenBuffer {
    index: usize,
    toks: Vec<Token>,
}

impl TokenBuffer {
    /// The views of the underlying tokens.
    pub closed spec fn tokens(&self) -> Seq<TokenView> {
        token_views(self.toks@)
    }

    /// The current position, at most the sequence's length.
    pub closed spec fn pos(&self) -> nat {
        self.index as nat
    }

    /// The position never runs past the sequence's length.
    pub open spec fn wf(&self) -> bool {
        self.pos() <= self.tokens().len()
    }

    /// A cursor at the start of the given tokens.
    pub fn new(toks: Vec<Token>) -> (r: Self)
        ensures
            r.tokens() == token_views(toks@),
            r.pos() == 0,
            r.wf(),
    {
        TokenBuffer { toks, index: 0 }
    }

    /// Whether the position is still within bounds.
    pub fn has_next(&self) -> (r: bool)
        ensures
            r == (self.pos() < self.tokens().len()),
    {
        self.index < self.toks.len()
    }

    /// Moves the position one token forward, then past any whitespace run.
    /// This is the only way the position changes; it is monotonic.
    pub fn advance(&mut self)
        requires
            old(self).wf(),
        ensures
            final(self).wf(),
            final(self).tokens() == old(self).tokens(),
            final(self).pos() == advanced_pos(old(self).tokens(), old(self).pos()),
            old(self).pos() < old(self).tokens().len() ==> old(self).pos() < final(self).pos(),
            !(token_at(final(self).tokens(), final(self).pos()).kind is White),
    {
        let ghost toks_v = self.tokens();
        let ghost start = self.pos();
        if self.index < self.toks.len() {
            self.index = self.index + 1;
            while self.index < self.toks.len() && self.toks[self.index].kind == Kind::White
                invariant
                    self.index <= self.toks.len(),
                    self.tokens() == toks_v,
                    start + 1 <= self.index,
                    next_non_white(toks_v, self.index as nat) == next_non_white(toks_v, start + 1),
                decreases self.toks.len() - self.index,
            {
                self.index = self.index + 1;
            }
            proof {
                lemma_next_non_white(toks_v, start + 1);
            }
        }
    }

    /// The token at the current position, or the end-of-stream sentinel when
    /// the position is out of bounds.  Never fails.
    pub fn current(&self) -> (r: Token)
        ensures
            r@ == token_at(self.tokens(), self.pos()),
    {
        if self.has_next() {
            let t = &self.toks[self.index];
            t.clone()
        } else {
            Token { kind: Kind::EOF, text: String::new() }
        }
    }

    /// Advances, then reads: pulls the next meaningful token, or the sentinel
    /// once the sequence is exhausted.
    pub fn next(&mut self) -> (r: Token)
        requires
            old(self).wf(),
        ensures
            final(self).wf(),
            final(self).tokens() == old(self).tokens(),
            final(self).pos() == advanced_pos(old(self).tokens(), old(self).pos()),
            old(self).pos() < old(self).tokens().len() ==> old(self).pos() < final(self).pos(),
            r@ == token_at(final(self).tokens(), final(self).pos()),
    {
        self.advance();
        self.current()
    }

    /// The current position as an index into the token sequence.
    pub fn position(&self) -> (r: usize)
        ensures
            r as nat == self.pos(),
    {
        self.index
    }
}

} // verus!
