//! Token sequences as the export directives and field types carry them.

use vstd::prelude::*;

verus! {

/// The four shapes a token can have.
#[derive(Clone, Copy, Debug, PartialEq, Eq, Structural)]
pub enum TokenKind {
    /// A delimited group, kept as its source text.
    Group,
    /// An identifier.
    Ident,
    /// A single punctuation character.
    Punct,
    /// A literal, kept as its source text.
    Literal,
}

/// One token: its shape, its source text, and for punctuation whether the next
/// token follows without a gap.
#[derive(Debug, PartialEq, Eq)]
pub struct Token {
    pub kind: TokenKind,
    pub text: String,
    pub joint: bool,
}

/// The view of a token.
pub struct TokenView {
    pub kind: TokenKind,
    pub text: Seq<char>,
    pub joint: bool,
}

impl View for Token {
    type V = TokenView;

    open spec fn view(&self) -> TokenView {
        TokenView { kind: self.kind, text: self.text@, joint: self.joint }
    }
}

impl Clone for Token {
    fn clone(&self) -> (copy: Token)
        ensures
            copy@ == self@,
    {
        Token { kind: self.kind, text: self.text.clone(), joint: self.joint }
    }
}

/// A sequence of tokens: an expression, a type, the value of a directive.
#[derive(Debug, PartialEq, Eq)]
pub struct Tokens {
    pub items: Vec<Token>,
}

impl View for Tokens {
    type V = Seq<TokenView>;

    open spec fn view(&self) -> Seq<TokenView> {
        Seq::new(self.items@.len(), |i: int| self.items@[i]@)
    }
}

impl Clone for Tokens {
    fn clone(&self) -> (copy: Tokens)
        ensures
            copy@ == self@,
    {
        let mut items: Vec<Token> = Vec::new();
        let mut i: usize = 0;
        while i < self.items.len()
            invariant
                i <= self.items.len(),
                items.len() == i,
                forall|j: int| 0 <= j < i ==> items@[j]@ == self.items@[j]@,
            decreases self.items.len() - i,
        {
            items.push(self.items[i].clone());
            i += 1;
        }
        let copy = Tokens { items };
        assert(copy@ =~= self@);
        copy
    }
}

} // verus!
