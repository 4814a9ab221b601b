//! The arguments of one directive, as keys with optional values.
//!
//! A directive such as `export(get, set = write_speed, hint = Range, hint_desc = "0,10")`
//! reaches this module as a map: `get` without a value, `set` with one token, and so on.
//! Handlers take a key out of the map and say what was found under it.

use vstd::prelude::*;
use crate::tokens::{TokenKind, Tokens, TokenView};

verus! {

/// Why a directive was refused.
#[derive(Clone, Copy, Debug, PartialEq, Eq, Structural)]
pub enum ParseErrorKind {
    /// The value of the key is not a single identifier.
    ExpectedIdentifier,
    /// The key stands alone where ` = value` has to follow.
    MissingValue,
    /// A key that has to be there is not.
    MissingKey,
    /// The key was given twice.
    DuplicateKey,
}

/// A refused directive: the key at fault and what is wrong with it.
#[derive(Debug, PartialEq, Eq)]
pub struct ParseError {
    pub key: String,
    pub kind: ParseErrorKind,
}

/// The view of a [`ParseError`].
pub struct ParseErrorView {
    pub key: Seq<char>,
    pub kind: ParseErrorKind,
}

impl View for ParseError {
    type V = ParseErrorView;

    open spec fn view(&self) -> ParseErrorView {
        ParseErrorView { key: self.key@, kind: self.kind }
    }
}

pub type ParseResult<T> = Result<T, ParseError>;

/// The value of a key: the tokens behind the `=`.
#[derive(Debug, PartialEq, Eq)]
pub struct KvValue {
    pub tokens: Tokens,
}

impl View for KvValue {
    type V = Seq<TokenView>;

    open spec fn view(&self) -> Seq<TokenView> {
        self.tokens@
    }
}

/// The identifier that a value consists of, if it is exactly one identifier token.
pub open spec fn spec_ident(value: Seq<TokenView>) -> Option<Seq<char>> {
    if value.len() == 1 && value[0].kind == TokenKind::Ident {
        Some(value[0].text)
    } else {
        None
    }
}

impl KvValue {
    /// The value as an expression: all of its tokens.
    pub fn expr(self) -> (tokens: Tokens)
        ensures
            tokens@ == self@,
    {
        self.tokens
    }

    /// The value as an identifier, or nothing if it is anything but one identifier.
    pub fn ident(self) -> (ident: Option<String>)
        ensures
            match ident {
                Some(name) => spec_ident(self@) == Some(name@),
                None => spec_ident(self@) is None,
            },
    {
        let mut items = self.tokens.items;
        if items.len() != 1 {
            return None;
        }
        match items.pop() {
            Some(token) => match token.kind {
                TokenKind::Ident => Some(token.text),
                _ => None,
            },
            None => None,
        }
    }
}

/// The view of what stands under a key: nothing, or the tokens of its value.
pub open spec fn value_view(value: Option<KvValue>) -> Option<Seq<TokenView>> {
    match value {
        Some(v) => Some(v@),
        None => None,
    }
}

/// What taking a key out of the map yields: nothing for a missing key, otherwise what
/// stands under it.
pub open spec fn spec_handle_any(
    map: Map<Seq<char>, Option<Seq<TokenView>>>,
    key: Seq<char>,
) -> Option<Option<Seq<TokenView>>> {
    if map.dom().contains(key) {
        Some(map[key])
    } else {
        None
    }
}

/// What an optional key that takes an identifier yields.
pub open spec fn spec_handle_ident(
    map: Map<Seq<char>, Option<Seq<TokenView>>>,
    key: Seq<char>,
) -> Result<Option<Seq<char>>, ParseErrorView> {
    match spec_handle_any(map, key) {
        None => Ok(None),
        Some(None) => Err(ParseErrorView { key, kind: ParseErrorKind::MissingValue }),
        Some(Some(value)) => match spec_ident(value) {
            Some(ident) => Ok(Some(ident)),
            None => Err(ParseErrorView { key, kind: ParseErrorKind::ExpectedIdentifier }),
        },
    }
}

/// What a required key that takes an expression yields.
pub open spec fn spec_handle_expr_required(
    map: Map<Seq<char>, Option<Seq<TokenView>>>,
    key: Seq<char>,
) -> Result<Seq<TokenView>, ParseErrorView> {
    match spec_handle_any(map, key) {
        None => Err(ParseErrorView { key, kind: ParseErrorKind::MissingKey }),
        Some(None) => Err(ParseErrorView { key, kind: ParseErrorKind::MissingValue }),
        Some(Some(value)) => Ok(value),
    }
}

struct KvEntry {
    key: String,
    value: Option<KvValue>,
}

/// The arguments of one directive. No key occurs twice.
pub struct KvParser {
    entries: Vec<KvEntry>,
}

impl View for KvParser {
    type V = Map<Seq<char>, Option<Seq<TokenView>>>;

    closed spec fn view(&self) -> Map<Seq<char>, Option<Seq<TokenView>>> {
        Map::new(
            |key: Seq<char>| exists|i: int| self.has_key_at(i, key),
            |key: Seq<char>| value_view(self.entries@[self.index_of(key)].value),
        )
    }
}

impl KvParser {
    spec fn has_key_at(&self, i: int, key: Seq<char>) -> bool {
        0 <= i < self.entries@.len() && self.entries@[i].key@ == key
    }

    spec fn index_of(&self, key: Seq<char>) -> int {
        choose|i: int| self.has_key_at(i, key)
    }

    /// No key occurs twice. Every parser that this module hands out is well formed.
    pub closed spec fn wf(&self) -> bool {
        forall|i: int, j: int|
            0 <= i < j < self.entries@.len() ==> self.entries@[i].key@ != self.entries@[j].key@
    }

    /// A directive without arguments.
    pub fn new() -> (parser: KvParser)
        ensures
            parser.wf(),
            parser@ == Map::<Seq<char>, Option<Seq<TokenView>>>::empty(),
    {
        KvParser { entries: Vec::new() }
    }

    fn find(&self, key: &str) -> (found: Option<usize>)
        ensures
            match found {
                Some(i) => self.has_key_at(i as int, key@),
                None => forall|i: int| !self.has_key_at(i, key@),
            },
    {
        let wanted = String::from_str(key);
        let mut i: usize = 0;
        while i < self.entries.len()
            invariant
                i <= self.entries.len(),
                wanted@ == key@,
                forall|j: int| 0 <= j < i ==> !self.has_key_at(j, key@),
            decreases self.entries.len() - i,
        {
            if self.entries[i].key == wanted {
                return Some(i);
            }
            i += 1;
        }
        None
    }

    /// Adds a key, with or without a value. A key that is already there is refused and
    /// the arguments stay as they were.
    pub fn insert(&mut self, key: String, value: Option<KvValue>) -> (added: ParseResult<()>)
        requires
            old(self).wf(),
        ensures
            final(self).wf(),
            match added {
                Ok(_) => !old(self)@.dom().contains(key@) && final(self)@ == old(self)@.insert(
                    key@,
                    value_view(value),
                ),
                Err(e) => old(self)@.dom().contains(key@) && final(self)@ == old(self)@ && e@ == (
                ParseErrorView { key: key@, kind: ParseErrorKind::DuplicateKey }),
            },
    {
        match self.find(key.as_str()) {
            Some(_) => Err(ParseError { key, kind: ParseErrorKind::DuplicateKey }),
            None => {
                let ghost before = *self;
                let ghost at = self.entries@.len() as int;
                self.entries.push(KvEntry { key, value });
                proof {
                    assert(self.has_key_at(at, key@));
                    assert forall|i: int, j: int| 0 <= i < j < self.entries@.len() implies
                        self.entries@[i].key@ != self.entries@[j].key@ by {
                        if j == at {
                            assert(!before.has_key_at(i, key@));
                        }
                    }
                    assert(self.wf());
                    assert forall|k: Seq<char>| #[trigger]
                        self@.dom().contains(k) <==> before@.insert(
                            key@,
                            value_view(value),
                        ).dom().contains(k) by {
                        if self@.dom().contains(k) {
                            let i = self.index_of(k);
                            if i != at {
                                assert(before.has_key_at(i, k));
                            }
                        }
                        if before@.dom().contains(k) {
                            let i = before.index_of(k);
                            assert(self.has_key_at(i, k));
                        }
                    }
                    assert forall|k: Seq<char>| #[trigger] self@.dom().contains(k) implies self@[k]
                        == before@.insert(key@, value_view(value))[k] by {
                        let i = self.index_of(k);
                        assert(self.has_key_at(i, k));
                        if k != key@ {
                            assert(before.has_key_at(i, k));
                            let j = before.index_of(k);
                            assert(before.has_key_at(j, k));
                            assert(i == j);
                        } else {
                            assert(i == at);
                        }
                    }
                    assert(self@ =~= before@.insert(key@, value_view(value)));
                }
                Ok(())
            },
        }
    }

    /// Takes a key out of the arguments, whatever stands under it.
    pub fn handle_any(&mut self, key: &str) -> (taken: Option<Option<KvValue>>)
        requires
            old(self).wf(),
        ensures
            final(self).wf(),
            final(self)@ == old(self)@.remove(key@),
            match taken {
                Some(value) => spec_handle_any(old(self)@, key@) == Some(value_view(value)),
                None => spec_handle_any(old(self)@, key@) is None,
            },
    {
        match self.find(key) {
            None => {
                assert(self@ =~= self@.remove(key@));
                None
            },
            Some(i) => {
                let ghost before = *self;
                let ghost at = i as int;
                let entry = self.entries.remove(i);
                proof {
                    assert(before.has_key_at(at, key@));
                    assert(before.index_of(key@) == at);
                    assert forall|k: Seq<char>| #[trigger]
                        self@.dom().contains(k) <==> before@.remove(key@).dom().contains(k) by {
                        if self@.dom().contains(k) {
                            let j = self.index_of(k);
                            if j < at {
                                assert(before.has_key_at(j, k));
                            } else {
                                assert(before.has_key_at(j + 1, k));
                            }
                        }
                        if before@.dom().contains(k) && k != key@ {
                            let j = before.index_of(k);
                            if j < at {
                                assert(self.has_key_at(j, k));
                            } else {
                                assert(self.has_key_at(j - 1, k));
                            }
                        }
                    }
                    assert forall|k: Seq<char>| #[trigger] self@.dom().contains(k) implies self@[k]
                        == before@.remove(key@)[k] by {
                        let j = self.index_of(k);
                        let j_before = if j < at {
                            j
                        } else {
                            j + 1
                        };
                        assert(before.has_key_at(j_before, k));
                        assert(before.index_of(k) == j_before);
                    }
                    assert(self@ =~= before@.remove(key@));
                }
                Some(entry.value)
            },
        }
    }

    /// Takes out an optional key whose value has to be one identifier.
    pub fn handle_ident(&mut self, key: &str) -> (found: ParseResult<Option<String>>)
        requires
            old(self).wf(),
        ensures
            final(self).wf(),
            final(self)@ == old(self)@.remove(key@),
            match found {
                Ok(Some(ident)) => spec_handle_ident(old(self)@, key@) == Ok::<
                    Option<Seq<char>>,
                    ParseErrorView,
                >(Some(ident@)),
                Ok(None) => spec_handle_ident(old(self)@, key@) == Ok::<
                    Option<Seq<char>>,
                    ParseErrorView,
                >(None),
                Err(e) => spec_handle_ident(old(self)@, key@) == Err::<
                    Option<Seq<char>>,
                    ParseErrorView,
                >(e@),
            },
    {
        match self.handle_any(key) {
            None => Ok(None),
            Some(None) => Err(
                ParseError { key: String::from_str(key), kind: ParseErrorKind::MissingValue },
            ),
            Some(Some(value)) => match value.ident() {
                Some(ident) => Ok(Some(ident)),
                None => Err(
                    ParseError {
                        key: String::from_str(key),
                        kind: ParseErrorKind::ExpectedIdentifier,
                    },
                ),
            },
        }
    }

    /// Takes out a key that has to be there and has to have a value.
    pub fn handle_expr_required(&mut self, key: &str) -> (found: ParseResult<Tokens>)
        requires
            old(self).wf(),
        ensures
            final(self).wf(),
            final(self)@ == old(self)@.remove(key@),
            match found {
                Ok(tokens) => spec_handle_expr_required(old(self)@, key@) == Ok::<
                    Seq<TokenView>,
                    ParseErrorView,
                >(tokens@),
                Err(e) => spec_handle_expr_required(old(self)@, key@) == Err::<
                    Seq<TokenView>,
                    ParseErrorView,
                >(e@),
            },
    {
        match self.handle_any(key) {
            None => Err(
                ParseError { key: String::from_str(key), kind: ParseErrorKind::MissingKey },
            ),
            Some(None) => Err(
                ParseError { key: String::from_str(key), kind: ParseErrorKind::MissingValue },
            ),
            Some(Some(value)) => Ok(value.expr()),
        }
    }
}

} // verus!
