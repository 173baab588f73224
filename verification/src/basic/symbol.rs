//! The symbol: a one-character name with an optional subscript.

use vstd::prelude::*;
use crate::basic::decimal::{
    decimal_digits, lemma_decimal_digits_are_digits, lemma_decimal_digits_injective, push_decimal,
};

verus! {

/// A symbol with a `name` and a `subscript`. The name is a single `char`, so
/// that names stay short; symbols that share a name are told apart by the
/// subscript. A symbol named `x` without subscript is written `x`, and a
/// symbol named `y` with subscript `32` is written `y_32`.
#[derive(Debug, PartialEq, Eq, Hash, Structural)]
pub struct Symbol {
    name: char,
    subscript: Option<usize>,
}

/// What a symbol is: its name and its subscript.
pub struct SymbolView {
    pub name: char,
    pub subscript: Option<nat>,
}

impl View for Symbol {
    type V = SymbolView;

    closed spec fn view(&self) -> SymbolView {
        SymbolView {
            name: self.name,
            subscript: match self.subscript {
                Some(n) => Some(n as nat),
                None => None,
            },
        }
    }
}

impl SymbolView {
    /// The symbol with the given name and subscript.
    pub open spec fn new(name: char, subscript: Option<usize>) -> SymbolView {
        SymbolView {
            name,
            subscript: match subscript {
                Some(n) => Some(n as nat),
                None => None,
            },
        }
    }

    /// The symbol with the given name and no subscript.
    pub open spec fn with_name(name: char) -> SymbolView {
        SymbolView { name, subscript: None }
    }

    /// The symbol with the given name and the given subscript.
    pub open spec fn with_name_and_subscript(name: char, subscript: usize) -> SymbolView {
        SymbolView { name, subscript: Some(subscript as nat) }
    }

    /// The symbol that stands where none was chosen: `x`, without subscript.
    pub open spec fn placeholder() -> SymbolView {
        SymbolView { name: 'x', subscript: None }
    }

    /// The one written form of a symbol: the name alone where there is no
    /// subscript, else the name, the separator `_` and the subscript in
    /// decimal notation.
    pub open spec fn rendering(self) -> Seq<char> {
        match self.subscript {
            None => seq![self.name],
            Some(n) => seq![self.name, '_'] + decimal_digits(n),
        }
    }
}

impl Symbol {
    /// Creates a symbol that holds exactly the given name and subscript.
    pub fn new(name: char, subscript: Option<usize>) -> (symbol: Self)
        ensures
            symbol@ == SymbolView::new(name, subscript),
    {
        Self { name, subscript }
    }

    /// Creates a `Symbol` with name only.
    pub fn with_name(name: char) -> (symbol: Self)
        ensures
            symbol@ == SymbolView::with_name(name),
    {
        Self { name, subscript: None }
    }

    /// Creates a `Symbol` with a name and a subscript.
    pub fn with_name_and_subscript(name: char, subscript: usize) -> (symbol: Self)
        ensures
            symbol@ == SymbolView::with_name_and_subscript(name, subscript),
    {
        Self { name, subscript: Some(subscript) }
    }

    /// The written form of the symbol.
    pub fn to_string(&self) -> (text: String)
        ensures
            text@ == self@.rendering(),
    {
        let mut text = String::new();
        text.push(self.name);
        match self.subscript {
            None => {},
            Some(n) => {
                text.push('_');
                push_decimal(&mut text, n);
            },
        }
        text
    }
}

impl Default for Symbol {
    /// The default name is `x`, and the default subscript is `None`.
    fn default() -> (symbol: Self)
        ensures
            symbol@ == SymbolView::placeholder(),
            symbol@.rendering() == seq!['x'],
    {
        Self { name: 'x', subscript: None }
    }
}

impl Clone for Symbol {
    /// The copy is equal to the symbol it was made from.
    fn clone(&self) -> (copy: Self)
        ensures
            copy == *self,
    {
        Self { name: self.name, subscript: self.subscript }
    }
}

/// Two symbols are equal exactly when they have the same name and the same
/// subscript.
pub proof fn lemma_equal_iff_same_fields(a: Symbol, b: Symbol)
    ensures
        a == b <==> a@ == b@,
        a == b <==> a@.name == b@.name && a@.subscript == b@.subscript,
{
}

/// Equality of symbols is reflexive, symmetric and transitive.
pub proof fn lemma_equality_is_equivalence(a: Symbol, b: Symbol, c: Symbol)
    ensures
        a == a,
        a == b ==> b == a,
        a == b && b == c ==> a == c,
{
}

/// A symbol made from a name alone is the symbol made from that name and no
/// subscript.
pub proof fn lemma_with_name_is_new(named: Symbol, made: Symbol, name: char)
    requires
        named@ == SymbolView::with_name(name),
        made@ == SymbolView::new(name, None),
    ensures
        named == made,
{
}

/// A symbol made from a name and a subscript is the symbol made from that
/// name and that subscript as an optional one.
pub proof fn lemma_with_name_and_subscript_is_new(
    named: Symbol,
    made: Symbol,
    name: char,
    subscript: usize,
)
    requires
        named@ == SymbolView::with_name_and_subscript(name, subscript),
        made@ == SymbolView::new(name, Some(subscript)),
    ensures
        named == made,
{
}

/// A symbol made from a name and an optional subscript is written as the name
/// alone where there is no subscript, else as the name, `_` and the decimal
/// digits of the subscript.
pub proof fn lemma_rendering_of_new(name: char, subscript: Option<usize>)
    ensures
        subscript is None ==> SymbolView::new(name, subscript).rendering() == seq![name],
        subscript is Some ==> SymbolView::new(name, subscript).rendering() == seq![name] + seq!['_']
            + decimal_digits(subscript->0 as nat),
{
}

/// A symbol with a subscript is never written like one without: the written
/// form of the first has at least three characters, that of the second one.
pub proof fn lemma_rendering_length(symbol: SymbolView)
    ensures
        symbol.subscript is None ==> symbol.rendering().len() == 1,
        symbol.subscript is Some ==> symbol.rendering().len() >= 3,
        symbol.rendering()[0] == symbol.name,
{
    if let Some(n) = symbol.subscript {
        lemma_decimal_digits_are_digits(n);
    }
}

/// Symbols that are written alike are the same symbol.
pub proof fn lemma_rendering_injective(a: SymbolView, b: SymbolView)
    requires
        a.rendering() == b.rendering(),
    ensures
        a == b,
{
    lemma_rendering_length(a);
    lemma_rendering_length(b);
    if let Some(m) = a.subscript {
        let n = b.subscript->0;
        assert(a.rendering().subrange(2, a.rendering().len() as int) == decimal_digits(m));
        assert(b.rendering().subrange(2, b.rendering().len() as int) == decimal_digits(n));
        lemma_decimal_digits_injective(m, n);
    }
}

} // verus!
