//! The statement under construction: an ordered run of text tokens and bound
//! values. Caller data only ever enters as a bound value.

use crate::calendar::{Date, DateTime};
use crate::decimal::{Decimal, DecimalView};
use crate::text::{decimal, decimal_text};
use vstd::prelude::*;
use vstd::string::StringExecFns;

verus! {

/// A value handed to the store beside the statement text.
#[derive(Debug, PartialEq, Eq)]
pub enum Value {
    SmallInt(i16),
    Int(i32),
    BigInt(i64),
    Text(String),
    Date(Date),
    Timestamp(DateTime),
    Decimal(Decimal),
}

/// What a `Value` denotes.
pub enum Datum {
    SmallInt(i16),
    Int(i32),
    BigInt(i64),
    Text(Seq<char>),
    Date(Date),
    Timestamp(DateTime),
    Decimal(DecimalView),
}

impl View for Value {
    type V = Datum;

    open spec fn view(&self) -> Datum {
        match *self {
            Value::SmallInt(n) => Datum::SmallInt(n),
            Value::Int(n) => Datum::Int(n),
            Value::BigInt(n) => Datum::BigInt(n),
            Value::Text(s) => Datum::Text(s@),
            Value::Date(d) => Datum::Date(d),
            Value::Timestamp(t) => Datum::Timestamp(t),
            Value::Decimal(d) => Datum::Decimal(d@),
        }
    }
}

/// One piece of a statement.
#[derive(Clone, Debug, PartialEq, Eq)]
pub enum Token {
    /// Statement text, written by the compiler.
    Text(String),
    /// A place for a value, with the value that fills it.
    Bind(Value),
}

/// What a `Token` denotes.
pub enum Atom {
    Text(Seq<char>),
    Bind(Datum),
}

impl View for Token {
    type V = Atom;

    open spec fn view(&self) -> Atom {
        match *self {
            Token::Text(s) => Atom::Text(s@),
            Token::Bind(v) => Atom::Bind(v@),
        }
    }
}

/// A statement, or a part of one, as its tokens in order.
#[derive(Clone, Debug, PartialEq, Eq)]
pub struct QueryFragment {
    pub tokens: Vec<Token>,
}

impl View for QueryFragment {
    type V = Seq<Atom>;

    open spec fn view(&self) -> Seq<Atom> {
        self.tokens@.map_values(|t: Token| t@)
    }
}

impl QueryFragment {
    /// The fragment without tokens.
    pub fn new() -> (fragment: QueryFragment)
        ensures
            fragment@ == Seq::<Atom>::empty(),
    {
        let fragment = QueryFragment { tokens: Vec::new() };
        assert(fragment@ =~= Seq::<Atom>::empty());
        fragment
    }

    /// The fragment of one text token.
    pub fn text(text: &str) -> (fragment: QueryFragment)
        ensures
            fragment@ == seq![Atom::Text(text@)],
    {
        let mut fragment = QueryFragment::new();
        fragment.push_text(text);
        assert(fragment@ =~= seq![Atom::Text(text@)]);
        fragment
    }

    /// The number of tokens.
    pub fn len(&self) -> (n: usize)
        ensures
            n == self@.len(),
    {
        self.tokens.len()
    }

    /// Whether there is no token.
    pub fn is_empty(&self) -> (empty: bool)
        ensures
            empty == (self@.len() == 0),
    {
        self.tokens.len() == 0
    }

    /// Adds statement text at the end.
    pub fn push_text(&mut self, text: &str)
        ensures
            final(self)@ == old(self)@.push(Atom::Text(text@)),
    {
        self.tokens.push(Token::Text(String::from_str(text)));
        assert(self@ =~= old(self)@.push(Atom::Text(text@)));
    }

    /// Adds a place for a value at the end, filled with `value`.
    pub fn push_bind(&mut self, value: Value)
        ensures
            final(self)@ == old(self)@.push(Atom::Bind(value@)),
    {
        self.tokens.push(Token::Bind(value));
        assert(self@ =~= old(self)@.push(Atom::Bind(value@)));
    }

    /// Adds the tokens of `other` at the end, in their order.
    pub fn append(&mut self, other: QueryFragment)
        ensures
            final(self)@ == old(self)@ + other@,
    {
        let ghost added = other@;
        let mut rest = other.tokens;
        self.tokens.append(&mut rest);
        assert(self@ =~= old(self)@ + added);
    }
}

/// The structure of a statement: its text tokens as they are, and a hole in
/// place of each bound value, whatever the value.
pub open spec fn shape(atoms: Seq<Atom>) -> Seq<Option<Seq<char>>> {
    atoms.map_values(
        |atom: Atom|
            match atom {
                Atom::Text(text) => Some(text),
                Atom::Bind(_) => None,
            },
    )
}

/// The values bound in a statement, in the order of their places.
pub open spec fn bound(atoms: Seq<Atom>) -> Seq<Datum>
    decreases atoms.len(),
{
    if atoms.len() == 0 {
        Seq::empty()
    } else {
        match atoms.last() {
            Atom::Text(_) => bound(atoms.drop_last()),
            Atom::Bind(value) => bound(atoms.drop_last()).push(value),
        }
    }
}

/// The number of holes in a structure.
pub open spec fn holes(shape: Seq<Option<Seq<char>>>) -> nat
    decreases shape.len(),
{
    if shape.len() == 0 {
        0
    } else if shape.last() is None {
        holes(shape.drop_last()) + 1
    } else {
        holes(shape.drop_last())
    }
}

/// The text of a structure: the text tokens in order, and for the k-th hole,
/// counted from one, the placeholder `$k`.
pub open spec fn spec_text(shape: Seq<Option<Seq<char>>>) -> Seq<char>
    decreases shape.len(),
{
    if shape.len() == 0 {
        Seq::empty()
    } else {
        match shape.last() {
            Some(text) => spec_text(shape.drop_last()) + text,
            None => spec_text(shape.drop_last()) + seq!['$'] + decimal(
                holes(shape.drop_last()) + 1,
            ),
        }
    }
}

impl QueryFragment {
    /// Writes the statement text, with a numbered placeholder in place of
    /// each bound value. No bound value has any part in it.
    pub fn sql(&self) -> (text: String)
        ensures
            text@ == spec_text(shape(self@)),
    {
        let ghost all = shape(self@);
        let mut text = String::new();
        let mut placed: u64 = 0;
        let count = self.tokens.len();
        for i in 0..count
            invariant
                count == self.tokens@.len(),
                all == shape(self@),
                all.len() == count,
                placed == holes(all.take(i as int)),
                placed <= i,
                text@ == spec_text(all.take(i as int)),
        {
            proof {
                assert(all.take(i + 1).drop_last() =~= all.take(i as int));
                assert(all.take(i + 1).last() == all[i as int]);
                assert(self@[i as int] == self.tokens@[i as int]@);
            }
            match &self.tokens[i] {
                Token::Text(piece) => {
                    text.append(piece.as_str());
                },
                Token::Bind(_) => {
                    placed = placed + 1;
                    let number = decimal_text(placed);
                    text.append("$");
                    text.append(number.as_str());
                    proof {
                        reveal_strlit("$");
                        assert("$"@ =~= seq!['$']);
                    }
                },
            }
            assert(text@ =~= spec_text(all.take(i + 1)));
        }
        assert(all.take(count as int) =~= all);
        text
    }

    /// The values to bind, in the order of their places.
    pub fn values(&self) -> (values: Vec<Value>)
        ensures
            values@.map_values(|value: Value| value@) == bound(self@),
    {
        let mut values: Vec<Value> = Vec::new();
        let count = self.tokens.len();
        for i in 0..count
            invariant
                count == self.tokens@.len(),
                values@.map_values(|value: Value| value@) == bound(self@.take(i as int)),
        {
            proof {
                assert(self@.take(i + 1).drop_last() =~= self@.take(i as int));
                assert(self@.take(i + 1).last() == self.tokens@[i as int]@);
            }
            match &self.tokens[i] {
                Token::Text(_) => {},
                Token::Bind(value) => {
                    values.push(value.clone());
                },
            }
            assert(values@.map_values(|value: Value| value@) =~= bound(self@.take(i + 1)));
        }
        assert(self@.take(count as int) =~= self@);
        values
    }
}

impl Clone for Value {
    fn clone(&self) -> (copy: Value)
        ensures
            copy@ == self@,
    {
        match self {
            Value::SmallInt(n) => Value::SmallInt(*n),
            Value::Int(n) => Value::Int(*n),
            Value::BigInt(n) => Value::BigInt(*n),
            Value::Text(s) => Value::Text(s.clone()),
            Value::Date(d) => Value::Date(*d),
            Value::Timestamp(t) => Value::Timestamp(*t),
            Value::Decimal(d) => Value::Decimal(d.clone()),
        }
    }
}

} // verus!
