//! The clauses a statement is made of: comparisons by field class, ordering
//! keys, and lists of them held apart by a connective.

use crate::fragment::{shape, Atom, Datum, QueryFragment, Value};
use crate::text::{decimal, digit, signed_decimal};
use vstd::prelude::*;
use vstd::string::StringExecFns;

verus! {

/// `column = ?`: the comparison of an exact-match field.
pub open spec fn spec_equals(column: Seq<char>, value: Datum) -> Seq<Atom> {
    seq![Atom::Text(column + " = "@), Atom::Bind(value)]
}

/// `POSITION(? IN LOWER(column)) > 0`: the comparison of a fuzzy field,
/// which holds where the bound text, already in lower case, occurs anywhere in
/// the lower-case form of the column. The bound text is looked for as it is:
/// no character of it stands for anything but itself.
pub open spec fn spec_contains(column: Seq<char>, lowered: Seq<char>) -> Seq<Atom> {
    seq![
        Atom::Text("POSITION("@),
        Atom::Bind(Datum::Text(lowered)),
        Atom::Text(" IN LOWER("@ + column + ")) > 0"@),
    ]
}

/// `column LIKE ? || '%'`: the comparison of a right-anchored field, which
/// holds where the column starts with the bound digits. What is bound is the
/// decimal text of a number, in which no character is a pattern.
pub open spec fn spec_starts_with(column: Seq<char>, digits: Seq<char>) -> Seq<Atom> {
    seq![
        Atom::Text(column + " LIKE "@),
        Atom::Bind(Datum::Text(digits)),
        Atom::Text(" || '%'"@),
    ]
}

/// `ABS(column - ?) ASC`: nearest to the bound target first.
pub open spec fn spec_nearest(column: Seq<char>, target: Datum) -> Seq<Atom> {
    seq![Atom::Text("ABS("@ + column + " - "@), Atom::Bind(target), Atom::Text(") ASC"@)]
}

/// `ABS(EXTRACT(EPOCH FROM (column - ?))) ASC`: nearest in time to the bound
/// instant first.
pub open spec fn spec_nearest_instant(column: Seq<char>, target: Datum) -> Seq<Atom> {
    seq![
        Atom::Text("ABS(EXTRACT(EPOCH FROM ("@ + column + " - "@),
        Atom::Bind(target),
        Atom::Text("))) ASC"@),
    ]
}

/// `ABS(column) DESC`: largest magnitude first.
pub open spec fn spec_largest(column: Seq<char>) -> Seq<Atom> {
    seq![Atom::Text("ABS("@ + column + ") DESC"@)]
}

/// `column ASC`.
pub open spec fn spec_ascending(column: Seq<char>) -> Seq<Atom> {
    seq![Atom::Text(column + " ASC"@)]
}

/// `column DESC`.
pub open spec fn spec_descending(column: Seq<char>) -> Seq<Atom> {
    seq![Atom::Text(column + " DESC"@)]
}

/// The comparison of an exact-match field with a bound value.
pub fn equals(column: &str, value: Value) -> (clause: QueryFragment)
    ensures
        clause@ == spec_equals(column@, value@),
{
    let head = String::from_str(column).concat(" = ");
    let mut clause = QueryFragment::text(head.as_str());
    clause.push_bind(value);
    assert(clause@ =~= spec_equals(column@, value@));
    clause
}

/// The comparison of a fuzzy field with a bound text that is already in lower
/// case.
pub fn contains(column: &str, lowered: String) -> (clause: QueryFragment)
    ensures
        clause@ == spec_contains(column@, lowered@),
{
    let tail = String::from_str(" IN LOWER(").concat(column).concat(")) > 0");
    let mut clause = QueryFragment::text("POSITION(");
    clause.push_bind(Value::Text(lowered));
    clause.push_text(tail.as_str());
    assert(clause@ =~= spec_contains(column@, lowered@));
    clause
}

/// The comparison of a right-anchored field with bound leading digits.
pub fn starts_with(column: &str, digits: String) -> (clause: QueryFragment)
    ensures
        clause@ == spec_starts_with(column@, digits@),
{
    let head = String::from_str(column).concat(" LIKE ");
    let mut clause = QueryFragment::text(head.as_str());
    clause.push_bind(Value::Text(digits));
    clause.push_text(" || '%'");
    assert(clause@ =~= spec_starts_with(column@, digits@));
    clause
}

/// The ordering key that puts rows nearest to `target` first.
pub fn nearest(column: &str, target: Value) -> (key: QueryFragment)
    ensures
        key@ == spec_nearest(column@, target@),
{
    let head = String::from_str("ABS(").concat(column).concat(" - ");
    let mut key = QueryFragment::text(head.as_str());
    key.push_bind(target);
    key.push_text(") ASC");
    assert(key@ =~= spec_nearest(column@, target@));
    key
}

/// The ordering key that puts rows nearest in time to `target` first.
pub fn nearest_instant(column: &str, target: Value) -> (key: QueryFragment)
    ensures
        key@ == spec_nearest_instant(column@, target@),
{
    let head = String::from_str("ABS(EXTRACT(EPOCH FROM (").concat(column).concat(" - ");
    let mut key = QueryFragment::text(head.as_str());
    key.push_bind(target);
    key.push_text("))) ASC");
    assert(key@ =~= spec_nearest_instant(column@, target@));
    key
}

/// The ordering key that puts rows of largest magnitude first.
pub fn largest(column: &str) -> (key: QueryFragment)
    ensures
        key@ == spec_largest(column@),
{
    let text = String::from_str("ABS(").concat(column).concat(") DESC");
    QueryFragment::text(text.as_str())
}

/// The ordering key `column ASC`.
pub fn ascending(column: &str) -> (key: QueryFragment)
    ensures
        key@ == spec_ascending(column@),
{
    let text = String::from_str(column).concat(" ASC");
    QueryFragment::text(text.as_str())
}

/// The ordering key `column DESC`.
pub fn descending(column: &str) -> (key: QueryFragment)
    ensures
        key@ == spec_descending(column@),
{
    let text = String::from_str(column).concat(" DESC");
    QueryFragment::text(text.as_str())
}

/// The parts in order, with `separator` as a text token between each two
/// neighbours and nowhere else.
pub open spec fn joined(parts: Seq<Seq<Atom>>, separator: Seq<char>) -> Seq<Atom>
    decreases parts.len(),
{
    if parts.len() == 0 {
        Seq::empty()
    } else if parts.len() == 1 {
        parts[0]
    } else {
        joined(parts.drop_last(), separator) + seq![Atom::Text(separator)] + parts.last()
    }
}

/// What each fragment of a list denotes, in order.
pub open spec fn views(parts: Seq<QueryFragment>) -> Seq<Seq<Atom>> {
    parts.map_values(|part: QueryFragment| part@)
}

/// The clause of a field: one where the field is given, none where it is not.
pub open spec fn given<T>(field: Option<T>, clause: spec_fn(T) -> Seq<Atom>) -> Seq<Seq<Atom>> {
    match field {
        Some(value) => seq![clause(value)],
        None => Seq::empty(),
    }
}

/// A list of one clause where there is one, of none where there is not.
pub open spec fn optional(clause: Option<QueryFragment>) -> Seq<Seq<Atom>> {
    match clause {
        Some(part) => seq![part@],
        None => Seq::empty(),
    }
}

/// Adds the clause at the end of the list, where there is one.
pub fn attach(list: &mut Vec<QueryFragment>, clause: Option<QueryFragment>)
    ensures
        views(final(list)@) == views(old(list)@) + optional(clause),
{
    if let Some(part) = clause {
        list.push(part);
    }
    assert(views(list@) =~= views(old(list)@) + optional(clause));
}

/// Joins the clauses in order, with `separator` between each two neighbours.
pub fn join(parts: Vec<QueryFragment>, separator: &str) -> (fragment: QueryFragment)
    ensures
        fragment@ == joined(views(parts@), separator@),
{
    let ghost all = views(parts@);
    let mut fragment = QueryFragment::new();
    let mut started = false;
    for part in it: parts.into_iter()
        invariant
            it.seq() == parts@,
            all == views(parts@),
            started == (it.index() > 0),
            fragment@ == joined(all.take(it.index() as int), separator@),
    {
        let ghost i = it.index() as int;
        if started {
            fragment.push_text(separator);
        }
        fragment.append(part);
        started = true;
        proof {
            assert(all[i] == part@);
            assert(all.take(i + 1).drop_last() =~= all.take(i));
            assert(all.take(i + 1).last() == part@);
            if i == 0 {
                assert(all.take(1)[0] == part@);
                assert(fragment@ =~= part@);
            }
        }
    }
    assert(all.take(all.len() as int) =~= all);
    fragment
}

/// The structure of each clause of a list, in order.
pub open spec fn shapes(parts: Seq<Seq<Atom>>) -> Seq<Seq<Option<Seq<char>>>> {
    parts.map_values(|part: Seq<Atom>| shape(part))
}

/// The structure of two runs of tokens put together is their structures put
/// together.
pub proof fn lemma_shape_concat(left: Seq<Atom>, right: Seq<Atom>)
    ensures
        shape(left + right) == shape(left) + shape(right),
{
    assert(shape(left + right) =~= shape(left) + shape(right));
}

/// The structures of two lists put together are their structures put
/// together.
pub proof fn lemma_shapes_concat(left: Seq<Seq<Atom>>, right: Seq<Seq<Atom>>)
    ensures
        shapes(left + right) == shapes(left) + shapes(right),
{
    assert(shapes(left + right) =~= shapes(left) + shapes(right));
}

/// Joining is blind to bound values: lists of clauses with the same
/// structures, clause by clause, join to runs with the same structure.
pub proof fn lemma_joined_shape(left: Seq<Seq<Atom>>, right: Seq<Seq<Atom>>, separator: Seq<char>)
    requires
        shapes(left) == shapes(right),
    ensures
        shape(joined(left, separator)) == shape(joined(right, separator)),
    decreases left.len(),
{
    assert(left.len() == shapes(left).len());
    assert(right.len() == shapes(right).len());
    if left.len() == 0 {
    } else {
        let last = left.len() - 1;
        assert(shapes(left)[last] == shape(left[last]));
        assert(shapes(right)[last] == shape(right[last]));
        if left.len() > 1 {
            assert(shapes(left.drop_last()) =~= shapes(left).drop_last());
            assert(shapes(right.drop_last()) =~= shapes(right).drop_last());
            lemma_joined_shape(left.drop_last(), right.drop_last(), separator);
            let between = seq![Atom::Text(separator)];
            lemma_shape_concat(joined(left.drop_last(), separator), between);
            lemma_shape_concat(joined(left.drop_last(), separator) + between, left.last());
            lemma_shape_concat(joined(right.drop_last(), separator), between);
            lemma_shape_concat(joined(right.drop_last(), separator) + between, right.last());
        }
    }
}

/// Whether `LIKE` reads a character of its pattern as something other than
/// that character.
pub open spec fn is_pattern(c: char) -> bool {
    c == '%' || c == '_' || c == '\\'
}

/// The digits of a number hold no pattern character.
pub proof fn lemma_decimal_is_plain(n: nat)
    ensures
        forall|k: int| 0 <= k < decimal(n).len() ==> !is_pattern(#[trigger] decimal(n)[k]),
    decreases n,
{
    let text = decimal(n);
    if n >= 10 {
        let front = decimal(n / 10);
        lemma_decimal_is_plain(n / 10);
        assert forall|k: int| 0 <= k < text.len() implies !is_pattern(#[trigger] text[k]) by {
            if k < front.len() {
                assert(text[k] == front[k]);
            } else {
                assert(text[k] == digit((n % 10) as int));
            }
        }
    } else {
        assert(text[0] == digit(n as int));
    }
}

/// What a right-anchored field binds, the decimal text of a number, holds no
/// pattern character: such a comparison holds exactly where the column starts
/// with that text.
pub proof fn anchored_text_is_plain(number: int)
    ensures
        forall|k: int|
            0 <= k < signed_decimal(number).len() ==> !is_pattern(
                #[trigger] signed_decimal(number)[k],
            ),
{
    if number < 0 {
        lemma_decimal_is_plain((-number) as nat);
    } else {
        lemma_decimal_is_plain(number as nat);
    }
}

} // verus!
