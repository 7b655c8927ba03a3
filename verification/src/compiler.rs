//! Puts the clauses of one statement together: relation, joins, predicates,
//! ordering, window. A connective is written only where something follows it.

use crate::clause::{
    join, joined, lemma_joined_shape, lemma_shape_concat, shapes, views,
};
use crate::fragment::{shape, Atom, QueryFragment};
use crate::pagination::{limit_offset, spec_limit_offset, Window};
use vstd::prelude::*;
use vstd::string::StringExecFns;

verus! {

/// `SELECT * FROM relation`.
pub open spec fn spec_scan(relation: Seq<char>) -> Seq<Atom> {
    seq![Atom::Text("SELECT * FROM "@ + relation)]
}

/// ` WHERE a AND b ...`, or nothing at all where there is no predicate.
pub open spec fn spec_where(predicates: Seq<Seq<Atom>>) -> Seq<Atom> {
    if predicates.len() == 0 {
        Seq::empty()
    } else {
        seq![Atom::Text(" WHERE "@)] + joined(predicates, " AND "@)
    }
}

/// ` ORDER BY a, b ...`, with the fallback key where no other is given, so
/// that the order is always stated.
pub open spec fn spec_order_by(keys: Seq<Seq<Atom>>, fallback: Seq<Atom>) -> Seq<Atom> {
    seq![Atom::Text(" ORDER BY "@)] + if keys.len() == 0 {
        fallback
    } else {
        joined(keys, ", "@)
    }
}

/// The statement that looks one row up by a single comparison, with no join,
/// order or window.
pub open spec fn spec_lookup(relation: Seq<char>, predicate: Seq<Atom>) -> Seq<Atom> {
    spec_scan(relation) + seq![Atom::Text(" WHERE "@)] + predicate
}

/// The statement that selects from `relation` through `joins` the rows that
/// meet every predicate, ordered by the keys and cut to `window`.
pub open spec fn spec_select(
    relation: Seq<char>,
    joins: Seq<Atom>,
    predicates: Seq<Seq<Atom>>,
    keys: Seq<Seq<Atom>>,
    fallback: Seq<Atom>,
    window: Window,
) -> Seq<Atom> {
    spec_scan(relation) + joins + spec_where(predicates) + spec_order_by(keys, fallback)
        + spec_limit_offset(window)
}

/// The fragment `SELECT * FROM relation`.
pub fn scan(relation: &str) -> (statement: QueryFragment)
    ensures
        statement@ == spec_scan(relation@),
{
    let text = String::from_str("SELECT * FROM ").concat(relation);
    QueryFragment::text(text.as_str())
}

/// The clause that keeps the rows meeting every predicate: empty where there
/// is none.
pub fn where_clause(predicates: Vec<QueryFragment>) -> (clause: QueryFragment)
    ensures
        clause@ == spec_where(views(predicates@)),
{
    let mut clause = QueryFragment::new();
    if predicates.len() > 0 {
        clause.push_text(" WHERE ");
        clause.append(join(predicates, " AND "));
    }
    assert(clause@ =~= spec_where(views(predicates@)));
    clause
}

/// The clause that orders the rows by `keys`, or by `fallback` where there is
/// no key.
pub fn order_by(keys: Vec<QueryFragment>, fallback: QueryFragment) -> (clause: QueryFragment)
    ensures
        clause@ == spec_order_by(views(keys@), fallback@),
{
    let mut clause = QueryFragment::text(" ORDER BY ");
    if keys.len() > 0 {
        clause.append(join(keys, ", "));
    } else {
        clause.append(fallback);
    }
    assert(clause@ =~= spec_order_by(views(keys@), fallback@));
    clause
}

/// The statement that looks one row up by a single comparison.
pub fn lookup(relation: &str, predicate: QueryFragment) -> (statement: QueryFragment)
    ensures
        statement@ == spec_lookup(relation@, predicate@),
{
    let mut statement = scan(relation);
    statement.push_text(" WHERE ");
    statement.append(predicate);
    assert(statement@ =~= spec_lookup(relation@, predicate@));
    statement
}

/// The statement that selects from `relation` through `joins` the rows that
/// meet every predicate, ordered by the keys and cut to `window`.
pub fn select(
    relation: &str,
    joins: QueryFragment,
    predicates: Vec<QueryFragment>,
    keys: Vec<QueryFragment>,
    fallback: QueryFragment,
    window: Window,
) -> (statement: QueryFragment)
    ensures
        statement@ == spec_select(
            relation@,
            joins@,
            views(predicates@),
            views(keys@),
            fallback@,
            window,
        ),
{
    let mut statement = scan(relation);
    statement.append(joins);
    statement.append(where_clause(predicates));
    statement.append(order_by(keys, fallback));
    statement.append(limit_offset(window));
    statement
}

/// The structure of a statement is settled by the structures of its clauses
/// and by the limit: no bound value, and no offset, has any part in it.
pub proof fn lemma_select_shape(
    relation: Seq<char>,
    joins: (Seq<Atom>, Seq<Atom>),
    predicates: (Seq<Seq<Atom>>, Seq<Seq<Atom>>),
    keys: (Seq<Seq<Atom>>, Seq<Seq<Atom>>),
    fallback: Seq<Atom>,
    window: (Window, Window),
)
    requires
        shape(joins.0) == shape(joins.1),
        shapes(predicates.0) == shapes(predicates.1),
        shapes(keys.0) == shapes(keys.1),
        window.0.limit == window.1.limit,
    ensures
        shape(spec_select(relation, joins.0, predicates.0, keys.0, fallback, window.0)) == shape(
            spec_select(relation, joins.1, predicates.1, keys.1, fallback, window.1),
        ),
{
    let scan = spec_scan(relation);
    assert(predicates.0.len() == shapes(predicates.0).len());
    assert(predicates.1.len() == shapes(predicates.1).len());
    assert(keys.0.len() == shapes(keys.0).len());
    assert(keys.1.len() == shapes(keys.1).len());
    assert(shape(spec_where(predicates.0)) == shape(spec_where(predicates.1))) by {
        if predicates.0.len() > 0 {
            lemma_joined_shape(predicates.0, predicates.1, " AND "@);
            lemma_shape_concat(seq![Atom::Text(" WHERE "@)], joined(predicates.0, " AND "@));
            lemma_shape_concat(seq![Atom::Text(" WHERE "@)], joined(predicates.1, " AND "@));
        }
    }
    assert(shape(spec_order_by(keys.0, fallback)) == shape(spec_order_by(keys.1, fallback))) by {
        if keys.0.len() > 0 {
            lemma_joined_shape(keys.0, keys.1, ", "@);
            lemma_shape_concat(seq![Atom::Text(" ORDER BY "@)], joined(keys.0, ", "@));
            lemma_shape_concat(seq![Atom::Text(" ORDER BY "@)], joined(keys.1, ", "@));
        }
    }
    assert(shape(spec_limit_offset(window.0)) =~= shape(spec_limit_offset(window.1)));
    lemma_shape_concat(scan, joins.0);
    lemma_shape_concat(scan, joins.1);
    lemma_shape_concat(scan + joins.0, spec_where(predicates.0));
    lemma_shape_concat(scan + joins.1, spec_where(predicates.1));
    lemma_shape_concat(
        scan + joins.0 + spec_where(predicates.0),
        spec_order_by(keys.0, fallback),
    );
    lemma_shape_concat(
        scan + joins.1 + spec_where(predicates.1),
        spec_order_by(keys.1, fallback),
    );
    lemma_shape_concat(
        scan + joins.0 + spec_where(predicates.0) + spec_order_by(keys.0, fallback),
        spec_limit_offset(window.0),
    );
    lemma_shape_concat(
        scan + joins.1 + spec_where(predicates.1) + spec_order_by(keys.1, fallback),
        spec_limit_offset(window.1),
    );
}

} // verus!
