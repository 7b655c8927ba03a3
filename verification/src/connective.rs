//! Well-formedness of statements: no connective is ever left without the
//! operand that it announces.

use crate::clause::{
    joined, spec_ascending, spec_contains, spec_descending, spec_equals, spec_largest,
    spec_nearest, spec_nearest_instant, spec_starts_with,
};
use crate::compiler::{spec_order_by, spec_scan, spec_select, spec_where};
use crate::fragment::{Atom, Datum};
use crate::pagination::{spec_limit_offset, Window};
use crate::text::decimal;
use vstd::prelude::*;

verus! {

/// Whether a token is one of the words that announce an operand: ` WHERE `,
/// ` AND `, `, ` and ` ORDER BY `.
pub open spec fn is_connective(atom: Atom) -> bool {
    ||| atom == Atom::Text(" WHERE "@)
    ||| atom == Atom::Text(" AND "@)
    ||| atom == Atom::Text(", "@)
    ||| atom == Atom::Text(" ORDER BY "@)
}

/// Whether no connective dangles: each one is followed by a token, and that
/// token is no connective.
pub open spec fn well_formed(statement: Seq<Atom>) -> bool {
    forall|i: int|
        0 <= i < statement.len() && is_connective(#[trigger] statement[i]) ==> i + 1
            < statement.len() && !is_connective(statement[i + 1])
}

/// Whether a run of tokens is an operand: it has a token, and none of its
/// tokens is a connective.
pub open spec fn is_operand(part: Seq<Atom>) -> bool {
    &&& part.len() > 0
    &&& forall|i: int| 0 <= i < part.len() ==> !is_connective(#[trigger] part[i])
}

/// Whether every clause of a list is an operand.
pub open spec fn all_operands(parts: Seq<Seq<Atom>>) -> bool {
    forall|k: int| 0 <= k < parts.len() ==> is_operand(#[trigger] parts[k])
}

/// Whether a text starts with something other than a blank or a comma.
pub open spec fn starts_plainly(text: Seq<char>) -> bool {
    text.len() > 0 && text[0] != ' ' && text[0] != ','
}

/// Every connective starts with a blank or a comma, so a text that starts
/// otherwise is none.
pub proof fn lemma_plain_start(text: Seq<char>)
    requires
        starts_plainly(text),
    ensures
        !is_connective(Atom::Text(text)),
{
    reveal_strlit(" WHERE ");
    reveal_strlit(" AND ");
    reveal_strlit(", ");
    reveal_strlit(" ORDER BY ");
    assert(" WHERE "@[0] == ' ');
    assert(" AND "@[0] == ' ');
    assert(", "@[0] == ',');
    assert(" ORDER BY "@[0] == ' ');
}

/// A text whose second character is none of `W`, `A`, `O` and the blank is no
/// connective.
pub proof fn lemma_plain_second(text: Seq<char>)
    requires
        text.len() > 1,
        text[1] != 'W',
        text[1] != 'A',
        text[1] != 'O',
        text[1] != ' ',
    ensures
        !is_connective(Atom::Text(text)),
{
    reveal_strlit(" WHERE ");
    reveal_strlit(" AND ");
    reveal_strlit(", ");
    reveal_strlit(" ORDER BY ");
    assert(" WHERE "@[1] == 'W');
    assert(" AND "@[1] == 'A');
    assert(", "@[1] == ' ');
    assert(" ORDER BY "@[1] == 'O');
}

/// Two well-formed runs put together are well-formed.
pub proof fn lemma_concat(left: Seq<Atom>, right: Seq<Atom>)
    requires
        well_formed(left),
        well_formed(right),
    ensures
        well_formed(left + right),
{
    let whole = left + right;
    assert forall|i: int| 0 <= i < whole.len() && is_connective(#[trigger] whole[i]) implies i
        + 1 < whole.len() && !is_connective(whole[i + 1]) by {
        if i < left.len() {
            assert(whole[i] == left[i]);
            assert(whole[i + 1] == left[i + 1]);
        } else {
            assert(whole[i] == right[i - left.len()]);
            assert(whole[i + 1] == right[i - left.len() + 1]);
        }
    }
}

/// An operand is well-formed, and so is an operand behind one token,
/// connective or not.
pub proof fn lemma_operand(head: Atom, part: Seq<Atom>)
    requires
        is_operand(part),
    ensures
        well_formed(part),
        well_formed(seq![head] + part),
{
    let whole = seq![head] + part;
    assert forall|i: int| 0 <= i < whole.len() && is_connective(#[trigger] whole[i]) implies i
        + 1 < whole.len() && !is_connective(whole[i + 1]) by {
        if i == 0 {
            assert(whole[1] == part[0]);
        } else {
            assert(whole[i] == part[i - 1]);
        }
    }
}

/// Operands joined by a separator are well-formed, and start with a token
/// that is no connective.
pub proof fn lemma_joined(parts: Seq<Seq<Atom>>, separator: Seq<char>)
    requires
        all_operands(parts),
        parts.len() > 0,
    ensures
        well_formed(joined(parts, separator)),
        joined(parts, separator).len() > 0,
        !is_connective(joined(parts, separator)[0]),
    decreases parts.len(),
{
    let last = parts.last();
    assert(is_operand(last));
    if parts.len() == 1 {
        assert(joined(parts, separator) == parts[0]);
        lemma_operand(Atom::Text(separator), last);
    } else {
        let front = parts.drop_last();
        assert forall|k: int| 0 <= k < front.len() implies is_operand(#[trigger] front[k]) by {
            assert(front[k] == parts[k]);
        }
        lemma_joined(front, separator);
        lemma_operand(Atom::Text(separator), last);
        lemma_concat(joined(front, separator), seq![Atom::Text(separator)] + last);
        assert(joined(parts, separator) =~= joined(front, separator) + (seq![
            Atom::Text(separator),
        ] + last));
        assert(joined(parts, separator)[0] == joined(front, separator)[0]);
    }
}

/// Lists of operands put together are a list of operands.
pub proof fn lemma_all_operands_concat(left: Seq<Seq<Atom>>, right: Seq<Seq<Atom>>)
    requires
        all_operands(left),
        all_operands(right),
    ensures
        all_operands(left + right),
{
    let whole = left + right;
    assert forall|k: int| 0 <= k < whole.len() implies is_operand(#[trigger] whole[k]) by {
        if k < left.len() {
            assert(whole[k] == left[k]);
        } else {
            assert(whole[k] == right[k - left.len()]);
        }
    }
}

/// A comparison by equality on a column whose name starts plainly is an
/// operand.
pub proof fn lemma_equals_operand(column: Seq<char>)
    requires
        starts_plainly(column),
    ensures
        forall|value: Datum| is_operand(#[trigger] spec_equals(column, value)),
{
    lemma_plain_start(column + " = "@);
}

/// A comparison by text is an operand.
pub proof fn lemma_contains_operand(column: Seq<char>)
    ensures
        forall|text: Seq<char>| is_operand(#[trigger] spec_contains(column, text)),
{
    reveal_strlit("POSITION(");
    reveal_strlit(" IN LOWER(");
    lemma_plain_start("POSITION("@);
    lemma_plain_second(" IN LOWER("@ + column + ")) > 0"@);
}

/// A comparison by leading digits on a column whose name starts plainly is an
/// operand.
pub proof fn lemma_starts_with_operand(column: Seq<char>)
    requires
        starts_plainly(column),
    ensures
        forall|digits: Seq<char>| is_operand(#[trigger] spec_starts_with(column, digits)),
{
    reveal_strlit(" || '%'");
    lemma_plain_start(column + " LIKE "@);
    lemma_plain_second(" || '%'"@);
}

/// An ordering key by nearness is an operand.
pub proof fn lemma_nearest_operand(column: Seq<char>)
    ensures
        forall|target: Datum| is_operand(#[trigger] spec_nearest(column, target)),
        forall|target: Datum| is_operand(#[trigger] spec_nearest_instant(column, target)),
        is_operand(spec_largest(column)),
{
    reveal_strlit("ABS(");
    reveal_strlit("ABS(EXTRACT(EPOCH FROM (");
    reveal_strlit(") ASC");
    reveal_strlit("))) ASC");
    lemma_plain_start("ABS("@ + column + " - "@);
    lemma_plain_start("ABS(EXTRACT(EPOCH FROM ("@ + column + " - "@);
    lemma_plain_start("ABS("@ + column + ") DESC"@);
    lemma_plain_start(") ASC"@);
    lemma_plain_start("))) ASC"@);
}

/// An ordering key by a column whose name starts plainly is an operand.
pub proof fn lemma_direction_operand(column: Seq<char>)
    requires
        starts_plainly(column),
    ensures
        is_operand(spec_ascending(column)),
        is_operand(spec_descending(column)),
{
    lemma_plain_start(column + " ASC"@);
    lemma_plain_start(column + " DESC"@);
}

/// A statement put together from operands is well-formed: `WHERE` stands only
/// before a predicate, `AND` and the comma only between two clauses, and
/// `ORDER BY` only before a key.
pub proof fn lemma_select(
    relation: Seq<char>,
    joins: Seq<Atom>,
    predicates: Seq<Seq<Atom>>,
    keys: Seq<Seq<Atom>>,
    fallback: Seq<Atom>,
    window: Window,
)
    requires
        forall|i: int| 0 <= i < joins.len() ==> !is_connective(#[trigger] joins[i]),
        all_operands(predicates),
        all_operands(keys),
        is_operand(fallback),
    ensures
        well_formed(spec_select(relation, joins, predicates, keys, fallback, window)),
{
    reveal_strlit("SELECT * FROM ");
    reveal_strlit(" LIMIT ");
    lemma_plain_start("SELECT * FROM "@ + relation);
    lemma_plain_second(" LIMIT "@ + decimal(window.limit as nat) + " OFFSET "@);
    let scan = spec_scan(relation);
    let filter = spec_where(predicates);
    let order = spec_order_by(keys, fallback);
    let limit = spec_limit_offset(window);
    assert(well_formed(scan));
    assert(well_formed(joins));
    assert(well_formed(limit));
    assert(well_formed(filter)) by {
        if predicates.len() > 0 {
            lemma_joined(predicates, " AND "@);
            let body = joined(predicates, " AND "@);
            let whole = seq![Atom::Text(" WHERE "@)] + body;
            assert forall|i: int|
                0 <= i < whole.len() && is_connective(#[trigger] whole[i]) implies i + 1
                < whole.len() && !is_connective(whole[i + 1]) by {
                if i == 0 {
                    assert(whole[1] == body[0]);
                } else {
                    assert(whole[i] == body[i - 1]);
                    assert(whole[i + 1] == body[i]);
                }
            }
        }
    }
    assert(well_formed(order)) by {
        if keys.len() > 0 {
            lemma_joined(keys, ", "@);
            let body = joined(keys, ", "@);
            let whole = seq![Atom::Text(" ORDER BY "@)] + body;
            assert forall|i: int|
                0 <= i < whole.len() && is_connective(#[trigger] whole[i]) implies i + 1
                < whole.len() && !is_connective(whole[i + 1]) by {
                if i == 0 {
                    assert(whole[1] == body[0]);
                } else {
                    assert(whole[i] == body[i - 1]);
                    assert(whole[i + 1] == body[i]);
                }
            }
        } else {
            lemma_operand(Atom::Text(" ORDER BY "@), fallback);
        }
    }
    lemma_concat(scan, joins);
    lemma_concat(scan + joins, filter);
    lemma_concat(scan + joins + filter, order);
    lemma_concat(scan + joins + filter + order, limit);
}

} // verus!
