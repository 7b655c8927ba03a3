use purchase_json::calendar::{Date, DateTime, Time};
use purchase_json::clause::{
    ascending, attach, contains, descending, equals, join, largest, nearest, nearest_instant,
    starts_with,
};
use purchase_json::compiler::{lookup, order_by, scan, select, where_clause};
use purchase_json::decimal::Decimal;
use purchase_json::fragment::{QueryFragment, Token, Value};
use purchase_json::pagination::Window;

fn text(text: &str) -> Token {
    Token::Text(text.to_string())
}

#[test]
fn fragment_grows_at_the_end() {
    let mut fragment = QueryFragment::new();
    assert!(fragment.is_empty());
    assert_eq!(fragment.len(), 0);
    fragment.push_text("a = ");
    fragment.push_bind(Value::Int(1));
    let mut tail = QueryFragment::text(" AND b = ");
    tail.push_bind(Value::Text("x".to_string()));
    fragment.append(tail);
    assert!(!fragment.is_empty());
    assert_eq!(fragment.len(), 4);
    assert_eq!(
        fragment.tokens,
        vec![
            text("a = "),
            Token::Bind(Value::Int(1)),
            text(" AND b = "),
            Token::Bind(Value::Text("x".to_string())),
        ]
    );
    assert_eq!(fragment.sql(), "a = $1 AND b = $2");
    assert_eq!(
        fragment.values(),
        vec![Value::Int(1), Value::Text("x".to_string())]
    );
}

#[test]
fn placeholders_count_from_one_and_past_nine() {
    let mut fragment = QueryFragment::new();
    for n in 0..12 {
        fragment.push_text("(");
        fragment.push_bind(Value::SmallInt(n));
        fragment.push_text(")");
    }
    assert_eq!(
        fragment.sql(),
        "($1)($2)($3)($4)($5)($6)($7)($8)($9)($10)($11)($12)"
    );
    assert_eq!(fragment.values().len(), 12);
    assert_eq!(fragment.values()[9], Value::SmallInt(9));
}

#[test]
fn empty_fragment_has_no_text() {
    assert_eq!(QueryFragment::new().sql(), "");
    assert_eq!(QueryFragment::new().values(), vec![]);
}

#[test]
fn values_are_copied_as_they_are() {
    let moment = DateTime {
        date: Date { year: 2024, month: 2, day: 29 },
        time: Time { hour: 23, minute: 59, second: 59, nanosecond: 5 },
    };
    let amount = Decimal { unscaled: vec![0x39, 0x30], scale: 2 };
    let mut fragment = QueryFragment::new();
    fragment.push_bind(Value::BigInt(-9));
    fragment.push_bind(Value::Date(moment.date));
    fragment.push_bind(Value::Timestamp(moment));
    fragment.push_bind(Value::Decimal(amount.clone()));
    assert_eq!(
        fragment.values(),
        vec![
            Value::BigInt(-9),
            Value::Date(moment.date),
            Value::Timestamp(moment),
            Value::Decimal(amount),
        ]
    );
    assert_eq!(fragment.sql(), "$1$2$3$4");
}

#[test]
fn comparisons_follow_the_field_class() {
    assert_eq!(
        equals("zip", Value::Int(5)).tokens,
        vec![text("zip = "), Token::Bind(Value::Int(5))]
    );
    assert_eq!(
        contains("city", "aus".to_string()).tokens,
        vec![
            text("POSITION("),
            Token::Bind(Value::Text("aus".to_string())),
            text(" IN LOWER(city)) > 0"),
        ]
    );
    assert_eq!(
        starts_with("ssn", "12".to_string()).tokens,
        vec![
            text("ssn LIKE "),
            Token::Bind(Value::Text("12".to_string())),
            text(" || '%'"),
        ]
    );
}

#[test]
fn ordering_keys_have_their_forms() {
    assert_eq!(
        nearest("dob", Value::Int(1)).sql(),
        "ABS(dob - $1) ASC"
    );
    assert_eq!(
        nearest_instant("t", Value::Int(1)).sql(),
        "ABS(EXTRACT(EPOCH FROM (t - $1))) ASC"
    );
    assert_eq!(largest("amount").tokens, vec![text("ABS(amount) DESC")]);
    assert_eq!(ascending("name").tokens, vec![text("name ASC")]);
    assert_eq!(descending("name").tokens, vec![text("name DESC")]);
}

#[test]
fn join_separates_neighbours_only() {
    assert_eq!(join(vec![], " AND "), QueryFragment::new());
    assert_eq!(
        join(vec![equals("a", Value::Int(1))], " AND ").sql(),
        "a = $1"
    );
    let parts = vec![
        equals("a", Value::Int(1)),
        equals("b", Value::Int(2)),
        equals("c", Value::Int(3)),
    ];
    let joined = join(parts, " AND ");
    assert_eq!(joined.sql(), "a = $1 AND b = $2 AND c = $3");
    assert_eq!(joined.len(), 8);
    assert_eq!(joined.tokens[2], text(" AND "));
    assert_eq!(joined.tokens[5], text(" AND "));
}

#[test]
fn attach_adds_what_is_given() {
    let mut list = Vec::new();
    attach(&mut list, None);
    assert!(list.is_empty());
    attach(&mut list, Some(ascending("a")));
    attach(&mut list, None);
    attach(&mut list, Some(descending("b")));
    assert_eq!(join(list, ", ").sql(), "a ASC, b DESC");
}

#[test]
fn where_is_left_out_without_predicates() {
    assert_eq!(where_clause(vec![]), QueryFragment::new());
    assert_eq!(
        where_clause(vec![equals("a", Value::Int(1)), equals("b", Value::Int(2))]).sql(),
        " WHERE a = $1 AND b = $2"
    );
}

#[test]
fn order_falls_back_without_keys() {
    assert_eq!(
        order_by(vec![], ascending("name")).sql(),
        " ORDER BY name ASC"
    );
    assert_eq!(
        order_by(
            vec![nearest("a", Value::Int(1)), largest("b")],
            ascending("name")
        )
        .sql(),
        " ORDER BY ABS(a - $1) ASC, ABS(b) DESC"
    );
}

#[test]
fn statements_are_put_together_in_order() {
    assert_eq!(scan("t").tokens, vec![text("SELECT * FROM t")]);
    assert_eq!(
        lookup("t", equals("id", Value::BigInt(9))).sql(),
        "SELECT * FROM t WHERE id = $1"
    );
    let statement = select(
        "t",
        QueryFragment::text(" JOIN u ON u.id = t.id"),
        vec![equals("a", Value::Int(1))],
        vec![nearest("b", Value::Int(2))],
        descending("c"),
        Window { limit: 3, offset: 6 },
    );
    assert_eq!(
        statement.sql(),
        "SELECT * FROM t JOIN u ON u.id = t.id WHERE a = $1 \
         ORDER BY ABS(b - $2) ASC LIMIT 3 OFFSET $3"
    );
    assert_eq!(
        statement.values(),
        vec![Value::Int(1), Value::Int(2), Value::BigInt(6)]
    );
    let bare = select(
        "t",
        QueryFragment::new(),
        vec![],
        vec![],
        descending("c"),
        Window { limit: 0, offset: 0 },
    );
    assert_eq!(bare.sql(), "SELECT * FROM t ORDER BY c DESC LIMIT 0 OFFSET $1");
}
