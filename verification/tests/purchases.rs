use purchase_json::calendar::{Date, DateTime, Time};
use purchase_json::decimal::Decimal;
use purchase_json::fragment::{QueryFragment, Value};
use purchase_json::pagination::{FilterError, Pagination};
use purchase_json::purchases::{
    read, shown, Purchase, PurchaseFilter, PurchaseRow, PurchasesApi, PurhcasesResponse,
};

const OUTLIER_JOIN: &str = " JOIN outliers o ON o.account_number = p.account_number \
                            AND o.purchase_number = p.purchase_number";
const INTERSTATE_JOIN: &str = " JOIN account a ON a.account_number = p.account_number \
                               AND a.account_state != p.merchant_state";

fn blank(page: i64) -> PurchaseFilter {
    PurchaseFilter {
        account_number: None,
        purchase_date: None,
        purchase_time: None,
        purchase_amount: None,
        outliers: None,
        interstate: None,
        post_date: None,
        purchase_number: None,
        merchant_number: None,
        merchant_name: None,
        merchant_state: None,
        merchant_category_code: None,
        page,
    }
}

fn compiled(filter: &PurchaseFilter) -> QueryFragment {
    read(filter, 10).expect("the filter compiles")
}

fn decimal(unscaled: i128, scale: i16) -> Decimal {
    Decimal { unscaled: unscaled.to_le_bytes().to_vec(), scale }
}

fn row(number: i32, amount: Decimal) -> PurchaseRow {
    PurchaseRow {
        account_number: 77,
        purchase_datetime: DateTime {
            date: Date { year: 2023, month: 5, day: 17 },
            time: Time { hour: 13, minute: 5, second: 9, nanosecond: 0 },
        },
        purchase_amount: amount,
        post_date: Date { year: 2023, month: 5, day: 19 },
        purchase_number: number,
        merchant_number: "M-1".to_string(),
        merchant_name: "Corner Shop".to_string(),
        merchant_state: "TX".to_string(),
        merchant_category_code: 5411,
    }
}

fn purchase(number: i32) -> Purchase {
    Purchase::from(row(number, decimal(195, 1)))
}

fn shown_amount(amount: Decimal) -> String {
    Purchase::from(row(0, amount)).purchase_amount
}

fn amount_text(unscaled: i128, scale: i16) -> String {
    shown_amount(decimal(unscaled, scale))
}

#[test]
fn blank_purchase_filter_scans_first_page() {
    let statement = compiled(&blank(0));
    assert_eq!(
        statement.sql(),
        "SELECT * FROM purchase p ORDER BY p.purchase_datetime DESC LIMIT 11 OFFSET $1"
    );
    assert_eq!(statement.values(), vec![Value::BigInt(0)]);
}

#[test]
fn purchase_page_sets_the_offset_by_page_size() {
    let statement = compiled(&blank(4));
    assert_eq!(
        statement.sql(),
        "SELECT * FROM purchase p ORDER BY p.purchase_datetime DESC LIMIT 11 OFFSET $1"
    );
    assert_eq!(statement.values(), vec![Value::BigInt(40)]);
}

#[test]
fn purchase_page_out_of_range_is_refused() {
    assert_eq!(read(&blank(-1), 10), Err(FilterError::PageOutOfRange));
    assert_eq!(read(&blank(i64::MAX), 10), Err(FilterError::PageOutOfRange));
    let mut filter = blank(-1);
    filter.account_number = Some(1);
    assert_eq!(read(&filter, 10), Err(FilterError::PageOutOfRange));
}

#[test]
fn both_flags_apply_both_joins() {
    let mut filter = blank(0);
    filter.outliers = Some(true);
    filter.interstate = Some(true);
    let statement = compiled(&filter);
    assert_eq!(
        statement.sql(),
        format!(
            "SELECT * FROM purchase p{}{} ORDER BY ABS(p.purchase_amount) DESC \
             LIMIT 11 OFFSET $1",
            OUTLIER_JOIN, INTERSTATE_JOIN
        )
    );
    assert_eq!(filter.joins().sql(), format!("{}{}", OUTLIER_JOIN, INTERSTATE_JOIN));
    assert_eq!(filter.joins().len(), 2);
}

#[test]
fn each_flag_applies_its_own_join() {
    let mut filter = blank(0);
    filter.outliers = Some(true);
    assert_eq!(filter.joins().sql(), OUTLIER_JOIN);
    filter.interstate = Some(false);
    assert_eq!(filter.joins().sql(), OUTLIER_JOIN);
    filter.outliers = None;
    filter.interstate = Some(true);
    assert_eq!(filter.joins().sql(), INTERSTATE_JOIN);
    filter.outliers = Some(false);
    assert_eq!(filter.joins().sql(), INTERSTATE_JOIN);
    assert_eq!(
        compiled(&filter).sql(),
        format!(
            "SELECT * FROM purchase p{} ORDER BY p.purchase_datetime DESC LIMIT 11 OFFSET $1",
            INTERSTATE_JOIN
        )
    );
}

#[test]
fn unset_flags_apply_no_join() {
    let mut filter = blank(0);
    assert!(filter.joins().is_empty());
    filter.outliers = Some(false);
    filter.interstate = Some(false);
    assert!(filter.joins().is_empty());
}

#[test]
fn purchase_exact_fields_compare_by_equality() {
    let mut filter = blank(0);
    filter.account_number = Some(9000000000);
    filter.purchase_number = Some(12);
    filter.merchant_state = Some("NY".to_string());
    filter.merchant_category_code = Some(5812);
    let statement = compiled(&filter);
    assert_eq!(
        statement.sql(),
        "SELECT * FROM purchase p WHERE p.account_number = $1 AND p.purchase_number = $2 \
         AND p.merchant_state = $3 AND p.merchant_category_code = $4 \
         ORDER BY p.purchase_datetime DESC LIMIT 11 OFFSET $5"
    );
    assert_eq!(
        statement.values(),
        vec![
            Value::BigInt(9000000000),
            Value::Int(12),
            Value::Text("NY".to_string()),
            Value::SmallInt(5812),
            Value::BigInt(0),
        ]
    );
}

#[test]
fn merchant_text_matches_in_any_case() {
    let mut filter = blank(0);
    filter.merchant_name = Some("COFFEE".to_string());
    filter.merchant_number = Some("Ab12".to_string());
    let statement = compiled(&filter);
    assert_eq!(
        statement.sql(),
        "SELECT * FROM purchase p WHERE POSITION($1 IN LOWER(p.merchant_number)) > 0 \
         AND POSITION($2 IN LOWER(p.merchant_name)) > 0 \
         ORDER BY p.purchase_datetime DESC LIMIT 11 OFFSET $3"
    );
    assert_eq!(
        statement.values(),
        vec![
            Value::Text("ab12".to_string()),
            Value::Text("coffee".to_string()),
            Value::BigInt(0),
        ]
    );
    filter.merchant_name = Some("coffee".to_string());
    filter.merchant_number = Some("aB12".to_string());
    assert_eq!(compiled(&filter), statement);
}

#[test]
fn target_amount_orders_by_distance_ascending() {
    let mut filter = blank(0);
    filter.purchase_amount = Some(decimal(2500, 2));
    let statement = compiled(&filter);
    assert_eq!(
        statement.sql(),
        "SELECT * FROM purchase p ORDER BY ABS(p.purchase_amount - $1) ASC LIMIT 11 OFFSET $2"
    );
    assert_eq!(
        statement.values(),
        vec![Value::Decimal(decimal(2500, 2)), Value::BigInt(0)]
    );
    filter.outliers = Some(true);
    assert_eq!(
        compiled(&filter).sql(),
        format!(
            "SELECT * FROM purchase p{} ORDER BY ABS(p.purchase_amount - $1) ASC \
             LIMIT 11 OFFSET $2",
            OUTLIER_JOIN
        )
    );
}

#[test]
fn proximity_keys_come_in_their_order() {
    let mut filter = blank(0);
    filter.purchase_amount = Some(decimal(5, 0));
    filter.post_date = Some(Date { year: 2023, month: 1, day: 2 });
    filter.purchase_date = Some(Date { year: 2023, month: 1, day: 1 });
    filter.purchase_time = Some(Time { hour: 8, minute: 30, second: 0, nanosecond: 0 });
    let statement = compiled(&filter);
    assert_eq!(
        statement.sql(),
        "SELECT * FROM purchase p \
         ORDER BY ABS(EXTRACT(EPOCH FROM (p.purchase_datetime - $1))) ASC, \
         ABS(p.post_date - $2) ASC, ABS(p.purchase_amount - $3) ASC LIMIT 11 OFFSET $4"
    );
    assert_eq!(
        statement.values(),
        vec![
            Value::Timestamp(DateTime {
                date: Date { year: 2023, month: 1, day: 1 },
                time: Time { hour: 8, minute: 30, second: 0, nanosecond: 0 },
            }),
            Value::Date(Date { year: 2023, month: 1, day: 2 }),
            Value::Decimal(decimal(5, 0)),
            Value::BigInt(0),
        ]
    );
}

#[test]
fn purchase_day_without_time_aims_at_midnight() {
    let mut filter = blank(0);
    filter.purchase_date = Some(Date { year: 2022, month: 12, day: 31 });
    assert_eq!(
        compiled(&filter).values(),
        vec![
            Value::Timestamp(DateTime {
                date: Date { year: 2022, month: 12, day: 31 },
                time: Time { hour: 0, minute: 0, second: 0, nanosecond: 0 },
            }),
            Value::BigInt(0),
        ]
    );
    assert_eq!(Time::midnight(), Time { hour: 0, minute: 0, second: 0, nanosecond: 0 });
}

#[test]
fn purchase_time_without_day_orders_nothing() {
    let mut filter = blank(0);
    filter.purchase_time = Some(Time { hour: 8, minute: 30, second: 0, nanosecond: 0 });
    assert_eq!(compiled(&filter), compiled(&blank(0)));
}

#[test]
fn outlier_flag_without_amount_orders_by_magnitude() {
    let mut filter = blank(0);
    filter.outliers = Some(true);
    assert_eq!(
        compiled(&filter).sql(),
        format!(
            "SELECT * FROM purchase p{} ORDER BY ABS(p.purchase_amount) DESC LIMIT 11 OFFSET $1",
            OUTLIER_JOIN
        )
    );
    filter.post_date = Some(Date { year: 2020, month: 2, day: 2 });
    assert_eq!(
        compiled(&filter).sql(),
        format!(
            "SELECT * FROM purchase p{} ORDER BY ABS(p.post_date - $1) ASC, \
             ABS(p.purchase_amount) DESC LIMIT 11 OFFSET $2",
            OUTLIER_JOIN
        )
    );
}

#[test]
fn false_outlier_flag_asks_for_nothing() {
    let mut filter = blank(0);
    filter.outliers = Some(false);
    assert_eq!(
        compiled(&filter).sql(),
        "SELECT * FROM purchase p ORDER BY p.purchase_datetime DESC LIMIT 11 OFFSET $1"
    );
    assert_eq!(compiled(&filter), compiled(&blank(0)));
    filter.interstate = Some(false);
    assert_eq!(compiled(&filter), compiled(&blank(0)));
    filter.post_date = Some(Date { year: 2020, month: 2, day: 2 });
    assert_eq!(
        compiled(&filter).sql(),
        "SELECT * FROM purchase p ORDER BY ABS(p.post_date - $1) ASC LIMIT 11 OFFSET $2"
    );
}

#[test]
fn purchase_values_never_reach_the_text() {
    let mut hostile = blank(0);
    hostile.merchant_name = Some("x'; DELETE FROM purchase; --".to_string());
    hostile.merchant_state = Some("\"; --".to_string());
    let mut tame = blank(9);
    tame.merchant_name = Some("shop".to_string());
    tame.merchant_state = Some("TX".to_string());
    assert_eq!(compiled(&hostile).sql(), compiled(&tame).sql());
    assert_eq!(
        compiled(&hostile).values(),
        vec![
            Value::Text("\"; --".to_string()),
            Value::Text("x'; delete from purchase; --".to_string()),
            Value::BigInt(0),
        ]
    );
}

#[test]
fn purchase_every_combination_is_well_formed() {
    for pattern in 0u32..(1 << 12) {
        let on = |bit: u32| pattern & (1 << bit) != 0;
        let day = |bit: u32| {
            if on(bit) {
                Some(Date { year: 2000, month: 1, day: 1 })
            } else {
                None
            }
        };
        let text = |bit: u32| if on(bit) { Some("a".to_string()) } else { None };
        let filter = PurchaseFilter {
            account_number: if on(0) { Some(1) } else { None },
            purchase_date: day(1),
            purchase_time: None,
            purchase_amount: if on(2) { Some(decimal(1, 0)) } else { None },
            outliers: if on(3) { Some(on(4)) } else { None },
            interstate: if on(5) { Some(true) } else { None },
            post_date: day(6),
            purchase_number: if on(7) { Some(2) } else { None },
            merchant_number: text(8),
            merchant_name: text(9),
            merchant_state: text(10),
            merchant_category_code: if on(11) { Some(3) } else { None },
            page: 0,
        };
        let sql = compiled(&filter).sql();
        let restricted = on(0) || on(7) || on(8) || on(9) || on(10) || on(11);
        assert_eq!(sql.contains(" WHERE "), restricted);
        assert!(!sql.contains(" WHERE  "));
        assert!(!sql.contains(" WHERE ORDER"));
        assert!(!sql.contains(" AND  "));
        assert!(!sql.contains(" AND ORDER"));
        assert!(!sql.contains("WHERE AND"));
        assert!(!sql.contains(",  "));
        assert!(!sql.contains(", LIMIT"));
        assert!(!sql.contains("ORDER BY  LIMIT"));
        assert!(!sql.contains("ORDER BY ,"));
        assert!(sql.contains(" ORDER BY "));
        assert_eq!(sql.contains(OUTLIER_JOIN), on(3) && on(4));
        assert_eq!(
            sql.contains("ABS(p.purchase_amount) DESC"),
            on(3) && on(4) && !on(2)
        );
        assert_eq!(
            sql.contains("ORDER BY p.purchase_datetime DESC"),
            !on(1) && !on(2) && !on(6) && !(on(3) && on(4))
        );
        assert_eq!(sql.contains(INTERSTATE_JOIN), on(5));
    }
}

#[test]
fn nineteen_and_a_half_renders_with_two_places() {
    assert_eq!(amount_text(195, 1), "19.50");
    assert_eq!(purchase(1).purchase_amount, "19.50");
}

#[test]
fn amounts_render_with_exactly_two_places() {
    assert_eq!(amount_text(0, 0), "0.00");
    assert_eq!(amount_text(0, 5), "0.00");
    assert_eq!(amount_text(7, 0), "7.00");
    assert_eq!(amount_text(1950, 2), "19.50");
    assert_eq!(amount_text(5, 2), "0.05");
    assert_eq!(amount_text(50, 2), "0.50");
    assert_eq!(amount_text(-5, 2), "-0.05");
    assert_eq!(amount_text(-1950, 2), "-19.50");
    assert_eq!(amount_text(12, -1), "120.00");
    assert_eq!(amount_text(100000000, 2), "1000000.00");
}

#[test]
fn amounts_drop_digits_beyond_two_places() {
    assert_eq!(amount_text(12345678, 4), "1234.56");
    assert_eq!(amount_text(19999, 3), "19.99");
    assert_eq!(amount_text(-19999, 3), "-19.99");
    assert_eq!(amount_text(1, 3), "0.00");
    assert_eq!(amount_text(-1, 3), "0.00");
    assert_eq!(amount_text(195000000000000001, 16), "19.50");
}

#[test]
fn amounts_of_any_size_render_exactly() {
    assert_eq!(
        amount_text(i128::MAX, 3),
        "170141183460469231731687303715884105.72"
    );
    let mut unscaled = vec![0u8; 17];
    unscaled[16] = 1;
    let two_to_128 = Decimal { unscaled, scale: 1 };
    assert_eq!(
        shown_amount(two_to_128),
        "34028236692093846346337460743176821145.60"
    );
    assert_eq!(shown_amount(Decimal { unscaled: vec![], scale: 2 }), "0.00");
    assert_eq!(shown_amount(Decimal { unscaled: vec![0xff], scale: 0 }), "-1.00");
    assert_eq!(shown_amount(Decimal { unscaled: vec![0xff, 0x00], scale: 0 }), "255.00");
    assert_eq!(shown_amount(Decimal { unscaled: vec![195, 0], scale: 1 }), "19.50");
}

#[test]
fn decimal_copies_are_equal() {
    let amount = decimal(-123456789, 4);
    assert_eq!(amount.clone(), amount);
    assert_eq!(shown_amount(amount.clone()), "-12345.67");
}

#[test]
fn purchase_shows_its_row() {
    let shown = Purchase::from(row(3, decimal(120050, 3)));
    assert_eq!(
        shown,
        Purchase {
            account_number: 77,
            purchase_datetime: DateTime {
                date: Date { year: 2023, month: 5, day: 17 },
                time: Time { hour: 13, minute: 5, second: 9, nanosecond: 0 },
            },
            purchase_amount: "120.05".to_string(),
            post_date: Date { year: 2023, month: 5, day: 19 },
            purchase_number: 3,
            merchant_number: "M-1".to_string(),
            merchant_name: "Corner Shop".to_string(),
            merchant_state: "TX".to_string(),
            merchant_category_code: 5411,
        }
    );
    assert_eq!(
        Purchase::with_amount(row(3, decimal(1, 0)), "free".to_string()).purchase_amount,
        "free"
    );
}

#[test]
fn rows_are_shown_one_for_one_in_order() {
    let rows = vec![
        row(1, decimal(100, 2)),
        row(2, decimal(25, 1)),
        row(3, decimal(-7, 0)),
    ];
    let purchases = shown(rows);
    assert_eq!(purchases.len(), 3);
    assert_eq!(purchases[0].purchase_number, 1);
    assert_eq!(purchases[0].purchase_amount, "1.00");
    assert_eq!(purchases[1].purchase_number, 2);
    assert_eq!(purchases[1].purchase_amount, "2.50");
    assert_eq!(purchases[2].purchase_number, 3);
    assert_eq!(purchases[2].purchase_amount, "-7.00");
    assert!(shown(vec![]).is_empty());
}

#[test]
fn eleven_rows_leave_ten_and_more_to_come() {
    let fetched: Vec<Purchase> = (0..11).map(purchase).collect();
    let page: Vec<Purchase> = (0..10).map(purchase).collect();
    assert_eq!(
        PurchasesApi.read(fetched, 10),
        PurhcasesResponse { eof: false, purchases: page }
    );
}

#[test]
fn ten_rows_are_the_last_page() {
    let fetched: Vec<Purchase> = (0..10).map(purchase).collect();
    let page: Vec<Purchase> = (0..10).map(purchase).collect();
    assert_eq!(
        PurchasesApi.read(fetched, 10),
        PurhcasesResponse { eof: true, purchases: page }
    );
}

#[test]
fn short_and_empty_pages_are_the_end() {
    let response = PurchasesApi.read((0..3).map(purchase).collect(), 10);
    assert!(response.eof);
    assert_eq!(response.purchases.len(), 3);
    let response = PurchasesApi.read(vec![], 10);
    assert!(response.eof);
    assert!(response.purchases.is_empty());
}

#[test]
fn purchases_are_fetched_one_beyond_the_page() {
    assert_eq!(PurchasesApi.pagination(), Pagination::OverFetch);
}
