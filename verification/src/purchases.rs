//! The purchase lookup: from a sparse filter to the statement that answers it,
//! and from the rows fetched to the page handed back.

use crate::calendar::{Date, DateTime, Time};
use crate::accounts::{same_but_for_case, same_text};
use crate::clause::{
    attach, contains, descending, equals, given, largest, lemma_shapes_concat, nearest,
    nearest_instant, shapes, spec_contains, spec_descending, spec_equals, spec_largest,
    spec_nearest, spec_nearest_instant, views,
};
use crate::compiler::{lemma_select_shape, select, spec_scan, spec_select};
use crate::connective::{
    all_operands, is_connective, lemma_all_operands_concat, lemma_contains_operand,
    lemma_direction_operand, lemma_equals_operand, lemma_nearest_operand, lemma_plain_second,
    lemma_select, well_formed,
};
use crate::decimal::{render_two_places, rescaled, two_place_text, with_scale, Decimal};
use crate::fragment::{shape, spec_text, Atom, Datum, QueryFragment, Value};
use crate::pagination::{spec_trim, trim, FilterError, Pagination, Window};
use crate::text::{decimal, lowercase, lowered};
use vstd::prelude::*;

verus! {

/// What a caller may ask of the purchases. Every field but `page` is optional,
/// and each one given narrows or orders the result.
#[derive(Debug)]
pub struct PurchaseFilter {
    pub account_number: Option<i64>,
    /// The day to come nearest to.
    pub purchase_date: Option<Date>,
    /// The time of that day to come nearest to; without a day it says nothing.
    pub purchase_time: Option<Time>,
    /// The amount to come nearest to.
    pub purchase_amount: Option<Decimal>,
    /// `Some(true)` keeps only purchases marked as outliers and, where no
    /// amount is given, puts the largest of them first. `Some(false)` asks for
    /// nothing, as `None` does.
    pub outliers: Option<bool>,
    /// `Some(true)` keeps only purchases made outside the account's home state.
    /// `Some(false)` asks for nothing, as `None` does.
    pub interstate: Option<bool>,
    /// The posting date to come nearest to.
    pub post_date: Option<Date>,
    pub purchase_number: Option<i32>,
    /// Text that occurs in the merchant number, in any case.
    pub merchant_number: Option<String>,
    /// Text that occurs in the merchant name, in any case.
    pub merchant_name: Option<String>,
    pub merchant_state: Option<String>,
    pub merchant_category_code: Option<i16>,
    /// The index of the page asked for, from zero.
    pub page: i64,
}

/// The join that keeps only purchases marked as outliers, found by account
/// and purchase number together.
pub open spec fn spec_outlier_join() -> Seq<char> {
    " JOIN outliers o ON o.account_number = p.account_number AND o.purchase_number = p.purchase_number"@
}

/// The join that keeps only purchases made in another state than the one the
/// account is at home in.
pub open spec fn spec_interstate_join() -> Seq<char> {
    " JOIN account a ON a.account_number = p.account_number AND a.account_state != p.merchant_state"@
}

/// A join where its flag is set, nothing where it is unset or absent.
pub open spec fn flagged(flag: Option<bool>, join: Seq<char>) -> Seq<Atom> {
    if flag == Some(true) {
        seq![Atom::Text(join)]
    } else {
        Seq::empty()
    }
}

impl PurchaseFilter {
    /// The joins between the relation and its predicates: each of the two is
    /// there exactly when its own flag is set, whatever the other flag holds.
    pub open spec fn spec_joins(self) -> Seq<Atom> {
        flagged(self.outliers, spec_outlier_join()) + flagged(
            self.interstate,
            spec_interstate_join(),
        )
    }

    /// One comparison by equality for each code or number that is given.
    pub open spec fn spec_exact(self) -> Seq<Seq<Atom>> {
        given(
            self.account_number,
            |number: i64| spec_equals("p.account_number"@, Datum::BigInt(number)),
        )
        + given(
            self.purchase_number,
            |number: i32| spec_equals("p.purchase_number"@, Datum::Int(number)),
        )
        + given(
            self.merchant_state,
            |state: String| spec_equals("p.merchant_state"@, Datum::Text(state@)),
        )
        + given(
            self.merchant_category_code,
            |code: i16| spec_equals("p.merchant_category_code"@, Datum::SmallInt(code)),
        )
    }

    /// One comparison for each merchant text that is given: its lower-case
    /// form must occur in the lower-case form of the column.
    pub open spec fn spec_fuzzy(self) -> Seq<Seq<Atom>> {
        given(
            self.merchant_number,
            |text: String| spec_contains("p.merchant_number"@, lowered(text@)),
        )
        + given(
            self.merchant_name,
            |text: String| spec_contains("p.merchant_name"@, lowered(text@)),
        )
    }

    /// One comparison for each field that is given and restricts the rows:
    /// the exact ones, then those by text.
    pub open spec fn spec_predicates(self) -> Seq<Seq<Atom>> {
        self.spec_exact() + self.spec_fuzzy()
    }

    /// The key that orders by amount: nearest to the amount asked for; without
    /// one, largest magnitude first where the outlier flag is set; else none,
    /// also where the flag is given as false.
    pub open spec fn spec_amount_key(self) -> Seq<Seq<Atom>> {
        match self.purchase_amount {
            Some(amount) => seq![spec_nearest("p.purchase_amount"@, Datum::Decimal(amount@))],
            None => if self.outliers == Some(true) {
                seq![spec_largest("p.purchase_amount"@)]
            } else {
                Seq::empty()
            },
        }
    }

    /// The ordering keys that the filter asks for, in this order: nearest to
    /// the purchase day, at the time given or else at midnight; nearest to the
    /// posting date; then the key by amount.
    pub open spec fn spec_keys(self) -> Seq<Seq<Atom>> {
        given(
            self.purchase_date,
            |day: Date|
                spec_nearest_instant(
                    "p.purchase_datetime"@,
                    Datum::Timestamp(day.target(self.purchase_time)),
                ),
        )
        + given(self.post_date, |day: Date| spec_nearest("p.post_date"@, Datum::Date(day)))
        + self.spec_amount_key()
    }

    /// The statement that answers the filter with pages of `page_size` rows.
    ///
    /// It scans the purchases through the joins that the flags ask for, keeps
    /// the rows that meet every predicate, orders them by the keys, or latest
    /// purchase first where there is none, and fetches page `page` and one row
    /// beyond it. There is none for a page that is out of range.
    pub open spec fn spec_statement(self, page_size: u32) -> Result<Seq<Atom>, FilterError> {
        match Pagination::OverFetch.spec_window(self.page, page_size) {
            Some(window) => Ok(
                spec_select(
                    "purchase p"@,
                    self.spec_joins(),
                    self.spec_predicates(),
                    self.spec_keys(),
                    spec_descending("p.purchase_datetime"@),
                    window,
                ),
            ),
            None => Err(FilterError::PageOutOfRange),
        }
    }

    /// Selects the joins that the flags ask for.
    pub fn joins(&self) -> (joins: QueryFragment)
        ensures
            joins@ == self.spec_joins(),
    {
        let mut joins = QueryFragment::new();
        if let Some(true) = self.outliers {
            joins.push_text(
                " JOIN outliers o ON o.account_number = p.account_number AND o.purchase_number = p.purchase_number",
            );
        }
        if let Some(true) = self.interstate {
            joins.push_text(
                " JOIN account a ON a.account_number = p.account_number AND a.account_state != p.merchant_state",
            );
        }
        assert(joins@ =~= self.spec_joins());
        joins
    }

    /// Builds the comparisons by equality.
    pub fn exact(&self) -> (list: Vec<QueryFragment>)
        ensures
            views(list@) == self.spec_exact(),
    {
        let mut list: Vec<QueryFragment> = Vec::new();
        attach(
            &mut list,
            match self.account_number {
                Some(number) => Some(equals("p.account_number", Value::BigInt(number))),
                None => None,
            },
        );
        attach(
            &mut list,
            match self.purchase_number {
                Some(number) => Some(equals("p.purchase_number", Value::Int(number))),
                None => None,
            },
        );
        attach(
            &mut list,
            match &self.merchant_state {
                Some(state) => Some(equals("p.merchant_state", Value::Text(state.clone()))),
                None => None,
            },
        );
        attach(
            &mut list,
            match self.merchant_category_code {
                Some(code) => Some(equals("p.merchant_category_code", Value::SmallInt(code))),
                None => None,
            },
        );
        assert(views(list@) =~= self.spec_exact());
        list
    }

    /// Builds the comparisons by text that occurs in any case.
    pub fn fuzzy(&self) -> (list: Vec<QueryFragment>)
        ensures
            views(list@) == self.spec_fuzzy(),
    {
        let mut list: Vec<QueryFragment> = Vec::new();
        attach(
            &mut list,
            match &self.merchant_number {
                Some(text) => Some(contains("p.merchant_number", lowercase(text.as_str()))),
                None => None,
            },
        );
        attach(
            &mut list,
            match &self.merchant_name {
                Some(text) => Some(contains("p.merchant_name", lowercase(text.as_str()))),
                None => None,
            },
        );
        assert(views(list@) =~= self.spec_fuzzy());
        list
    }

    /// Builds one comparison for each field that is given and restricts the
    /// rows.
    pub fn predicates(&self) -> (list: Vec<QueryFragment>)
        ensures
            views(list@) == self.spec_predicates(),
    {
        let mut list = self.exact();
        let mut fuzzy = self.fuzzy();
        list.append(&mut fuzzy);
        assert(views(list@) =~= self.spec_predicates());
        list
    }

    /// Builds the ordering keys that the filter asks for.
    pub fn keys(&self) -> (list: Vec<QueryFragment>)
        ensures
            views(list@) == self.spec_keys(),
    {
        let mut list: Vec<QueryFragment> = Vec::new();
        attach(
            &mut list,
            match self.purchase_date {
                Some(day) => Some(
                    nearest_instant(
                        "p.purchase_datetime",
                        Value::Timestamp(day.target(self.purchase_time)),
                    ),
                ),
                None => None,
            },
        );
        attach(
            &mut list,
            match self.post_date {
                Some(day) => Some(nearest("p.post_date", Value::Date(day))),
                None => None,
            },
        );
        attach(
            &mut list,
            match &self.purchase_amount {
                Some(amount) => Some(nearest("p.purchase_amount", Value::Decimal(amount.clone()))),
                None => match self.outliers {
                    Some(true) => Some(largest("p.purchase_amount")),
                    _ => None,
                },
            },
        );
        assert(views(list@) =~= self.spec_keys());
        list
    }
}

/// Compiles a purchase filter into the one statement that answers it, for
/// pages of `page_size` rows.
pub fn read(filter: &PurchaseFilter, page_size: u32) -> (statement: Result<
    QueryFragment,
    FilterError,
>)
    ensures
        match (statement, filter.spec_statement(page_size)) {
            (Ok(built), Ok(stated)) => built@ == stated,
            (Err(raised), Err(stated)) => raised == stated,
            _ => false,
        },
{
    match PurchasesApi.pagination().window(filter.page, page_size) {
        Some(window) => Ok(
            select(
                "purchase p",
                filter.joins(),
                filter.predicates(),
                filter.keys(),
                descending("p.purchase_datetime"),
                window,
            ),
        ),
        None => Err(FilterError::PageOutOfRange),
    }
}

/// A purchase as the store holds it.
#[derive(Debug, PartialEq, Eq)]
pub struct PurchaseRow {
    pub account_number: i64,
    pub purchase_datetime: DateTime,
    pub purchase_amount: Decimal,
    pub post_date: Date,
    pub purchase_number: i32,
    pub merchant_number: String,
    pub merchant_name: String,
    pub merchant_state: String,
    pub merchant_category_code: i16,
}

/// A purchase as a caller sees it: the row, with the amount written out to
/// two places.
#[derive(Debug, PartialEq, Eq)]
pub struct Purchase {
    pub account_number: i64,
    pub purchase_datetime: DateTime,
    pub purchase_amount: String,
    pub post_date: Date,
    pub purchase_number: i32,
    pub merchant_number: String,
    pub merchant_name: String,
    pub merchant_state: String,
    pub merchant_category_code: i16,
}

impl Purchase {
    /// Whether this purchase shows `row`: every field but the amount is the
    /// row's own, and the amount is the text, with exactly two digits after
    /// the point, of the row's amount cut to hundredths, digits beyond them
    /// dropped.
    pub open spec fn shows(self, row: PurchaseRow) -> bool {
        &&& self.account_number == row.account_number
        &&& self.purchase_datetime == row.purchase_datetime
        &&& self.purchase_amount@ == two_place_text(
            rescaled(row.purchase_amount@.unscaled, row.purchase_amount@.scale, 2),
        )
        &&& self.post_date == row.post_date
        &&& self.purchase_number == row.purchase_number
        &&& self.merchant_number == row.merchant_number
        &&& self.merchant_name == row.merchant_name
        &&& self.merchant_state == row.merchant_state
        &&& self.merchant_category_code == row.merchant_category_code
    }

    /// The purchase that shows `row` with `amount` as the text of its amount.
    pub fn with_amount(row: PurchaseRow, amount: String) -> (purchase: Purchase)
        ensures
            purchase.account_number == row.account_number,
            purchase.purchase_datetime == row.purchase_datetime,
            purchase.purchase_amount == amount,
            purchase.post_date == row.post_date,
            purchase.purchase_number == row.purchase_number,
            purchase.merchant_number == row.merchant_number,
            purchase.merchant_name == row.merchant_name,
            purchase.merchant_state == row.merchant_state,
            purchase.merchant_category_code == row.merchant_category_code,
    {
        Purchase {
            account_number: row.account_number,
            purchase_datetime: row.purchase_datetime,
            purchase_amount: amount,
            post_date: row.post_date,
            purchase_number: row.purchase_number,
            merchant_number: row.merchant_number,
            merchant_name: row.merchant_name,
            merchant_state: row.merchant_state,
            merchant_category_code: row.merchant_category_code,
        }
    }
}

impl vstd::std_specs::convert::FromSpecImpl<PurchaseRow> for Purchase {
    open spec fn obeys_from_spec() -> bool {
        false
    }

    open spec fn from_spec(row: PurchaseRow) -> Purchase {
        arbitrary()
    }
}

impl From<PurchaseRow> for Purchase {
    /// Shapes a stored row for the caller.
    fn from(row: PurchaseRow) -> (purchase: Purchase)
        ensures
            purchase.shows(row),
    {
        let held = with_scale(&row.purchase_amount, 2);
        let amount = render_two_places(&held);
        Purchase::with_amount(row, amount)
    }
}

/// Shapes the stored rows for the caller, one for one and in order.
pub fn shown(rows: Vec<PurchaseRow>) -> (purchases: Vec<Purchase>)
    ensures
        purchases@.len() == rows@.len(),
        forall|i: int| 0 <= i < rows@.len() ==> (#[trigger] purchases@[i]).shows(rows@[i]),
{
    let mut purchases: Vec<Purchase> = Vec::new();
    for row in it: rows.into_iter()
        invariant
            it.seq() == rows@,
            purchases@.len() == it.index(),
            forall|i: int| 0 <= i < it.index() ==> (#[trigger] purchases@[i]).shows(rows@[i]),
    {
        purchases.push(Purchase::from(row));
    }
    purchases
}

/// One page of purchases, with the word on whether the rows end with it.
#[derive(Debug, PartialEq, Eq)]
pub struct PurhcasesResponse {
    pub eof: bool,
    pub purchases: Vec<Purchase>,
}

/// The purchase endpoint.
#[derive(Debug)]
pub struct PurchasesApi;

impl PurchasesApi {
    /// Purchases are fetched one row beyond the page, so that the response can
    /// say whether the rows end with it.
    pub fn pagination(&self) -> (policy: Pagination)
        ensures
            policy == Pagination::OverFetch,
    {
        Pagination::OverFetch
    }

    /// The response for purchases that were fetched one beyond the page size:
    /// where more than a page came back, more rows remain and the last one
    /// fetched is dropped; else the rows end here and all are handed back.
    pub fn read(&self, purchases: Vec<Purchase>, page_size: u32) -> (response: PurhcasesResponse)
        ensures
            (response.eof, response.purchases@) == spec_trim(purchases@, page_size),
    {
        let (eof, purchases) = trim(purchases, page_size);
        PurhcasesResponse { eof, purchases }
    }
}

/// Whether two optional amounts are both absent, or both given and the same
/// number at the same scale.
pub open spec fn same_amount(left: Option<Decimal>, right: Option<Decimal>) -> bool {
    match (left, right) {
        (Some(a), Some(b)) => a@ == b@,
        (None, None) => true,
        _ => false,
    }
}

impl PurchaseFilter {
    /// Whether no field but the page is given.
    pub open spec fn is_blank(self) -> bool {
        &&& self.account_number is None
        &&& self.purchase_date is None
        &&& self.purchase_time is None
        &&& self.purchase_amount is None
        &&& self.outliers is None
        &&& self.interstate is None
        &&& self.post_date is None
        &&& self.purchase_number is None
        &&& self.merchant_number is None
        &&& self.merchant_name is None
        &&& self.merchant_state is None
        &&& self.merchant_category_code is None
    }

    /// Whether the two filters give the same fields and set the same flags,
    /// whatever else they give for the fields. A flag given as false counts as
    /// one not given.
    pub open spec fn same_fields(self, other: PurchaseFilter) -> bool {
        &&& (self.account_number is Some) == (other.account_number is Some)
        &&& (self.purchase_date is Some) == (other.purchase_date is Some)
        &&& (self.purchase_amount is Some) == (other.purchase_amount is Some)
        &&& (self.outliers == Some(true)) == (other.outliers == Some(true))
        &&& (self.interstate == Some(true)) == (other.interstate == Some(true))
        &&& (self.post_date is Some) == (other.post_date is Some)
        &&& (self.purchase_number is Some) == (other.purchase_number is Some)
        &&& (self.merchant_number is Some) == (other.merchant_number is Some)
        &&& (self.merchant_name is Some) == (other.merchant_name is Some)
        &&& (self.merchant_state is Some) == (other.merchant_state is Some)
        &&& (self.merchant_category_code is Some) == (other.merchant_category_code is Some)
    }

    /// Whether the two filters ask the same but for the case of letters in
    /// the fields that are matched by text.
    pub open spec fn same_but_for_case(self, other: PurchaseFilter) -> bool {
        &&& self.account_number == other.account_number
        &&& self.purchase_date == other.purchase_date
        &&& self.purchase_time == other.purchase_time
        &&& same_amount(self.purchase_amount, other.purchase_amount)
        &&& self.outliers == other.outliers
        &&& self.interstate == other.interstate
        &&& self.post_date == other.post_date
        &&& self.purchase_number == other.purchase_number
        &&& self.merchant_category_code == other.merchant_category_code
        &&& self.page == other.page
        &&& same_text(self.merchant_state, other.merchant_state)
        &&& same_but_for_case(self.merchant_number, other.merchant_number)
        &&& same_but_for_case(self.merchant_name, other.merchant_name)
    }
}

/// A filter that gives nothing but page zero always compiles, to the scan of
/// all purchases, latest first, cut to the first `page_size` rows and one
/// more.
pub proof fn blank_filter_scans_all(filter: PurchaseFilter, page_size: u32)
    requires
        filter.is_blank(),
        filter.page == 0,
    ensures
        filter.spec_statement(page_size) == Ok::<Seq<Atom>, FilterError>(
            seq![
                Atom::Text("SELECT * FROM "@ + "purchase p"@),
                Atom::Text(" ORDER BY "@),
                Atom::Text("p.purchase_datetime"@ + " DESC"@),
                Atom::Text(" LIMIT "@ + decimal((page_size + 1) as nat) + " OFFSET "@),
                Atom::Bind(Datum::BigInt(0)),
            ],
        ),
{
    let window = Window { limit: (page_size + 1) as u64, offset: 0 };
    assert(Pagination::OverFetch.spec_window(0, page_size) == Some(window));
    assert(filter.spec_joins() =~= Seq::empty());
    assert(filter.spec_predicates() =~= Seq::empty());
    assert(filter.spec_keys() =~= Seq::empty());
    assert(spec_select(
        "purchase p"@,
        filter.spec_joins(),
        filter.spec_predicates(),
        filter.spec_keys(),
        spec_descending("p.purchase_datetime"@),
        window,
    ) =~= seq![
        Atom::Text("SELECT * FROM "@ + "purchase p"@),
        Atom::Text(" ORDER BY "@),
        Atom::Text("p.purchase_datetime"@ + " DESC"@),
        Atom::Text(" LIMIT "@ + decimal((page_size + 1) as nat) + " OFFSET "@),
        Atom::Bind(Datum::BigInt(0)),
    ]);
}

/// Matching by text ignores case: two filters that differ only in the case
/// of letters in such fields compile to the same statement with the same
/// bound values.
pub proof fn case_is_ignored(left: PurchaseFilter, right: PurchaseFilter, page_size: u32)
    requires
        left.same_but_for_case(right),
    ensures
        left.spec_statement(page_size) == right.spec_statement(page_size),
{
    assert(left.spec_joins() =~= right.spec_joins());
    assert(left.spec_exact() =~= right.spec_exact());
    assert(left.spec_fuzzy() =~= right.spec_fuzzy());
    assert(left.spec_amount_key() =~= right.spec_amount_key());
    assert(left.spec_keys() =~= right.spec_keys());
}

/// A flag given as false asks for nothing: the statement is the one of the
/// filter that does not give the flag at all, in its joins and in its order.
pub proof fn false_flag_asks_nothing(filter: PurchaseFilter, page_size: u32)
    ensures
        filter.outliers == Some(false) ==> filter.spec_statement(page_size) == (PurchaseFilter {
            outliers: None,
            ..filter
        }).spec_statement(page_size),
        filter.interstate == Some(false) ==> filter.spec_statement(page_size) == (PurchaseFilter {
            interstate: None,
            ..filter
        }).spec_statement(page_size),
{
    if filter.outliers == Some(false) {
        let other = PurchaseFilter { outliers: None, ..filter };
        assert(filter.spec_joins() =~= other.spec_joins());
        assert(filter.spec_exact() =~= other.spec_exact());
        assert(filter.spec_fuzzy() =~= other.spec_fuzzy());
        assert(filter.spec_amount_key() =~= other.spec_amount_key());
        assert(filter.spec_keys() =~= other.spec_keys());
    }
    if filter.interstate == Some(false) {
        let other = PurchaseFilter { interstate: None, ..filter };
        assert(filter.spec_joins() =~= other.spec_joins());
        assert(filter.spec_exact() =~= other.spec_exact());
        assert(filter.spec_fuzzy() =~= other.spec_fuzzy());
        assert(filter.spec_amount_key() =~= other.spec_amount_key());
        assert(filter.spec_keys() =~= other.spec_keys());
    }
}

/// The two joins are different texts.
pub proof fn joins_differ()
    ensures
        spec_outlier_join() != spec_interstate_join(),
{
    reveal_strlit(
        " JOIN outliers o ON o.account_number = p.account_number AND o.purchase_number = p.purchase_number",
    );
    reveal_strlit(
        " JOIN account a ON a.account_number = p.account_number AND a.account_state != p.merchant_state",
    );
    assert(spec_outlier_join()[6] == 'o');
    assert(spec_interstate_join()[6] == 'a');
}

/// The two flags add their joins independently: each join stands in the
/// statement exactly when its own flag is set, with both flags set both joins
/// stand there, and the joins follow the relation directly.
pub proof fn joins_are_additive(filter: PurchaseFilter, page_size: u32)
    requires
        filter.spec_statement(page_size) is Ok,
    ensures
        filter.spec_joins().contains(Atom::Text(spec_outlier_join())) <==> filter.outliers
            == Some(true),
        filter.spec_joins().contains(Atom::Text(spec_interstate_join())) <==> filter.interstate
            == Some(true),
        filter.outliers == Some(true) && filter.interstate == Some(true) ==> filter.spec_joins()
            == seq![Atom::Text(spec_outlier_join()), Atom::Text(spec_interstate_join())],
        filter.spec_statement(page_size)->Ok_0.subrange(0, 1 + filter.spec_joins().len() as int)
            == spec_scan("purchase p"@) + filter.spec_joins(),
{
    joins_differ();
    let joins = filter.spec_joins();
    let outlier = Atom::Text(spec_outlier_join());
    let interstate = Atom::Text(spec_interstate_join());
    if filter.outliers == Some(true) {
        assert(joins[0] == outlier);
    }
    if filter.interstate == Some(true) {
        assert(joins[joins.len() - 1] == interstate);
    }
    if filter.outliers == Some(true) && filter.interstate == Some(true) {
        assert(joins =~= seq![outlier, interstate]);
    }
    assert(filter.spec_statement(page_size)->Ok_0.subrange(0, 1 + joins.len() as int) =~= spec_scan(
        "purchase p"@,
    ) + joins);
}

proof fn lemma_join_shape(left: PurchaseFilter, right: PurchaseFilter)
    requires
        left.same_fields(right),
    ensures
        shape(left.spec_joins()) == shape(right.spec_joins()),
{
    assert(left.spec_joins() =~= right.spec_joins());
}

proof fn lemma_exact_shapes(left: PurchaseFilter, right: PurchaseFilter)
    requires
        left.same_fields(right),
    ensures
        shapes(left.spec_exact()) == shapes(right.spec_exact()),
{
    assert(shapes(left.spec_exact()) =~~= shapes(right.spec_exact()));
}

proof fn lemma_fuzzy_shapes(left: PurchaseFilter, right: PurchaseFilter)
    requires
        left.same_fields(right),
    ensures
        shapes(left.spec_fuzzy()) == shapes(right.spec_fuzzy()),
{
    assert(shapes(left.spec_fuzzy()) =~~= shapes(right.spec_fuzzy()));
}

proof fn lemma_key_shapes(left: PurchaseFilter, right: PurchaseFilter)
    requires
        left.same_fields(right),
    ensures
        shapes(left.spec_keys()) == shapes(right.spec_keys()),
{
    assert(shapes(left.spec_amount_key()) =~~= shapes(right.spec_amount_key()));
    assert(shapes(left.spec_keys()) =~~= shapes(right.spec_keys()));
}

/// What is bound never shapes the statement: two filters that give the same
/// fields and set the same flags compile to statements of one structure, and
/// so of one text, whatever the values hold.
pub proof fn values_leave_structure(left: PurchaseFilter, right: PurchaseFilter, page_size: u32)
    requires
        left.same_fields(right),
        left.spec_statement(page_size) is Ok,
        right.spec_statement(page_size) is Ok,
    ensures
        shape(left.spec_statement(page_size)->Ok_0) == shape(
            right.spec_statement(page_size)->Ok_0,
        ),
        spec_text(shape(left.spec_statement(page_size)->Ok_0)) == spec_text(
            shape(right.spec_statement(page_size)->Ok_0),
        ),
{
    let left_window = Pagination::OverFetch.spec_window(left.page, page_size)->Some_0;
    let right_window = Pagination::OverFetch.spec_window(right.page, page_size)->Some_0;
    lemma_join_shape(left, right);
    lemma_exact_shapes(left, right);
    lemma_fuzzy_shapes(left, right);
    lemma_shapes_concat(left.spec_exact(), left.spec_fuzzy());
    lemma_shapes_concat(right.spec_exact(), right.spec_fuzzy());
    lemma_key_shapes(left, right);
    lemma_select_shape(
        "purchase p"@,
        (left.spec_joins(), right.spec_joins()),
        (left.spec_predicates(), right.spec_predicates()),
        (left.spec_keys(), right.spec_keys()),
        spec_descending("p.purchase_datetime"@),
        (left_window, right_window),
    );
}

proof fn lemma_joins_plain(filter: PurchaseFilter)
    ensures
        forall|i: int|
            0 <= i < filter.spec_joins().len() ==> !is_connective(
                #[trigger] filter.spec_joins()[i],
            ),
{
    reveal_strlit(
        " JOIN outliers o ON o.account_number = p.account_number AND o.purchase_number = p.purchase_number",
    );
    reveal_strlit(
        " JOIN account a ON a.account_number = p.account_number AND a.account_state != p.merchant_state",
    );
    lemma_plain_second(spec_outlier_join());
    lemma_plain_second(spec_interstate_join());
}

proof fn lemma_exact_operands(filter: PurchaseFilter)
    ensures
        all_operands(filter.spec_exact()),
{
    reveal_strlit("p.account_number");
    reveal_strlit("p.purchase_number");
    reveal_strlit("p.merchant_state");
    reveal_strlit("p.merchant_category_code");
    lemma_equals_operand("p.account_number"@);
    lemma_equals_operand("p.purchase_number"@);
    lemma_equals_operand("p.merchant_state"@);
    lemma_equals_operand("p.merchant_category_code"@);
}

proof fn lemma_fuzzy_operands(filter: PurchaseFilter)
    ensures
        all_operands(filter.spec_fuzzy()),
{
    lemma_contains_operand("p.merchant_number"@);
    lemma_contains_operand("p.merchant_name"@);
}

proof fn lemma_key_operands(filter: PurchaseFilter)
    ensures
        all_operands(filter.spec_keys()),
{
    lemma_nearest_operand("p.purchase_datetime"@);
    lemma_nearest_operand("p.post_date"@);
    lemma_nearest_operand("p.purchase_amount"@);
    assert(all_operands(filter.spec_amount_key()));
}

/// No connective dangles in a compiled statement, whatever the filter gives:
/// `WHERE` stands only before a predicate, `AND` and the comma only between
/// two clauses, `ORDER BY` only before a key.
pub proof fn statement_is_well_formed(filter: PurchaseFilter, page_size: u32)
    requires
        filter.spec_statement(page_size) is Ok,
    ensures
        well_formed(filter.spec_statement(page_size)->Ok_0),
{
    let window = Pagination::OverFetch.spec_window(filter.page, page_size)->Some_0;
    reveal_strlit("p.purchase_datetime");
    lemma_joins_plain(filter);
    lemma_exact_operands(filter);
    lemma_fuzzy_operands(filter);
    lemma_all_operands_concat(filter.spec_exact(), filter.spec_fuzzy());
    lemma_key_operands(filter);
    lemma_direction_operand("p.purchase_datetime"@);
    lemma_select(
        "purchase p"@,
        filter.spec_joins(),
        filter.spec_predicates(),
        filter.spec_keys(),
        spec_descending("p.purchase_datetime"@),
        window,
    );
}

} // verus!
