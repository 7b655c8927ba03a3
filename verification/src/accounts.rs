//! The account lookup: from a sparse filter to the statement that answers it.

use crate::calendar::Date;
use crate::clause::{
    ascending, attach, contains, equals, given, lemma_shapes_concat, nearest, shapes,
    spec_ascending, spec_contains, spec_equals, spec_nearest, spec_starts_with, starts_with,
    views,
};
use crate::compiler::{lemma_select_shape, lookup, select, spec_lookup, spec_scan, spec_select};
use crate::connective::{
    all_operands, is_operand, lemma_all_operands_concat, lemma_concat, lemma_contains_operand,
    lemma_direction_operand, lemma_equals_operand, lemma_nearest_operand, lemma_operand,
    lemma_plain_start, lemma_select, lemma_starts_with_operand, well_formed,
};
use crate::fragment::{shape, spec_text, Atom, Datum, QueryFragment, Value};
use crate::pagination::{FilterError, Pagination, Window};
use crate::text::{decimal, lowercase, lowered, signed_decimal, signed_decimal_text};
use vstd::prelude::*;

verus! {

/// What a caller may ask of an account. Every field but `page` is optional,
/// and each one given narrows or orders the result.
#[derive(Debug)]
pub struct AccountFilter {
    /// The unique identifier. Where it is given, nothing else is looked at.
    pub account_number: Option<i64>,
    /// Leading digits of the phone number.
    pub mobile_number: Option<i64>,
    /// Text that occurs in the e-mail address, in any case.
    pub email_address: Option<String>,
    /// Leading digits of the social security number.
    pub ssn: Option<i32>,
    /// The date of birth to come nearest to.
    pub dob: Option<Date>,
    pub zip: Option<i32>,
    pub account_state: Option<String>,
    /// Text that occurs in the city, in any case.
    pub city: Option<String>,
    pub unit: Option<i32>,
    /// Text that occurs in the street address, in any case.
    pub street_address: Option<String>,
    /// Text that occurs in the first name, in any case.
    pub first_name: Option<String>,
    /// Text that occurs in the last name, in any case.
    pub last_name: Option<String>,
    /// The index of the page asked for, from zero.
    pub page: i64,
}

impl AccountFilter {
    /// One comparison by equality for each code or number that is given.
    pub open spec fn spec_exact(self) -> Seq<Seq<Atom>> {
        given(self.zip, |zip: i32| spec_equals("zip"@, Datum::Int(zip)))
        + given(self.unit, |unit: i32| spec_equals("unit"@, Datum::Int(unit)))
        + given(
            self.account_state,
            |state: String| spec_equals("account_state"@, Datum::Text(state@)),
        )
    }

    /// One comparison by leading digits for each of phone number and social
    /// security number that is given, the number bound as its decimal text.
    pub open spec fn spec_anchored(self) -> Seq<Seq<Atom>> {
        given(
            self.mobile_number,
            |number: i64| spec_starts_with("mobile_number"@, signed_decimal(number as int)),
        )
        + given(self.ssn, |number: i32| spec_starts_with("ssn"@, signed_decimal(number as int)))
    }

    /// One comparison for each name or address that is given: its lower-case
    /// form must occur in the lower-case form of the column.
    pub open spec fn spec_fuzzy(self) -> Seq<Seq<Atom>> {
        given(self.email_address, |text: String| spec_contains("email_address"@, lowered(text@)))
        + given(self.city, |text: String| spec_contains("city"@, lowered(text@)))
        + given(
            self.street_address,
            |text: String| spec_contains("street_address"@, lowered(text@)),
        )
        + given(self.last_name, |text: String| spec_contains("last_name"@, lowered(text@)))
        + given(self.first_name, |text: String| spec_contains("first_name"@, lowered(text@)))
    }

    /// One comparison for each field that is given and restricts the rows:
    /// the exact ones, then those by leading digits, then those by text.
    pub open spec fn spec_predicates(self) -> Seq<Seq<Atom>> {
        self.spec_exact() + self.spec_anchored() + self.spec_fuzzy()
    }

    /// The ordering keys that the filter asks for: nearest date of birth first
    /// where one is given.
    pub open spec fn spec_keys(self) -> Seq<Seq<Atom>> {
        given(self.dob, |dob: Date| spec_nearest("dob"@, Datum::Date(dob)))
    }

    /// The statement that answers the filter with pages of `page_size` rows.
    ///
    /// With the account number given it is the direct lookup of that one row,
    /// whatever the other fields and the page hold. Otherwise it scans the
    /// accounts for the rows that meet every predicate, nearest date of birth
    /// first, else by last name, and cuts page `page` from them; there is none
    /// for a page that is out of range.
    pub open spec fn spec_statement(self, page_size: u32) -> Result<Seq<Atom>, FilterError> {
        match self.account_number {
            Some(number) => Ok(
                spec_lookup("account"@, spec_equals("account_number"@, Datum::BigInt(number))),
            ),
            None => match Pagination::Plain.spec_window(self.page, page_size) {
                Some(window) => Ok(
                    spec_select(
                        "account"@,
                        Seq::empty(),
                        self.spec_predicates(),
                        self.spec_keys(),
                        spec_ascending("last_name"@),
                        window,
                    ),
                ),
                None => Err(FilterError::PageOutOfRange),
            },
        }
    }

    /// Builds the comparisons by equality.
    pub fn exact(&self) -> (list: Vec<QueryFragment>)
        ensures
            views(list@) == self.spec_exact(),
    {
        let mut list: Vec<QueryFragment> = Vec::new();
        attach(
            &mut list,
            match self.zip {
                Some(zip) => Some(equals("zip", Value::Int(zip))),
                None => None,
            },
        );
        attach(
            &mut list,
            match self.unit {
                Some(unit) => Some(equals("unit", Value::Int(unit))),
                None => None,
            },
        );
        attach(
            &mut list,
            match &self.account_state {
                Some(state) => Some(equals("account_state", Value::Text(state.clone()))),
                None => None,
            },
        );
        assert(views(list@) =~= self.spec_exact());
        list
    }

    /// Builds the comparisons by leading digits.
    pub fn anchored(&self) -> (list: Vec<QueryFragment>)
        ensures
            views(list@) == self.spec_anchored(),
    {
        let mut list: Vec<QueryFragment> = Vec::new();
        attach(
            &mut list,
            match self.mobile_number {
                Some(number) => Some(starts_with("mobile_number", signed_decimal_text(number))),
                None => None,
            },
        );
        attach(
            &mut list,
            match self.ssn {
                Some(number) => Some(starts_with("ssn", signed_decimal_text(number as i64))),
                None => None,
            },
        );
        assert(views(list@) =~= self.spec_anchored());
        list
    }

    /// Builds the comparisons by text that occurs in any case.
    pub fn fuzzy(&self) -> (list: Vec<QueryFragment>)
        ensures
            views(list@) == self.spec_fuzzy(),
    {
        let mut list: Vec<QueryFragment> = Vec::new();
        attach(
            &mut list,
            match &self.email_address {
                Some(text) => Some(contains("email_address", lowercase(text.as_str()))),
                None => None,
            },
        );
        attach(
            &mut list,
            match &self.city {
                Some(text) => Some(contains("city", lowercase(text.as_str()))),
                None => None,
            },
        );
        attach(
            &mut list,
            match &self.street_address {
                Some(text) => Some(contains("street_address", lowercase(text.as_str()))),
                None => None,
            },
        );
        attach(
            &mut list,
            match &self.last_name {
                Some(text) => Some(contains("last_name", lowercase(text.as_str()))),
                None => None,
            },
        );
        attach(
            &mut list,
            match &self.first_name {
                Some(text) => Some(contains("first_name", lowercase(text.as_str()))),
                None => None,
            },
        );
        assert(views(list@) =~= self.spec_fuzzy());
        list
    }

    /// Builds one comparison for each field that is given and restricts the
    /// rows.
    pub fn predicates(&self) -> (list: Vec<QueryFragment>)
        ensures
            views(list@) == self.spec_predicates(),
    {
        let mut list = self.exact();
        let mut anchored = self.anchored();
        let mut fuzzy = self.fuzzy();
        list.append(&mut anchored);
        list.append(&mut fuzzy);
        assert(views(list@) =~= self.spec_predicates());
        list
    }

    /// Builds the ordering keys that the filter asks for.
    pub fn keys(&self) -> (list: Vec<QueryFragment>)
        ensures
            views(list@) == self.spec_keys(),
    {
        let mut list: Vec<QueryFragment> = Vec::new();
        if let Some(dob) = self.dob {
            list.push(nearest("dob", Value::Date(dob)));
        }
        assert(views(list@) =~= self.spec_keys());
        list
    }
}

/// The account endpoint.
#[derive(Debug)]
pub struct AccountsApi;

impl AccountsApi {
    /// Accounts come in plain pages: the caller sees the end when a page comes
    /// back short.
    pub fn pagination(&self) -> (policy: Pagination)
        ensures
            policy == Pagination::Plain,
    {
        Pagination::Plain
    }
}

/// Compiles an account filter into the one statement that answers it, for
/// pages of `page_size` rows.
pub fn read(filter: &AccountFilter, page_size: u32) -> (statement: Result<
    QueryFragment,
    FilterError,
>)
    ensures
        match (statement, filter.spec_statement(page_size)) {
            (Ok(built), Ok(stated)) => built@ == stated,
            (Err(raised), Err(stated)) => raised == stated,
            _ => false,
        },
{
    if let Some(number) = filter.account_number {
        return Ok(lookup("account", equals("account_number", Value::BigInt(number))));
    }
    match AccountsApi.pagination().window(filter.page, page_size) {
        Some(window) => Ok(
            select(
                "account",
                QueryFragment::new(),
                filter.predicates(),
                filter.keys(),
                ascending("last_name"),
                window,
            ),
        ),
        None => Err(FilterError::PageOutOfRange),
    }
}

/// Whether two optional texts are both absent, or both given and the same.
pub open spec fn same_text(left: Option<String>, right: Option<String>) -> bool {
    match (left, right) {
        (Some(a), Some(b)) => a@ == b@,
        (None, None) => true,
        _ => false,
    }
}

/// Whether two optional texts are both absent, or both given and the same but
/// for the case of their letters.
pub open spec fn same_but_for_case(left: Option<String>, right: Option<String>) -> bool {
    match (left, right) {
        (Some(a), Some(b)) => lowered(a@) == lowered(b@),
        (None, None) => true,
        _ => false,
    }
}

impl AccountFilter {
    /// Whether no field but the page is given.
    pub open spec fn is_blank(self) -> bool {
        &&& self.account_number is None
        &&& self.mobile_number is None
        &&& self.email_address is None
        &&& self.ssn is None
        &&& self.dob is None
        &&& self.zip is None
        &&& self.account_state is None
        &&& self.city is None
        &&& self.unit is None
        &&& self.street_address is None
        &&& self.first_name is None
        &&& self.last_name is None
    }

    /// Whether the two filters give the same fields, whatever they give for
    /// them.
    pub open spec fn same_fields(self, other: AccountFilter) -> bool {
        &&& (self.account_number is Some) == (other.account_number is Some)
        &&& (self.mobile_number is Some) == (other.mobile_number is Some)
        &&& (self.email_address is Some) == (other.email_address is Some)
        &&& (self.ssn is Some) == (other.ssn is Some)
        &&& (self.dob is Some) == (other.dob is Some)
        &&& (self.zip is Some) == (other.zip is Some)
        &&& (self.account_state is Some) == (other.account_state is Some)
        &&& (self.city is Some) == (other.city is Some)
        &&& (self.unit is Some) == (other.unit is Some)
        &&& (self.street_address is Some) == (other.street_address is Some)
        &&& (self.first_name is Some) == (other.first_name is Some)
        &&& (self.last_name is Some) == (other.last_name is Some)
    }

    /// Whether the two filters ask the same but for the case of letters in
    /// the fields that are matched by text.
    pub open spec fn same_but_for_case(self, other: AccountFilter) -> bool {
        &&& self.account_number == other.account_number
        &&& self.mobile_number == other.mobile_number
        &&& self.ssn == other.ssn
        &&& self.dob == other.dob
        &&& self.zip == other.zip
        &&& self.unit == other.unit
        &&& self.page == other.page
        &&& same_text(self.account_state, other.account_state)
        &&& same_but_for_case(self.email_address, other.email_address)
        &&& same_but_for_case(self.city, other.city)
        &&& same_but_for_case(self.street_address, other.street_address)
        &&& same_but_for_case(self.first_name, other.first_name)
        &&& same_but_for_case(self.last_name, other.last_name)
    }
}

/// A filter that gives nothing but page zero always compiles, to the scan of
/// all accounts by last name, cut to the first `page_size` rows.
pub proof fn blank_filter_scans_all(filter: AccountFilter, page_size: u32)
    requires
        filter.is_blank(),
        filter.page == 0,
    ensures
        filter.spec_statement(page_size) == Ok::<Seq<Atom>, FilterError>(
            seq![
                Atom::Text("SELECT * FROM "@ + "account"@),
                Atom::Text(" ORDER BY "@),
                Atom::Text("last_name"@ + " ASC"@),
                Atom::Text(" LIMIT "@ + decimal(page_size as nat) + " OFFSET "@),
                Atom::Bind(Datum::BigInt(0)),
            ],
        ),
{
    let window = Window { limit: page_size as u64, offset: 0 };
    assert(Pagination::Plain.spec_window(0, page_size) == Some(window));
    assert(filter.spec_predicates() =~= Seq::empty());
    assert(filter.spec_keys() =~= Seq::empty());
    assert(spec_select(
        "account"@,
        Seq::empty(),
        filter.spec_predicates(),
        filter.spec_keys(),
        spec_ascending("last_name"@),
        window,
    ) =~= seq![
        Atom::Text("SELECT * FROM "@ + "account"@),
        Atom::Text(" ORDER BY "@),
        Atom::Text("last_name"@ + " ASC"@),
        Atom::Text(" LIMIT "@ + decimal(page_size as nat) + " OFFSET "@),
        Atom::Bind(Datum::BigInt(0)),
    ]);
}

/// Matching by text ignores case: two filters that differ only in the case
/// of letters in such fields compile to the same statement with the same
/// bound values.
pub proof fn case_is_ignored(left: AccountFilter, right: AccountFilter, page_size: u32)
    requires
        left.same_but_for_case(right),
    ensures
        left.spec_statement(page_size) == right.spec_statement(page_size),
{
    assert(left.spec_exact() =~= right.spec_exact());
    assert(left.spec_anchored() =~= right.spec_anchored());
    assert(left.spec_fuzzy() =~= right.spec_fuzzy());
    assert(left.spec_keys() =~= right.spec_keys());
}

/// With the account number given, the statement is the direct lookup of that
/// number and nothing else: no other field, no page and no page size has any
/// part in it.
pub proof fn lookup_ignores_the_rest(
    left: AccountFilter,
    right: AccountFilter,
    left_size: u32,
    right_size: u32,
)
    requires
        left.account_number is Some,
        left.account_number == right.account_number,
    ensures
        left.spec_statement(left_size) == right.spec_statement(right_size),
        left.spec_statement(left_size) == Ok::<Seq<Atom>, FilterError>(
            seq![
                Atom::Text("SELECT * FROM "@ + "account"@),
                Atom::Text(" WHERE "@),
                Atom::Text("account_number"@ + " = "@),
                Atom::Bind(Datum::BigInt(left.account_number->Some_0)),
            ],
        ),
{
    let number = left.account_number->Some_0;
    assert(spec_lookup("account"@, spec_equals("account_number"@, Datum::BigInt(number)))
        =~= seq![
        Atom::Text("SELECT * FROM "@ + "account"@),
        Atom::Text(" WHERE "@),
        Atom::Text("account_number"@ + " = "@),
        Atom::Bind(Datum::BigInt(number)),
    ]);
}

proof fn lemma_exact_shapes(left: AccountFilter, right: AccountFilter)
    requires
        left.same_fields(right),
    ensures
        shapes(left.spec_exact()) == shapes(right.spec_exact()),
{
    assert(shapes(left.spec_exact()) =~~= shapes(right.spec_exact()));
}

proof fn lemma_anchored_shapes(left: AccountFilter, right: AccountFilter)
    requires
        left.same_fields(right),
    ensures
        shapes(left.spec_anchored()) == shapes(right.spec_anchored()),
{
    assert(shapes(left.spec_anchored()) =~~= shapes(right.spec_anchored()));
}

proof fn lemma_fuzzy_shapes(left: AccountFilter, right: AccountFilter)
    requires
        left.same_fields(right),
    ensures
        shapes(left.spec_fuzzy()) == shapes(right.spec_fuzzy()),
{
    assert(shapes(left.spec_fuzzy()) =~~= shapes(right.spec_fuzzy()));
}

proof fn lemma_key_shapes(left: AccountFilter, right: AccountFilter)
    requires
        left.same_fields(right),
    ensures
        shapes(left.spec_keys()) == shapes(right.spec_keys()),
{
    assert(shapes(left.spec_keys()) =~~= shapes(right.spec_keys()));
}

proof fn lemma_predicate_shapes(left: AccountFilter, right: AccountFilter)
    requires
        left.same_fields(right),
    ensures
        shapes(left.spec_predicates()) == shapes(right.spec_predicates()),
{
    lemma_exact_shapes(left, right);
    lemma_anchored_shapes(left, right);
    lemma_fuzzy_shapes(left, right);
    lemma_shapes_concat(left.spec_exact(), left.spec_anchored());
    lemma_shapes_concat(right.spec_exact(), right.spec_anchored());
    lemma_shapes_concat(left.spec_exact() + left.spec_anchored(), left.spec_fuzzy());
    lemma_shapes_concat(right.spec_exact() + right.spec_anchored(), right.spec_fuzzy());
}

/// What is bound never shapes the statement: two filters that give the same
/// fields compile to statements of one structure, and so of one text,
/// whatever the values hold.
pub proof fn values_leave_structure(left: AccountFilter, right: AccountFilter, page_size: u32)
    requires
        left.same_fields(right),
        left.spec_statement(page_size) is Ok,
        right.spec_statement(page_size) is Ok,
    ensures
        shape(left.spec_statement(page_size)->Ok_0) == shape(
            right.spec_statement(page_size)->Ok_0,
        ),
        spec_text(shape(left.spec_statement(page_size)->Ok_0)) == spec_text(
            shape(right.spec_statement(page_size)->Ok_0),
        ),
{
    if left.account_number is Some {
        assert(shape(left.spec_statement(page_size)->Ok_0) =~= shape(
            right.spec_statement(page_size)->Ok_0,
        ));
    } else {
        let left_window = Pagination::Plain.spec_window(left.page, page_size)->Some_0;
        let right_window = Pagination::Plain.spec_window(right.page, page_size)->Some_0;
        lemma_predicate_shapes(left, right);
        lemma_key_shapes(left, right);
        lemma_select_shape(
            "account"@,
            (Seq::empty(), Seq::empty()),
            (left.spec_predicates(), right.spec_predicates()),
            (left.spec_keys(), right.spec_keys()),
            spec_ascending("last_name"@),
            (left_window, right_window),
        );
    }
}

proof fn lemma_exact_operands(filter: AccountFilter)
    ensures
        all_operands(filter.spec_exact()),
{
    reveal_strlit("zip");
    reveal_strlit("unit");
    reveal_strlit("account_state");
    lemma_equals_operand("zip"@);
    lemma_equals_operand("unit"@);
    lemma_equals_operand("account_state"@);
}

proof fn lemma_anchored_operands(filter: AccountFilter)
    ensures
        all_operands(filter.spec_anchored()),
{
    reveal_strlit("mobile_number");
    reveal_strlit("ssn");
    lemma_starts_with_operand("mobile_number"@);
    lemma_starts_with_operand("ssn"@);
}

proof fn lemma_fuzzy_operands(filter: AccountFilter)
    ensures
        all_operands(filter.spec_fuzzy()),
{
    lemma_contains_operand("email_address"@);
    lemma_contains_operand("city"@);
    lemma_contains_operand("street_address"@);
    lemma_contains_operand("last_name"@);
    lemma_contains_operand("first_name"@);
}

/// No connective dangles in a compiled statement, whatever the filter gives:
/// `WHERE` stands only before a predicate, `AND` and the comma only between
/// two clauses, `ORDER BY` only before a key.
pub proof fn statement_is_well_formed(filter: AccountFilter, page_size: u32)
    requires
        filter.spec_statement(page_size) is Ok,
    ensures
        well_formed(filter.spec_statement(page_size)->Ok_0),
{
    reveal_strlit("account_number");
    reveal_strlit("last_name");
    reveal_strlit("SELECT * FROM ");
    if filter.account_number is Some {
        let number = filter.account_number->Some_0;
        let predicate = spec_equals("account_number"@, Datum::BigInt(number));
        lemma_equals_operand("account_number"@);
        assert(is_operand(predicate));
        lemma_plain_start("SELECT * FROM "@ + "account"@);
        lemma_operand(Atom::Text(" WHERE "@), predicate);
        lemma_concat(spec_scan("account"@), seq![Atom::Text(" WHERE "@)] + predicate);
        assert(spec_lookup("account"@, predicate) =~= spec_scan("account"@) + (seq![
            Atom::Text(" WHERE "@),
        ] + predicate));
    } else {
        let window = Pagination::Plain.spec_window(filter.page, page_size)->Some_0;
        lemma_exact_operands(filter);
        lemma_anchored_operands(filter);
        lemma_fuzzy_operands(filter);
        lemma_all_operands_concat(filter.spec_exact(), filter.spec_anchored());
        lemma_all_operands_concat(
            filter.spec_exact() + filter.spec_anchored(),
            filter.spec_fuzzy(),
        );
        lemma_nearest_operand("dob"@);
        assert(all_operands(filter.spec_keys()));
        lemma_direction_operand("last_name"@);
        lemma_select(
            "account"@,
            Seq::empty(),
            filter.spec_predicates(),
            filter.spec_keys(),
            spec_ascending("last_name"@),
            window,
        );
    }
}

} // verus!
