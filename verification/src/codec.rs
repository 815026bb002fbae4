//! Reading and writing records as TOML.
//!
//! The text is parsed and printed by the `toml` crate; a parsed text is a
//! `toml::Value`. What such a value holds is modelled by [`Document`]. The
//! functions of this module that go between a value and a record are
//! verified against that model; what `toml` itself does is taken on trust,
//! item by item, and each such item says so.
//!
//! A text is handed out only after it was read back as the record that it
//! was written for. The printer leaves some control characters in a name
//! bare, and the parser rejects them: a record with such a name is not
//! written at all, rather than written as a file that cannot be read
//! again.
//!
//! The stored format: `years` is a list of tables with an integer `id` and a
//! list `months` of tables with a text `name` and integers `income`,
//! `expenses`, `investments`. Keys that the format does not name are passed
//! over.

use vstd::prelude::*;
use crate::error::Failure;
use crate::record::{
    History,
    HistoryView,
    Month,
    MonthView,
    Year,
    YearView,
    month_views,
    year_views,
};

verus! {

/// What a TOML value holds. Texts, integers, lists and tables are what the
/// stored format is made of; a value of any other kind is carried as it is.
pub ghost enum Document {
    Text(Seq<char>),
    Integer(i64),
    List(Seq<Document>),
    Table(Map<Seq<char>, Document>),
    Other(toml::Value),
}

/// The text that a document is, if it is one.
pub open spec fn text_in(d: Document) -> Option<Seq<char>> {
    match d {
        Document::Text(s) => Some(s),
        _ => None,
    }
}

/// The integer that a document is, if it is one.
pub open spec fn integer_in(d: Document) -> Option<i64> {
    match d {
        Document::Integer(i) => Some(i),
        _ => None,
    }
}

/// The items of a document that is a list.
pub open spec fn list_in(d: Document) -> Option<Seq<Document>> {
    match d {
        Document::List(items) => Some(items),
        _ => None,
    }
}

/// What a document that is a table holds under `key`.
pub open spec fn entry_in(d: Document, key: Seq<char>) -> Option<Document> {
    match d {
        Document::Table(t) => if t.contains_key(key) {
            Some(t[key])
        } else {
            None
        },
        _ => None,
    }
}

/// The table `d` with `item` under `key`, in the place of what was there.
pub open spec fn with_entry(d: Document, key: Seq<char>, item: Document) -> Document {
    match d {
        Document::Table(t) => Document::Table(t.insert(key, item)),
        _ => d,
    }
}

/// The text under `key`.
pub open spec fn text_field(d: Document, key: Seq<char>) -> Option<Seq<char>> {
    match entry_in(d, key) {
        Some(x) => text_in(x),
        None => None,
    }
}

/// The integer under `key`, where it lies between 0 and `max`.
pub open spec fn number_field(d: Document, key: Seq<char>, max: int) -> Option<int> {
    match entry_in(d, key) {
        Some(Document::Integer(i)) => if 0 <= i <= max {
            Some(i as int)
        } else {
            None
        },
        _ => None,
    }
}

/// The list under `key`.
pub open spec fn list_field(d: Document, key: Seq<char>) -> Option<Seq<Document>> {
    match entry_in(d, key) {
        Some(x) => list_in(x),
        None => None,
    }
}

// ---------------------------------------------------------------------------
// The `toml` crate, taken on trust.
// ---------------------------------------------------------------------------

#[verifier::external_type_specification]
#[verifier::external_body]
pub struct ExValue(toml::Value);

#[verifier::external_type_specification]
#[verifier::external_body]
pub struct ExReadError(toml::de::Error);

#[verifier::external_type_specification]
#[verifier::external_body]
pub struct ExWriteError(toml::ser::Error);

/// What a `toml::Value` holds: its text, its integer, the documents of its
/// array's items in order, the documents of its table's entries by key; a
/// float, a boolean or a datetime is held as it is.
pub uninterp spec fn value_doc(v: toml::Value) -> Document;

/// What `toml::from_str` makes of a text: the document of the value that it
/// reads, or `None` where it rejects the text.
pub uninterp spec fn toml_parsed(text: Seq<char>) -> Option<Document>;

/// What `toml::to_string` makes of a value that holds `doc`: the text that
/// it prints, or `None` where it refuses the value.
pub uninterp spec fn toml_printed(doc: Document) -> Option<Seq<char>>;

/// The documents of a run of values, one for one.
pub open spec fn docs_of(values: Seq<toml::Value>) -> Seq<Document> {
    values.map_values(|v: toml::Value| value_doc(v))
}

/// `toml::Value::as_integer` gives the number of `Value::Integer` and
/// `None` for every other variant.
pub assume_specification[ toml::Value::as_integer ](v: &toml::Value) -> (r: Option<i64>)
    ensures
        r == integer_in(value_doc(*v)),
;

/// `toml::Value::as_str` gives the string of `Value::String` and `None` for
/// every other variant.
pub assume_specification[ toml::Value::as_str ](v: &toml::Value) -> (r: Option<&str>)
    ensures
        match r {
            Some(s) => text_in(value_doc(*v)) == Some(s@),
            None => text_in(value_doc(*v)).is_none(),
        },
;

/// `toml::Value::as_array` gives the vector of `Value::Array` and `None` for
/// every other variant.
pub assume_specification[ toml::Value::as_array ](v: &toml::Value) -> (r: Option<
    &Vec<toml::Value>,
>)
    ensures
        match r {
            Some(items) => list_in(value_doc(*v)) == Some(docs_of(items@)),
            None => list_in(value_doc(*v)).is_none(),
        },
;

/// `toml::Value::get` with a string index: the entry of a `Value::Table`
/// under that key, `None` where the table has no such key or the value is
/// no table.
#[verifier::external_body]
fn value_get<'a>(v: &'a toml::Value, key: &str) -> (r: Option<&'a toml::Value>)
    ensures
        match r {
            Some(x) => entry_in(value_doc(*v), key@) == Some(value_doc(*x)),
            None => entry_in(value_doc(*v), key@).is_none(),
        },
{
    v.get(key)
}

/// `toml::Value::from` at `i64`: a `Value::Integer` of that number.
#[verifier::external_body]
fn integer_value(i: i64) -> (v: toml::Value)
    ensures
        value_doc(v) == Document::Integer(i),
{
    toml::Value::from(i)
}

/// `toml::Value::from` at `String`: a `Value::String` of that string.
#[verifier::external_body]
fn text_value(s: String) -> (v: toml::Value)
    ensures
        value_doc(v) == Document::Text(s@),
{
    toml::Value::from(s)
}

/// `toml::Value::from` at a vector of values: a `Value::Array` of the same
/// items in the same order.
#[verifier::external_body]
fn list_value(items: Vec<toml::Value>) -> (v: toml::Value)
    ensures
        value_doc(v) == Document::List(docs_of(items@)),
{
    toml::Value::from(items)
}

/// A `Value::Table` of a new, empty `toml::value::Table`.
#[verifier::external_body]
fn empty_table() -> (v: toml::Value)
    ensures
        value_doc(v) == Document::Table(Map::empty()),
{
    toml::Value::Table(toml::value::Table::new())
}

/// `insert` on the map that `toml::Value::as_table_mut` gives for a table:
/// afterwards the table holds `item` under `key`, whether or not it held
/// the key before, and its other entries are as they were.
#[verifier::external_body]
fn table_insert(table: &mut toml::Value, key: &str, item: toml::Value)
    requires
        value_doc(*old(table)) is Table,
    ensures
        value_doc(*final(table)) == with_entry(value_doc(*old(table)), key@, value_doc(item)),
{
    table.as_table_mut().unwrap().insert(key.to_owned(), item);
}

/// `toml::from_str` at `toml::Value`: the value read from `text`, or the
/// error with which the parser rejects the text. The same text is always
/// read the same way.
#[verifier::external_body]
fn parse_value(text: &str) -> (r: Result<toml::Value, toml::de::Error>)
    ensures
        match r {
            Ok(v) => toml_parsed(text@) == Some(value_doc(v)),
            Err(_) => toml_parsed(text@).is_none(),
        },
{
    toml::from_str::<toml::Value>(text)
}

/// `toml::to_string` at `toml::Value`: the text printed for `v`, or the
/// error with which the printer refuses it. Values that hold the same are
/// always printed the same way.
#[verifier::external_body]
fn print_value(v: &toml::Value) -> (r: Result<String, toml::ser::Error>)
    ensures
        match r {
            Ok(s) => toml_printed(value_doc(*v)) == Some(s@),
            Err(_) => toml_printed(value_doc(*v)).is_none(),
        },
{
    toml::to_string(v)
}

// ---------------------------------------------------------------------------
// Between documents and records: the model.
// ---------------------------------------------------------------------------

/// The month that a document describes: a table with a text `name` and
/// integers `income`, `expenses`, `investments`, each within its range.
pub open spec fn month_of_doc(d: Document) -> Option<MonthView> {
    match (
        text_field(d, "name"@),
        number_field(d, "income"@, u32::MAX as int),
        number_field(d, "expenses"@, u16::MAX as int),
        number_field(d, "investments"@, u32::MAX as int),
    ) {
        (Some(name), Some(income), Some(expenses), Some(investments)) => Some(
            MonthView {
                name: name,
                income: income as u32,
                expenses: expenses as u16,
                investments: investments as u32,
            },
        ),
        _ => None,
    }
}

/// The months that a list of documents describes, if each of them
/// describes one.
pub open spec fn months_of_docs(items: Seq<Document>) -> Option<Seq<MonthView>> {
    if forall|i: int| 0 <= i < items.len() ==> (#[trigger] month_of_doc(items[i])).is_some() {
        Some(items.map_values(|d: Document| month_of_doc(d).unwrap()))
    } else {
        None
    }
}

/// The year that a document describes: a table with an integer `id` within
/// range and a list `months` of months.
pub open spec fn year_of_doc(d: Document) -> Option<YearView> {
    match (number_field(d, "id"@, u16::MAX as int), list_field(d, "months"@)) {
        (Some(id), Some(items)) => match months_of_docs(items) {
            Some(months) => Some(YearView { id: id as u16, months: months }),
            None => None,
        },
        _ => None,
    }
}

/// The years that a list of documents describes, if each of them describes
/// one.
pub open spec fn years_of_docs(items: Seq<Document>) -> Option<Seq<YearView>> {
    if forall|i: int| 0 <= i < items.len() ==> (#[trigger] year_of_doc(items[i])).is_some() {
        Some(items.map_values(|d: Document| year_of_doc(d).unwrap()))
    } else {
        None
    }
}

/// The history that a document describes: a table with a list `years` of
/// years.
pub open spec fn history_of_doc(d: Document) -> Option<HistoryView> {
    match list_field(d, "years"@) {
        Some(items) => match years_of_docs(items) {
            Some(years) => Some(HistoryView { years: years }),
            None => None,
        },
        None => None,
    }
}

/// The document that describes a month.
pub open spec fn doc_of_month(m: MonthView) -> Document {
    Document::Table(
        Map::empty().insert("name"@, Document::Text(m.name)).insert(
            "income"@,
            Document::Integer(m.income as i64),
        ).insert("expenses"@, Document::Integer(m.expenses as i64)).insert(
            "investments"@,
            Document::Integer(m.investments as i64),
        ),
    )
}

/// The document that describes a year: its months in their order.
pub open spec fn doc_of_year(y: YearView) -> Document {
    Document::Table(
        Map::empty().insert("id"@, Document::Integer(y.id as i64)).insert(
            "months"@,
            Document::List(y.months.map_values(|m: MonthView| doc_of_month(m))),
        ),
    )
}

/// The document that describes a history: its years in their order.
pub open spec fn doc_of_history(h: HistoryView) -> Document {
    Document::Table(
        Map::empty().insert(
            "years"@,
            Document::List(h.years.map_values(|y: YearView| doc_of_year(y))),
        ),
    )
}

/// The keys of a month's table are four different texts.
proof fn lemma_month_keys()
    ensures
        "name"@ != "income"@,
        "name"@ != "expenses"@,
        "name"@ != "investments"@,
        "income"@ != "expenses"@,
        "income"@ != "investments"@,
        "expenses"@ != "investments"@,
{
    reveal_strlit("name");
    reveal_strlit("income");
    reveal_strlit("expenses");
    reveal_strlit("investments");
    assert("name"@.len() == 4);
    assert("income"@.len() == 6);
    assert("expenses"@.len() == 8);
    assert("investments"@.len() == 11);
}

/// The keys of a year's table are two different texts.
proof fn lemma_year_keys()
    ensures
        "id"@ != "months"@,
{
    reveal_strlit("id");
    reveal_strlit("months");
    assert("id"@.len() == 2);
    assert("months"@.len() == 6);
}

/// A month is read back from its document.
pub proof fn lemma_month_round_trip(m: MonthView)
    ensures
        month_of_doc(doc_of_month(m)) == Some(m),
{
    lemma_month_keys();
}

/// A year is read back from its document, its months in their order.
pub proof fn lemma_year_round_trip(y: YearView)
    ensures
        year_of_doc(doc_of_year(y)) == Some(y),
{
    lemma_year_keys();
    let items = y.months.map_values(|m: MonthView| doc_of_month(m));
    assert forall|i: int| 0 <= i < items.len() implies #[trigger] month_of_doc(items[i]) == Some(
        y.months[i],
    ) by {
        lemma_month_round_trip(y.months[i]);
    }
    assert(items.map_values(|d: Document| month_of_doc(d).unwrap()) =~= y.months);
}

/// Round trip. Every history is read back from its document: the same
/// years in the same order, each with the same months in the same order.
/// This holds of the empty history too.
pub proof fn lemma_history_round_trip(h: HistoryView)
    ensures
        history_of_doc(doc_of_history(h)) == Some(h),
{
    let items = h.years.map_values(|y: YearView| doc_of_year(y));
    assert forall|i: int| 0 <= i < items.len() implies #[trigger] year_of_doc(items[i]) == Some(
        h.years[i],
    ) by {
        lemma_year_round_trip(h.years[i]);
    }
    assert(items.map_values(|d: Document| year_of_doc(d).unwrap()) =~= h.years);
}

/// Round trip, in text. Whatever text `encode` hands out for a month,
/// `decode` reads as that month.
pub proof fn lemma_month_text_round_trip(m: MonthView, text: Seq<char>)
    requires
        Month::encoded(m) == Some(text),
    ensures
        Month::decoded(text) == Ok::<MonthView, Failure>(m),
{
}

/// Round trip, in text. Whatever text `encode` hands out for a year,
/// `decode` reads as that year.
pub proof fn lemma_year_text_round_trip(y: YearView, text: Seq<char>)
    requires
        Year::encoded(y) == Some(text),
    ensures
        Year::decoded(text) == Ok::<YearView, Failure>(y),
{
}

/// Round trip, in text. Whatever text `encode` hands out for a history,
/// `decode` reads as that history; this holds of the empty history too.
/// Whether `encode` hands out a text is for the printer to decide.
pub proof fn lemma_history_text_round_trip(h: HistoryView, text: Seq<char>)
    requires
        History::encoded(h) == Some(text),
    ensures
        History::decoded(text) == Ok::<HistoryView, Failure>(h),
{
}

/// Where the parser reads the printer's text as the document that was
/// printed, `encode` hands that text out.
pub proof fn lemma_history_encodes(h: HistoryView, text: Seq<char>)
    requires
        toml_printed(doc_of_history(h)) == Some(text),
        toml_parsed(text) == Some(doc_of_history(h)),
    ensures
        History::encoded(h) == Some(text),
{
    lemma_history_round_trip(h);
}

// ---------------------------------------------------------------------------
// Between values and records: the code.
// ---------------------------------------------------------------------------

/// The text under `key` of the table `v`.
fn read_text(v: &toml::Value, key: &str) -> (r: Option<String>)
    ensures
        match r {
            Some(s) => text_field(value_doc(*v), key@) == Some(s@),
            None => text_field(value_doc(*v), key@).is_none(),
        },
{
    match value_get(v, key) {
        Some(x) => match x.as_str() {
            Some(s) => Some(s.to_owned()),
            None => None,
        },
        None => None,
    }
}

/// The integer under `key` of the table `v`, where it lies between 0 and
/// `max`.
fn read_number(v: &toml::Value, key: &str, max: i64) -> (r: Option<i64>)
    ensures
        match r {
            Some(i) => number_field(value_doc(*v), key@, max as int) == Some(i as int),
            None => number_field(value_doc(*v), key@, max as int).is_none(),
        },
{
    match value_get(v, key) {
        Some(x) => match x.as_integer() {
            Some(i) => if 0 <= i && i <= max {
                Some(i)
            } else {
                None
            },
            None => None,
        },
        None => None,
    }
}

/// The list under `key` of the table `v`.
fn read_list<'a>(v: &'a toml::Value, key: &str) -> (r: Option<&'a Vec<toml::Value>>)
    ensures
        match r {
            Some(items) => list_field(value_doc(*v), key@) == Some(docs_of(items@)),
            None => list_field(value_doc(*v), key@).is_none(),
        },
{
    match value_get(v, key) {
        Some(x) => x.as_array(),
        None => None,
    }
}

impl Month {
    /// `text`, where it is read back as `m`.
    pub open spec fn confirmed(m: MonthView, text: Seq<char>) -> Option<Seq<char>> {
        if Month::decoded(text) == Ok::<MonthView, Failure>(m) {
            Some(text)
        } else {
            None
        }
    }

    /// What a month is written as: the text that the printer gives for its
    /// document, where the printer takes it and the text is read back as
    /// the same month.
    pub open spec fn encoded(m: MonthView) -> Option<Seq<char>> {
        match toml_printed(doc_of_month(m)) {
            Some(text) => Month::confirmed(m, text),
            None => None,
        }
    }

    /// What a text is read as: the month that the parsed text describes.
    /// A text that the parser rejects, or that describes no month, is
    /// corrupted.
    pub open spec fn decoded(text: Seq<char>) -> Result<MonthView, Failure> {
        match toml_parsed(text) {
            Some(d) => match month_of_doc(d) {
                Some(m) => Ok(m),
                None => Err(Failure::Corrupted),
            },
            None => Err(Failure::Corrupted),
        }
    }

    /// The month that `v` describes, if it describes one.
    pub fn from_value(v: &toml::Value) -> (r: Option<Month>)
        ensures
            match r {
                Some(m) => month_of_doc(value_doc(*v)) == Some(m@),
                None => month_of_doc(value_doc(*v)).is_none(),
            },
    {
        let name = read_text(v, "name");
        let income = read_number(v, "income", 4294967295);
        let expenses = read_number(v, "expenses", 65535);
        let investments = read_number(v, "investments", 4294967295);
        match (name, income, expenses, investments) {
            (Some(n), Some(inc), Some(exp), Some(inv)) => Some(
                Month::new(n, inc as u32, exp as u16, inv as u32),
            ),
            _ => None,
        }
    }

    /// The value that describes this month.
    pub fn to_value(&self) -> (v: toml::Value)
        ensures
            value_doc(v) == doc_of_month(self@),
    {
        let mut table = empty_table();
        table_insert(&mut table, "name", text_value(self.name().clone()));
        table_insert(&mut table, "income", integer_value(self.income() as i64));
        table_insert(&mut table, "expenses", integer_value(self.expenses() as i64));
        table_insert(&mut table, "investments", integer_value(self.investments() as i64));
        table
    }

    /// Reads a month from text.
    pub fn decode(text: &str) -> (r: Result<Month, Failure>)
        ensures
            match r {
                Ok(m) => Month::decoded(text@) == Ok::<MonthView, Failure>(m@),
                Err(e) => Month::decoded(text@) == Err::<MonthView, Failure>(e),
            },
    {
        match parse_value(text) {
            Ok(v) => match Month::from_value(&v) {
                Some(m) => Ok(m),
                None => Err(Failure::Corrupted),
            },
            Err(_) => Err(Failure::Corrupted),
        }
    }

    /// Hands `text` on where it is read back as this month, and fails with
    /// `Unwritable` where it is not.
    pub fn confirm(&self, text: String) -> (r: Result<String, Failure>)
        ensures
            match r {
                Ok(s) => s@ == text@ && Month::confirmed(self@, text@) == Some(text@),
                Err(e) => e == Failure::Unwritable && Month::confirmed(self@, text@).is_none(),
            },
    {
        match Month::decode(text.as_str()) {
            Ok(back) => if back == *self {
                Ok(text)
            } else {
                Err(Failure::Unwritable)
            },
            Err(_) => Err(Failure::Unwritable),
        }
    }

    /// Writes this month as text. The text is the printer's, and it is
    /// handed out only after it was read back as this month; where the
    /// printer refuses or the text reads otherwise, this fails with
    /// `Unwritable`.
    pub fn encode(&self) -> (r: Result<String, Failure>)
        ensures
            match r {
                Ok(s) => Month::encoded(self@) == Some(s@),
                Err(e) => e == Failure::Unwritable && Month::encoded(self@).is_none(),
            },
    {
        let v = self.to_value();
        match print_value(&v) {
            Ok(s) => self.confirm(s),
            Err(_) => Err(Failure::Unwritable),
        }
    }
}

/// The months that the values describe, if each of them describes one.
fn months_from_values(items: &Vec<toml::Value>) -> (r: Option<Vec<Month>>)
    ensures
        match r {
            Some(months) => months_of_docs(docs_of(items@)) == Some(month_views(months@)),
            None => months_of_docs(docs_of(items@)).is_none(),
        },
{
    let ghost docs = docs_of(items@);
    let mut months: Vec<Month> = Vec::new();
    let mut i: usize = 0;
    while i < items.len()
        invariant
            i <= items.len(),
            docs == docs_of(items@),
            months@.len() == i,
            forall|j: int| 0 <= j < i ==> #[trigger] month_of_doc(docs[j]) == Some(months@[j]@),
        decreases items.len() - i,
    {
        match Month::from_value(&items[i]) {
            Some(m) => {
                months.push(m);
            },
            None => {
                assert(month_of_doc(docs[i as int]).is_none());
                return None;
            },
        }
        i += 1;
    }
    Some(months)
}

/// The values that describe the months, one for one.
fn months_to_values(months: &Vec<Month>) -> (r: Vec<toml::Value>)
    ensures
        docs_of(r@) == month_views(months@).map_values(|m: MonthView| doc_of_month(m)),
{
    let mut items: Vec<toml::Value> = Vec::new();
    let mut i: usize = 0;
    while i < months.len()
        invariant
            i <= months.len(),
            items@.len() == i,
            forall|j: int| 0 <= j < i ==> value_doc(#[trigger] items@[j]) == doc_of_month(months@[j]@),
        decreases months.len() - i,
    {
        items.push(months[i].to_value());
        i += 1;
    }
    items
}

impl Year {
    /// `text`, where it is read back as `y`.
    pub open spec fn confirmed(y: YearView, text: Seq<char>) -> Option<Seq<char>> {
        if Year::decoded(text) == Ok::<YearView, Failure>(y) {
            Some(text)
        } else {
            None
        }
    }

    /// What a year is written as: the text that the printer gives for its
    /// document, where the printer takes it and the text is read back as
    /// the same year.
    pub open spec fn encoded(y: YearView) -> Option<Seq<char>> {
        match toml_printed(doc_of_year(y)) {
            Some(text) => Year::confirmed(y, text),
            None => None,
        }
    }

    /// What a text is read as: the year that the parsed text describes. A
    /// text that the parser rejects, or that describes no year, is
    /// corrupted.
    pub open spec fn decoded(text: Seq<char>) -> Result<YearView, Failure> {
        match toml_parsed(text) {
            Some(d) => match year_of_doc(d) {
                Some(y) => Ok(y),
                None => Err(Failure::Corrupted),
            },
            None => Err(Failure::Corrupted),
        }
    }

    /// The year that `v` describes, if it describes one.
    pub fn from_value(v: &toml::Value) -> (r: Option<Year>)
        ensures
            match r {
                Some(y) => year_of_doc(value_doc(*v)) == Some(y@),
                None => year_of_doc(value_doc(*v)).is_none(),
            },
    {
        let id = read_number(v, "id", 65535);
        let items = read_list(v, "months");
        match (id, items) {
            (Some(id), Some(items)) => match months_from_values(items) {
                Some(months) => Some(Year::from_months(id as u16, months)),
                None => None,
            },
            _ => None,
        }
    }

    /// The value that describes this year.
    pub fn to_value(&self) -> (v: toml::Value)
        ensures
            value_doc(v) == doc_of_year(self@),
    {
        let mut table = empty_table();
        table_insert(&mut table, "id", integer_value(self.id() as i64));
        table_insert(&mut table, "months", list_value(months_to_values(self.months())));
        table
    }

    /// Reads a year from text.
    pub fn decode(text: &str) -> (r: Result<Year, Failure>)
        ensures
            match r {
                Ok(y) => Year::decoded(text@) == Ok::<YearView, Failure>(y@),
                Err(e) => Year::decoded(text@) == Err::<YearView, Failure>(e),
            },
    {
        match parse_value(text) {
            Ok(v) => match Year::from_value(&v) {
                Some(y) => Ok(y),
                None => Err(Failure::Corrupted),
            },
            Err(_) => Err(Failure::Corrupted),
        }
    }

    /// Hands `text` on where it is read back as this year, and fails with
    /// `Unwritable` where it is not.
    pub fn confirm(&self, text: String) -> (r: Result<String, Failure>)
        ensures
            match r {
                Ok(s) => s@ == text@ && Year::confirmed(self@, text@) == Some(text@),
                Err(e) => e == Failure::Unwritable && Year::confirmed(self@, text@).is_none(),
            },
    {
        match Year::decode(text.as_str()) {
            Ok(back) => if back == *self {
                Ok(text)
            } else {
                Err(Failure::Unwritable)
            },
            Err(_) => Err(Failure::Unwritable),
        }
    }

    /// Writes this year as text. The text is the printer's, and it is
    /// handed out only after it was read back as this year; where the
    /// printer refuses or the text reads otherwise, this fails with
    /// `Unwritable`.
    pub fn encode(&self) -> (r: Result<String, Failure>)
        ensures
            match r {
                Ok(s) => Year::encoded(self@) == Some(s@),
                Err(e) => e == Failure::Unwritable && Year::encoded(self@).is_none(),
            },
    {
        let v = self.to_value();
        match print_value(&v) {
            Ok(s) => self.confirm(s),
            Err(_) => Err(Failure::Unwritable),
        }
    }
}

/// The years that the values describe, if each of them describes one.
fn years_from_values(items: &Vec<toml::Value>) -> (r: Option<Vec<Year>>)
    ensures
        match r {
            Some(years) => years_of_docs(docs_of(items@)) == Some(year_views(years@)),
            None => years_of_docs(docs_of(items@)).is_none(),
        },
{
    let ghost docs = docs_of(items@);
    let mut years: Vec<Year> = Vec::new();
    let mut i: usize = 0;
    while i < items.len()
        invariant
            i <= items.len(),
            docs == docs_of(items@),
            years@.len() == i,
            forall|j: int| 0 <= j < i ==> #[trigger] year_of_doc(docs[j]) == Some(years@[j]@),
        decreases items.len() - i,
    {
        match Year::from_value(&items[i]) {
            Some(y) => {
                years.push(y);
            },
            None => {
                assert(year_of_doc(docs[i as int]).is_none());
                return None;
            },
        }
        i += 1;
    }
    Some(years)
}

/// The values that describe the years, one for one.
fn years_to_values(years: &Vec<Year>) -> (r: Vec<toml::Value>)
    ensures
        docs_of(r@) == year_views(years@).map_values(|y: YearView| doc_of_year(y)),
{
    let mut items: Vec<toml::Value> = Vec::new();
    let mut i: usize = 0;
    while i < years.len()
        invariant
            i <= years.len(),
            items@.len() == i,
            forall|j: int| 0 <= j < i ==> value_doc(#[trigger] items@[j]) == doc_of_year(years@[j]@),
        decreases years.len() - i,
    {
        items.push(years[i].to_value());
        i += 1;
    }
    items
}

impl History {
    /// `text`, where it is read back as `h`.
    pub open spec fn confirmed(h: HistoryView, text: Seq<char>) -> Option<Seq<char>> {
        if History::decoded(text) == Ok::<HistoryView, Failure>(h) {
            Some(text)
        } else {
            None
        }
    }

    /// What a history is written as: the text that the printer gives for its
    /// document, where the printer takes it and the text is read back as
    /// the same history.
    pub open spec fn encoded(h: HistoryView) -> Option<Seq<char>> {
        match toml_printed(doc_of_history(h)) {
            Some(text) => History::confirmed(h, text),
            None => None,
        }
    }

    /// What a text is read as: the history that the parsed text describes.
    /// A text that the parser rejects, or that describes no history, is
    /// corrupted.
    pub open spec fn decoded(text: Seq<char>) -> Result<HistoryView, Failure> {
        match toml_parsed(text) {
            Some(d) => match history_of_doc(d) {
                Some(h) => Ok(h),
                None => Err(Failure::Corrupted),
            },
            None => Err(Failure::Corrupted),
        }
    }

    /// The history that `v` describes, if it describes one.
    pub fn from_value(v: &toml::Value) -> (r: Option<History>)
        ensures
            match r {
                Some(h) => history_of_doc(value_doc(*v)) == Some(h@),
                None => history_of_doc(value_doc(*v)).is_none(),
            },
    {
        match read_list(v, "years") {
            Some(items) => match years_from_values(items) {
                Some(years) => Some(History::from_years(years)),
                None => None,
            },
            None => None,
        }
    }

    /// The value that describes this history.
    pub fn to_value(&self) -> (v: toml::Value)
        ensures
            value_doc(v) == doc_of_history(self@),
    {
        let mut table = empty_table();
        table_insert(&mut table, "years", list_value(years_to_values(self.years())));
        table
    }

    /// Reads a history from text.
    pub fn decode(text: &str) -> (r: Result<History, Failure>)
        ensures
            match r {
                Ok(h) => History::decoded(text@) == Ok::<HistoryView, Failure>(h@),
                Err(e) => History::decoded(text@) == Err::<HistoryView, Failure>(e),
            },
    {
        match parse_value(text) {
            Ok(v) => match History::from_value(&v) {
                Some(h) => Ok(h),
                None => Err(Failure::Corrupted),
            },
            Err(_) => Err(Failure::Corrupted),
        }
    }

    /// Hands `text` on where it is read back as this history, and fails with
    /// `Unwritable` where it is not.
    pub fn confirm(&self, text: String) -> (r: Result<String, Failure>)
        ensures
            match r {
                Ok(s) => s@ == text@ && History::confirmed(self@, text@) == Some(text@),
                Err(e) => e == Failure::Unwritable && History::confirmed(self@, text@).is_none(),
            },
    {
        match History::decode(text.as_str()) {
            Ok(back) => if back == *self {
                Ok(text)
            } else {
                Err(Failure::Unwritable)
            },
            Err(_) => Err(Failure::Unwritable),
        }
    }

    /// Writes this history as text. The text is the printer's, and it is
    /// handed out only after it was read back as this history; where the
    /// printer refuses or the text reads otherwise, this fails with
    /// `Unwritable`.
    pub fn encode(&self) -> (r: Result<String, Failure>)
        ensures
            match r {
                Ok(s) => History::encoded(self@) == Some(s@),
                Err(e) => e == Failure::Unwritable && History::encoded(self@).is_none(),
            },
    {
        let v = self.to_value();
        match print_value(&v) {
            Ok(s) => self.confirm(s),
            Err(_) => Err(Failure::Unwritable),
        }
    }
}

} // verus!
