//! From the content of the data file to a history and back.
//!
//! Nothing here touches a file. The caller reads the file's content, hands
//! it over as text and writes back the text that it is given. An empty text
//! stands for a file that is new or empty: the history then starts with the
//! current calendar year, which the local clock supplies.
//!
//! Each operation comes twice: with the clock's reading as an argument,
//! where its result is determined, and without, where it asks the clock.

use vstd::prelude::*;
use crate::error::Failure;
use crate::record::{History, HistoryView, Month, MonthView, Year, YearView};
use crate::upsert::{
    found_month,
    lemma_year_position_is,
    month_position,
    upserted,
    year_position,
};

verus! {

/// The year number for a clock that counts years since 1900, where it fits.
pub open spec fn calendar_year(tm_year: i32) -> Option<u16> {
    if 0 <= tm_year + 1900 <= u16::MAX {
        Some((tm_year + 1900) as u16)
    } else {
        None
    }
}

/// The history that holds one year, `year`, without months.
pub open spec fn fresh(year: u16) -> HistoryView {
    HistoryView { years: seq![YearView { id: year, months: Seq::empty() }] }
}

/// The history to start with when the clock reads `tm_year`.
pub open spec fn started(tm_year: i32) -> Result<HistoryView, Failure> {
    match calendar_year(tm_year) {
        Some(year) => Ok(fresh(year)),
        None => Err(Failure::YearOutOfRange),
    }
}

/// The history that the content of the data file stands for: a fresh start
/// for an empty text, what the text is read as for any other.
pub open spec fn loaded(text: Seq<char>, tm_year: i32) -> Result<HistoryView, Failure> {
    if text.len() == 0 {
        started(tm_year)
    } else {
        History::decoded(text)
    }
}

/// The new content of the data file after `m` was added to year `year_id`.
pub open spec fn inserted(text: Seq<char>, tm_year: i32, year_id: u16, m: MonthView) -> Result<
    Seq<char>,
    Failure,
> {
    match loaded(text, tm_year) {
        Ok(h) => match History::encoded(upserted(h, year_id, m)) {
            Some(t) => Ok(t),
            None => Err(Failure::Unwritable),
        },
        Err(e) => Err(e),
    }
}

/// The month named `name` of year `year_id` in the data file.
pub open spec fn shown(text: Seq<char>, tm_year: i32, year_id: u16, name: Seq<char>) -> Result<
    MonthView,
    Failure,
> {
    match loaded(text, tm_year) {
        Ok(h) => found_month(h, year_id, name),
        Err(e) => Err(e),
    }
}

/// `r` is the history `want`, or fails as `want` does.
pub open spec fn is_history(r: Result<History, Failure>, want: Result<HistoryView, Failure>) -> bool {
    match r {
        Ok(h) => want == Ok::<HistoryView, Failure>(h@),
        Err(e) => want == Err::<HistoryView, Failure>(e),
    }
}

/// `r` is the text `want`, or fails as `want` does.
pub open spec fn is_text(r: Result<String, Failure>, want: Result<Seq<char>, Failure>) -> bool {
    match r {
        Ok(s) => want == Ok::<Seq<char>, Failure>(s@),
        Err(e) => want == Err::<Seq<char>, Failure>(e),
    }
}

/// `r` is the month `want`, or fails as `want` does.
pub open spec fn is_month(r: Result<Month, Failure>, want: Result<MonthView, Failure>) -> bool {
    match r {
        Ok(m) => want == Ok::<MonthView, Failure>(m@),
        Err(e) => want == Err::<MonthView, Failure>(e),
    }
}

/// `time::now`, and of the `Tm` that it returns the field `tm_year`: the
/// years since 1900 by the local clock. Nothing is claimed of the number.
#[verifier::external_body]
fn clock_tm_year() -> i32 {
    time::now().tm_year
}

/// The history to start with when the clock reads `tm_year`: the calendar
/// year, empty. Fails where the year does not fit a year number.
pub fn start_new_at(tm_year: i32) -> (r: Result<History, Failure>)
    ensures
        is_history(r, started(tm_year)),
{
    if -1900 <= tm_year && tm_year <= 65535 - 1900 {
        let mut h = History::new();
        h.add_year(Year::new((tm_year + 1900) as u16));
        Ok(h)
    } else {
        Err(Failure::YearOutOfRange)
    }
}

/// The history to start with now. Whatever the clock reads, the result is
/// what `start_new_at` gives for that reading.
pub fn start_new() -> (r: Result<History, Failure>)
    ensures
        exists|tm_year: i32| is_history(r, #[trigger] started(tm_year)),
{
    start_new_at(clock_tm_year())
}

/// The history that `text` stands for when the clock reads `tm_year`.
pub fn load_history_at(text: &str, tm_year: i32) -> (r: Result<History, Failure>)
    ensures
        is_history(r, loaded(text@, tm_year)),
{
    if text.is_empty() {
        start_new_at(tm_year)
    } else {
        History::decode(text)
    }
}

/// The history that `text` stands for. The clock is asked only where the
/// text is empty; any other text is read as it is.
pub fn load_history(text: &str) -> (r: Result<History, Failure>)
    ensures
        exists|tm_year: i32| is_history(r, #[trigger] loaded(text@, tm_year)),
        text@.len() > 0 ==> is_history(r, History::decoded(text@)),
{
    if text.is_empty() {
        let tm_year = clock_tm_year();
        let r = start_new_at(tm_year);
        assert(is_history(r, loaded(text@, tm_year)));
        r
    } else {
        let r = History::decode(text);
        assert(is_history(r, loaded(text@, 0)));
        r
    }
}

/// The text of `hist` after `m` was added to year `year_id`.
fn updated_text(hist: History, year_id: u16, m: Month) -> (r: Result<String, Failure>)
    ensures
        match r {
            Ok(s) => History::encoded(upserted(hist@, year_id, m@)) == Some(s@),
            Err(e) => e == Failure::Unwritable && History::encoded(
                upserted(hist@, year_id, m@),
            ).is_none(),
        },
{
    let mut hist = hist;
    hist.upsert_month(year_id, m);
    hist.encode()
}

/// Adds `m` to year `year_id` of the history that `text` stands for when
/// the clock reads `tm_year`, and gives the new content of the data file.
pub fn insert_month_at(text: &str, tm_year: i32, year_id: u16, m: Month) -> (r: Result<
    String,
    Failure,
>)
    ensures
        is_text(r, inserted(text@, tm_year, year_id, m@)),
{
    match load_history_at(text, tm_year) {
        Ok(hist) => updated_text(hist, year_id, m),
        Err(e) => Err(e),
    }
}

/// Adds `m` to year `year_id` of the history that `text` stands for, and
/// gives the new content of the data file. The clock is asked only where
/// the text is empty; for any other text the result is the same whatever
/// the clock reads.
pub fn insert_month(text: &str, year_id: u16, m: Month) -> (r: Result<String, Failure>)
    ensures
        exists|tm_year: i32| is_text(r, #[trigger] inserted(text@, tm_year, year_id, m@)),
        text@.len() > 0 ==> forall|tm_year: i32|
            is_text(r, #[trigger] inserted(text@, tm_year, year_id, m@)),
{
    if text.is_empty() {
        insert_month_at(text, clock_tm_year(), year_id, m)
    } else {
        insert_month_at(text, 0, year_id, m)
    }
}

/// The month named `name` of year `year_id` in the history that `text`
/// stands for when the clock reads `tm_year`. A text that cannot be read
/// fails with `Corrupted`, a year that is not there with `NoSuchYear`, a
/// month that is not there with `NoSuchMonth`.
pub fn show_month_at(text: &str, tm_year: i32, year_id: u16, name: &str) -> (r: Result<
    Month,
    Failure,
>)
    ensures
        is_month(r, shown(text@, tm_year, year_id, name@)),
{
    match load_history_at(text, tm_year) {
        Ok(hist) => match hist.find_month(year_id, name) {
            Ok(m) => Ok(Month::new(m.name().clone(), m.income(), m.expenses(), m.investments())),
            Err(e) => Err(e),
        },
        Err(e) => Err(e),
    }
}

/// The month named `name` of year `year_id` in the history that `text`
/// stands for. The clock is asked only where the text is empty; for any
/// other text the result is the same whatever the clock reads.
pub fn show_month(text: &str, year_id: u16, name: &str) -> (r: Result<Month, Failure>)
    ensures
        exists|tm_year: i32| is_month(r, #[trigger] shown(text@, tm_year, year_id, name@)),
        text@.len() > 0 ==> forall|tm_year: i32|
            is_month(r, #[trigger] shown(text@, tm_year, year_id, name@)),
{
    if text.is_empty() {
        show_month_at(text, clock_tm_year(), year_id, name)
    } else {
        show_month_at(text, 0, year_id, name)
    }
}

/// Fresh start. Where the data file is empty and the clock reads the year
/// to which the first month is added, the history then holds that year
/// alone, with that month alone. (With another year on the clock the
/// history holds the clock's year too, empty.)
pub proof fn lemma_fresh_start(tm_year: i32, year_id: u16, m: MonthView)
    requires
        calendar_year(tm_year) == Some(year_id),
    ensures
        loaded(Seq::<char>::empty(), tm_year) == Ok::<HistoryView, Failure>(fresh(year_id)),
        upserted(fresh(year_id), year_id, m).years == seq![
            YearView { id: year_id, months: seq![m] },
        ],
{
    let start = fresh(year_id);
    lemma_year_position_is(start.years, year_id, 0);
}

/// A month that is not there is told apart from a file that cannot be
/// read. Showing a month fails with `Corrupted` only where a text that is
/// not empty is read as no history, and with `NoSuchYear` or `NoSuchMonth`
/// only where the file was read and the lookup found nothing.
pub proof fn lemma_show_failures(text: Seq<char>, tm_year: i32, year_id: u16, name: Seq<char>)
    ensures
        shown(text, tm_year, year_id, name) == Err::<MonthView, Failure>(Failure::Corrupted) <==> (
        text.len() > 0 && History::decoded(text).is_err()),
        shown(text, tm_year, year_id, name) == Err::<MonthView, Failure>(Failure::NoSuchYear)
            <==> (match loaded(text, tm_year) {
            Ok(h) => year_position(h.years, year_id).is_none(),
            Err(_) => false,
        }),
        shown(text, tm_year, year_id, name) == Err::<MonthView, Failure>(Failure::NoSuchMonth)
            <==> (match loaded(text, tm_year) {
            Ok(h) => match year_position(h.years, year_id) {
                Some(i) => month_position(h.years[i].months, name).is_none(),
                None => false,
            },
            Err(_) => false,
        }),
{
}

} // verus!
