//! The record model: months, years and the history that owns them.
//!
//! Each type has a view, a plain mathematical value that the contracts speak
//! of. The containers only append; replacing by key is the business of
//! [`crate::upsert`].

use vstd::prelude::*;

verus! {

/// What a [`Month`] holds.
pub ghost struct MonthView {
    pub name: Seq<char>,
    pub income: u32,
    pub expenses: u16,
    pub investments: u32,
}

/// What a [`Year`] holds: its number and its months, in order.
pub ghost struct YearView {
    pub id: u16,
    pub months: Seq<MonthView>,
}

/// What a [`History`] holds: its years, in order.
pub ghost struct HistoryView {
    pub years: Seq<YearView>,
}

/// One month's financial snapshot. The label is free text; the figures are
/// taken as given.
#[derive(Debug)]
pub struct Month {
    name: String,
    income: u32,
    expenses: u16,
    investments: u32,
}

/// A year's worth of months.
#[derive(Debug)]
pub struct Year {
    id: u16,
    months: Vec<Month>,
}

/// The complete record: a sequence of years.
#[derive(Debug)]
pub struct History {
    years: Vec<Year>,
}

/// The views of a run of months, one for one.
pub open spec fn month_views(months: Seq<Month>) -> Seq<MonthView> {
    months.map_values(|m: Month| m@)
}

/// The views of a run of years, one for one.
pub open spec fn year_views(years: Seq<Year>) -> Seq<YearView> {
    years.map_values(|y: Year| y@)
}

impl View for Month {
    type V = MonthView;

    closed spec fn view(&self) -> MonthView {
        MonthView {
            name: self.name@,
            income: self.income,
            expenses: self.expenses,
            investments: self.investments,
        }
    }
}

impl View for Year {
    type V = YearView;

    closed spec fn view(&self) -> YearView {
        YearView { id: self.id, months: month_views(self.months@) }
    }
}

impl View for History {
    type V = HistoryView;

    closed spec fn view(&self) -> HistoryView {
        HistoryView { years: year_views(self.years@) }
    }
}

/// Two months are equal where their labels and their figures are.
impl PartialEq for Month {
    fn eq(&self, other: &Month) -> (r: bool) {
        self.name == other.name && self.income == other.income && self.expenses
            == other.expenses && self.investments == other.investments
    }
}

impl Eq for Month {

}

impl vstd::std_specs::cmp::PartialEqSpecImpl for Month {
    open spec fn obeys_eq_spec() -> bool {
        true
    }

    open spec fn eq_spec(&self, other: &Month) -> bool {
        self@ == other@
    }
}

/// Whether the two runs hold equal months in the same order.
fn same_months(a: &Vec<Month>, b: &Vec<Month>) -> (r: bool)
    ensures
        r == (month_views(a@) == month_views(b@)),
{
    if a.len() != b.len() {
        return false;
    }
    let mut i: usize = 0;
    while i < a.len()
        invariant
            i <= a.len(),
            a.len() == b.len(),
            forall|j: int| 0 <= j < i ==> a@[j]@ == b@[j]@,
        decreases a.len() - i,
    {
        if a[i] != b[i] {
            assert(month_views(a@)[i as int] != month_views(b@)[i as int]);
            return false;
        }
        i += 1;
    }
    assert(month_views(a@) =~= month_views(b@));
    true
}

/// Two years are equal where their numbers are and they hold equal months
/// in the same order.
impl PartialEq for Year {
    fn eq(&self, other: &Year) -> (r: bool) {
        self.id == other.id && same_months(&self.months, &other.months)
    }
}

impl Eq for Year {

}

impl vstd::std_specs::cmp::PartialEqSpecImpl for Year {
    open spec fn obeys_eq_spec() -> bool {
        true
    }

    open spec fn eq_spec(&self, other: &Year) -> bool {
        self@ == other@
    }
}

/// Whether the two runs hold equal years in the same order.
fn same_years(a: &Vec<Year>, b: &Vec<Year>) -> (r: bool)
    ensures
        r == (year_views(a@) == year_views(b@)),
{
    if a.len() != b.len() {
        return false;
    }
    let mut i: usize = 0;
    while i < a.len()
        invariant
            i <= a.len(),
            a.len() == b.len(),
            forall|j: int| 0 <= j < i ==> a@[j]@ == b@[j]@,
        decreases a.len() - i,
    {
        if a[i] != b[i] {
            assert(year_views(a@)[i as int] != year_views(b@)[i as int]);
            return false;
        }
        i += 1;
    }
    assert(year_views(a@) =~= year_views(b@));
    true
}

/// Two histories are equal where they hold equal years in the same order.
impl PartialEq for History {
    fn eq(&self, other: &History) -> (r: bool) {
        same_years(&self.years, &other.years)
    }
}

impl Eq for History {

}

impl vstd::std_specs::cmp::PartialEqSpecImpl for History {
    open spec fn obeys_eq_spec() -> bool {
        true
    }

    open spec fn eq_spec(&self, other: &History) -> bool {
        self@ == other@
    }
}

impl Month {
    /// A month with the given label and figures. Nothing is validated.
    pub fn new(name: String, inc: u32, exp: u16, inv: u32) -> (m: Month)
        ensures
            m@ == (MonthView { name: name@, income: inc, expenses: exp, investments: inv }),
    {
        Month { name: name, income: inc, expenses: exp, investments: inv }
    }

    /// The label.
    pub fn name(&self) -> (r: &String)
        ensures
            r@ == self@.name,
    {
        &self.name
    }

    /// What came in.
    pub fn income(&self) -> (r: u32)
        ensures
            r == self@.income,
    {
        self.income
    }

    /// What went out.
    pub fn expenses(&self) -> (r: u16)
        ensures
            r == self@.expenses,
    {
        self.expenses
    }

    /// The investment balance at the end of the month.
    pub fn investments(&self) -> (r: u32)
        ensures
            r == self@.investments,
    {
        self.investments
    }
}

impl Year {
    /// An empty year with the given number.
    pub fn new(year: u16) -> (y: Year)
        ensures
            y@ == (YearView { id: year, months: Seq::empty() }),
    {
        let y = Year { id: year, months: Vec::new() };
        assert(y@.months =~= Seq::empty());
        y
    }

    /// A year with the given number and months.
    pub(crate) fn from_months(year: u16, months: Vec<Month>) -> (y: Year)
        ensures
            y@ == (YearView { id: year, months: month_views(months@) }),
    {
        Year { id: year, months: months }
    }

    /// Appends a month, whatever the year already holds.
    pub fn add_month(&mut self, m: Month)
        ensures
            final(self)@ == (YearView { id: old(self)@.id, months: old(self)@.months.push(m@) }),
    {
        self.months.push(m);
        assert(month_views(self.months@) =~= month_views(old(self).months@).push(m@));
    }

    /// The year's number.
    pub fn id(&self) -> (r: u16)
        ensures
            r == self@.id,
    {
        self.id
    }

    /// The months, in order.
    pub fn months(&self) -> (r: &Vec<Month>)
        ensures
            month_views(r@) == self@.months,
    {
        &self.months
    }

    /// Puts `m` in the place of the month at `idx`.
    pub(crate) fn replace_month(&mut self, idx: usize, m: Month)
        requires
            idx < old(self)@.months.len(),
        ensures
            final(self)@ == (YearView {
                id: old(self)@.id,
                months: old(self)@.months.update(idx as int, m@),
            }),
    {
        self.months[idx] = m;
        assert(month_views(self.months@) =~= month_views(old(self).months@).update(
            idx as int,
            m@,
        ));
    }
}

impl History {
    /// The empty history.
    pub fn new() -> (h: History)
        ensures
            h@ == (HistoryView { years: Seq::empty() }),
    {
        let h = History { years: Vec::new() };
        assert(h@.years =~= Seq::empty());
        h
    }

    /// A history of the given years.
    pub(crate) fn from_years(years: Vec<Year>) -> (h: History)
        ensures
            h@ == (HistoryView { years: year_views(years@) }),
    {
        History { years: years }
    }

    /// Appends a year, whatever the history already holds.
    pub fn add_year(&mut self, y: Year)
        ensures
            final(self)@ == (HistoryView { years: old(self)@.years.push(y@) }),
    {
        self.years.push(y);
        assert(year_views(self.years@) =~= year_views(old(self).years@).push(y@));
    }

    /// The years, in order.
    pub fn years(&self) -> (r: &Vec<Year>)
        ensures
            year_views(r@) == self@.years,
    {
        &self.years
    }

    /// Takes the year at `idx` out; the others keep their order.
    pub(crate) fn take_year(&mut self, idx: usize) -> (y: Year)
        requires
            idx < old(self)@.years.len(),
        ensures
            y@ == old(self)@.years[idx as int],
            final(self)@ == (HistoryView { years: old(self)@.years.remove(idx as int) }),
    {
        let y = self.years.remove(idx);
        assert(year_views(self.years@) =~= year_views(old(self).years@).remove(idx as int));
        y
    }
}

} // verus!
