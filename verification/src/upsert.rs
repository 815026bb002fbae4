//! Insert-or-replace by key: by number for years, by name for months.
//!
//! The containers of [`crate::record`] only append. Here a month that is
//! added under a name the year already holds takes the place of the old one,
//! and a year that is updated moves to the end of the history.

use vstd::prelude::*;
use crate::error::Failure;
use crate::record::{History, HistoryView, Month, MonthView, Year, YearView, month_views, year_views};

verus! {

/// Where the first year numbered `id` stands, if there is one.
pub open spec fn year_position(years: Seq<YearView>, id: u16) -> Option<int>
    decreases years.len(),
{
    if years.len() == 0 {
        None
    } else {
        match year_position(years.drop_last(), id) {
            Some(i) => Some(i),
            None => if years.last().id == id {
                Some(years.len() - 1)
            } else {
                None
            },
        }
    }
}

/// Where the first month named `name` stands, if there is one.
pub open spec fn month_position(months: Seq<MonthView>, name: Seq<char>) -> Option<int>
    decreases months.len(),
{
    if months.len() == 0 {
        None
    } else {
        match month_position(months.drop_last(), name) {
            Some(i) => Some(i),
            None => if months.last().name == name {
                Some(months.len() - 1)
            } else {
                None
            },
        }
    }
}

/// The months after `m` was added: in the place of the first month of its
/// name, or at the end where there is none.
pub open spec fn with_month(months: Seq<MonthView>, m: MonthView) -> Seq<MonthView> {
    match month_position(months, m.name) {
        Some(i) => months.update(i, m),
        None => months.push(m),
    }
}

/// The history after `m` was added to year `id`: the first year of that
/// number leaves its place, takes the month and goes to the end; where there
/// is none, a new year holding only `m` is appended.
pub open spec fn upserted(h: HistoryView, id: u16, m: MonthView) -> HistoryView {
    match year_position(h.years, id) {
        Some(i) => HistoryView {
            years: h.years.remove(i).push(
                YearView { id: id, months: with_month(h.years[i].months, m) },
            ),
        },
        None => HistoryView { years: h.years.push(YearView { id: id, months: seq![m] }) },
    }
}

/// The month named `name` in year `id`: the first such month of the first
/// such year.
pub open spec fn found_month(h: HistoryView, id: u16, name: Seq<char>) -> Result<MonthView, Failure> {
    match year_position(h.years, id) {
        None => Err(Failure::NoSuchYear),
        Some(i) => match month_position(h.years[i].months, name) {
            None => Err(Failure::NoSuchMonth),
            Some(j) => Ok(h.years[i].months[j]),
        },
    }
}

/// `year_position` gives the least index of a year with that number, and
/// `None` exactly where no year has it.
pub proof fn lemma_year_position(years: Seq<YearView>, id: u16)
    ensures
        match year_position(years, id) {
            Some(i) => {
                &&& 0 <= i < years.len()
                &&& years[i].id == id
                &&& forall|j: int| 0 <= j < i ==> years[j].id != id
            },
            None => forall|j: int| 0 <= j < years.len() ==> years[j].id != id,
        },
    decreases years.len(),
{
    if years.len() > 0 {
        let front = years.drop_last();
        lemma_year_position(front, id);
        assert forall|j: int| 0 <= j < front.len() implies front[j] == years[j] by {}
    }
}

/// `month_position` gives the least index of a month with that name, and
/// `None` exactly where no month has it.
pub proof fn lemma_month_position(months: Seq<MonthView>, name: Seq<char>)
    ensures
        match month_position(months, name) {
            Some(i) => {
                &&& 0 <= i < months.len()
                &&& months[i].name == name
                &&& forall|j: int| 0 <= j < i ==> months[j].name != name
            },
            None => forall|j: int| 0 <= j < months.len() ==> months[j].name != name,
        },
    decreases months.len(),
{
    if months.len() > 0 {
        let front = months.drop_last();
        lemma_month_position(front, name);
        assert forall|j: int| 0 <= j < front.len() implies front[j] == months[j] by {}
    }
}

/// An index that holds the number and has none before it is the position.
pub proof fn lemma_year_position_is(years: Seq<YearView>, id: u16, i: int)
    requires
        0 <= i < years.len(),
        years[i].id == id,
        forall|j: int| 0 <= j < i ==> years[j].id != id,
    ensures
        year_position(years, id) == Some(i),
{
    lemma_year_position(years, id);
}

/// An index that holds the name and has none before it is the position.
pub proof fn lemma_month_position_is(months: Seq<MonthView>, name: Seq<char>, i: int)
    requires
        0 <= i < months.len(),
        months[i].name == name,
        forall|j: int| 0 <= j < i ==> months[j].name != name,
    ensures
        month_position(months, name) == Some(i),
{
    lemma_month_position(months, name);
}

/// The months of year `id`: those of the first year of that number, none
/// where the history has no such year.
pub open spec fn months_of(h: HistoryView, id: u16) -> Seq<MonthView> {
    match year_position(h.years, id) {
        Some(i) => h.years[i].months,
        None => Seq::empty(),
    }
}

/// No two years bear the number `id`.
pub open spec fn at_most_one_year(years: Seq<YearView>, id: u16) -> bool {
    forall|i: int, j: int|
        0 <= i < years.len() && 0 <= j < years.len() && years[i].id == id && years[j].id == id
            ==> i == j
}

/// No two months bear the name `name`.
pub open spec fn at_most_one_month(months: Seq<MonthView>, name: Seq<char>) -> bool {
    forall|i: int, j: int|
        0 <= i < months.len() && 0 <= j < months.len() && months[i].name == name
            && months[j].name == name ==> i == j
}

/// `m` is among the months, and no other month bears its name.
pub open spec fn holds_once(months: Seq<MonthView>, m: MonthView) -> bool {
    match month_position(months, m.name) {
        Some(p) => {
            &&& months[p] == m
            &&& forall|j: int| 0 <= j < months.len() && j != p ==> months[j].name != m.name
        },
        None => false,
    }
}

/// Every year has a number of its own, and within each year every month a
/// name of its own.
pub open spec fn keys_unique(h: HistoryView) -> bool {
    &&& forall|i: int| 0 <= i < h.years.len() ==> at_most_one_year(h.years, #[trigger] h.years[i].id)
    &&& forall|i: int, j: int|
        0 <= i < h.years.len() && 0 <= j < h.years[i].months.len() ==> at_most_one_month(
            h.years[i].months,
            #[trigger] h.years[i].months[j].name,
        )
}

/// After `m` was added it stands where `with_month` put it: at the place of
/// the first month of its name, or at the end.
pub proof fn lemma_with_month_position(months: Seq<MonthView>, m: MonthView)
    ensures
        with_month(months, m).len() == match month_position(months, m.name) {
            Some(p) => months.len(),
            None => months.len() + 1,
        },
        month_position(with_month(months, m), m.name) == match month_position(months, m.name) {
            Some(p) => Some(p),
            None => Some(months.len() as int),
        },
        forall|j: int|
            0 <= j < months.len() && month_position(months, m.name) != Some(j)
                ==> with_month(months, m)[j] == months[j],
        match month_position(with_month(months, m), m.name) {
            Some(p) => with_month(months, m)[p] == m,
            None => false,
        },
{
    lemma_month_position(months, m.name);
    let after = with_month(months, m);
    match month_position(months, m.name) {
        Some(p) => {
            lemma_month_position_is(after, m.name, p);
        },
        None => {
            lemma_month_position_is(after, m.name, months.len() as int);
        },
    }
}

/// The first year numbered `id`, once moved to the end, is found there,
/// provided that no other year bears the number.
proof fn lemma_moved_year_is_last(years: Seq<YearView>, id: u16, y: YearView)
    requires
        at_most_one_year(years, id),
        y.id == id,
    ensures
        match year_position(years, id) {
            Some(i) => year_position(years.remove(i).push(y), id) == Some(years.len() - 1),
            None => year_position(years.push(y), id) == Some(years.len() as int),
        },
{
    lemma_year_position(years, id);
    match year_position(years, id) {
        Some(i) => {
            let moved = years.remove(i).push(y);
            assert forall|j: int| 0 <= j < moved.len() - 1 implies moved[j].id != id by {}
            lemma_year_position_is(moved, id, years.len() - 1);
        },
        None => {
            lemma_year_position_is(years.push(y), id, years.len() as int);
        },
    }
}

/// Last write wins. A month added to year `id` under the name of the month
/// added just before it takes that month's place: the history is the one
/// that the second month alone would have given, and the year holds it. This
/// is stated of histories in which no other year bears the number.
pub proof fn lemma_readd_replaces(h: HistoryView, id: u16, first: MonthView, second: MonthView)
    requires
        first.name == second.name,
        at_most_one_year(h.years, id),
    ensures
        upserted(upserted(h, id, first), id, second) == upserted(h, id, second),
        found_month(upserted(upserted(h, id, first), id, second), id, second.name) == Ok::<
            MonthView,
            Failure,
        >(second),
        months_of(upserted(upserted(h, id, first), id, second), id).len() == months_of(
            upserted(h, id, first),
            id,
        ).len(),
{
    let base = months_of(h, id);
    let once = YearView { id: id, months: with_month(base, first) };
    let twice = YearView { id: id, months: with_month(with_month(base, first), second) };
    let direct = YearView { id: id, months: with_month(base, second) };
    lemma_year_position(h.years, id);
    lemma_with_month_position(base, first);
    lemma_with_month_position(base, second);
    assert(twice.months =~= direct.months) by {
        lemma_month_position(base, first.name);
    }
    lemma_moved_year_is_last(h.years, id, once);
    lemma_moved_year_is_last(h.years, id, direct);
    let h1 = upserted(h, id, first);
    match year_position(h.years, id) {
        Some(i) => {
            assert(h1.years.remove(h.years.len() - 1) =~= h.years.remove(i));
        },
        None => {
            assert(h1.years.remove(h.years.len() as int) =~= h.years);
        },
    }
}

/// Exactly one. Where the year held at most one month of the name before,
/// it holds exactly one after a month of that name was added twice: the
/// second.
pub proof fn lemma_readd_holds_once(h: HistoryView, id: u16, first: MonthView, second: MonthView)
    requires
        first.name == second.name,
        at_most_one_year(h.years, id),
        at_most_one_month(months_of(h, id), first.name),
    ensures
        holds_once(months_of(upserted(upserted(h, id, first), id, second), id), second),
{
    lemma_readd_replaces(h, id, first, second);
    lemma_year_position(h.years, id);
    let base = months_of(h, id);
    let direct = YearView { id: id, months: with_month(base, second) };
    lemma_moved_year_is_last(h.years, id, direct);
    lemma_with_month_position(base, second);
    lemma_month_position(base, second.name);
}

/// Accumulation. Two months of different names, added one after the other
/// to a year that holds neither name, both stand at its end, in the order in
/// which they came; a year that was empty or absent then holds exactly these
/// two. This is stated of histories in which no other year bears the number.
pub proof fn lemma_two_names_accumulate(
    h: HistoryView,
    id: u16,
    first: MonthView,
    second: MonthView,
)
    requires
        first.name != second.name,
        at_most_one_year(h.years, id),
        month_position(months_of(h, id), first.name).is_none(),
        month_position(months_of(h, id), second.name).is_none(),
    ensures
        months_of(upserted(upserted(h, id, first), id, second), id) == months_of(h, id).push(
            first,
        ).push(second),
        months_of(h, id).len() == 0 ==> months_of(
            upserted(upserted(h, id, first), id, second),
            id,
        ).len() == 2,
{
    let base = months_of(h, id);
    let once = YearView { id: id, months: base.push(first) };
    let twice = YearView { id: id, months: base.push(first).push(second) };
    lemma_year_position(h.years, id);
    assert(month_position(base.push(first), second.name).is_none()) by {
        assert(base.push(first).drop_last() =~= base);
    }
    lemma_moved_year_is_last(h.years, id, once);
    lemma_moved_year_is_last(h.years, id, twice);
    let h1 = upserted(h, id, first);
    match year_position(h.years, id) {
        Some(i) => {
            assert(h1.years.remove(h.years.len() - 1) =~= h.years.remove(i));
        },
        None => {
            assert(h1.years.remove(h.years.len() as int) =~= h.years);
        },
    }
}

/// Year partitioning. Months added to two years of different numbers, in a
/// history that holds neither, give two new years at its end, each with the
/// one month that was added to it; from the empty history these are the only
/// years.
pub proof fn lemma_years_partition(
    h: HistoryView,
    id1: u16,
    m1: MonthView,
    id2: u16,
    m2: MonthView,
)
    requires
        id1 != id2,
        year_position(h.years, id1).is_none(),
        year_position(h.years, id2).is_none(),
    ensures
        upserted(upserted(h, id1, m1), id2, m2).years == h.years.push(
            YearView { id: id1, months: seq![m1] },
        ).push(YearView { id: id2, months: seq![m2] }),
        h.years.len() == 0 ==> {
            let after = upserted(upserted(h, id1, m1), id2, m2);
            &&& after.years.len() == 2
            &&& after.years[0].months.len() == 1
            &&& after.years[1].months.len() == 1
        },
{
    assert(upserted(h, id1, m1).years.drop_last() =~= h.years);
}

/// The engine keeps the keys unique: in a history where every year has a
/// number of its own and every month of a year a name of its own, this is
/// still so after a month was added.
pub proof fn lemma_upsert_keeps_keys_unique(h: HistoryView, id: u16, m: MonthView)
    requires
        keys_unique(h),
    ensures
        keys_unique(upserted(h, id, m)),
{
    let after = upserted(h, id, m);
    lemma_year_position(h.years, id);
    lemma_month_position(months_of(h, id), m.name);
    let n = after.years.len() - 1;
    // Each year of the result but the last is a year of `h` with another number.
    let origin = |k: int|
        match year_position(h.years, id) {
            Some(i) => if k < i {
                k
            } else {
                k + 1
            },
            None => k,
        };
    assert forall|k: int| 0 <= k < n implies {
        &&& 0 <= origin(k) < h.years.len()
        &&& after.years[k] == h.years[origin(k)]
        &&& after.years[k].id != id
    } by {}
    assert forall|a: int| 0 <= a < after.years.len() implies at_most_one_year(
        after.years,
        #[trigger] after.years[a].id,
    ) by {}
    assert forall|a: int, b: int|
        0 <= a < after.years.len() && 0 <= b < after.years[a].months.len() implies at_most_one_month(
        after.years[a].months,
        #[trigger] after.years[a].months[b].name,
    ) by {}
}

impl Year {
    /// The index of the first month named `name`.
    pub fn position_of_month(&self, name: &String) -> (r: Option<usize>)
        ensures
            match r {
                Some(i) => month_position(self@.months, name@) == Some(i as int),
                None => month_position(self@.months, name@).is_none(),
            },
    {
        let months = self.months();
        let mut i: usize = 0;
        while i < months.len()
            invariant
                i <= months.len(),
                month_views(months@) == self@.months,
                forall|j: int| 0 <= j < i ==> self@.months[j].name != name@,
            decreases months.len() - i,
        {
            if *months[i].name() == *name {
                proof {
                    lemma_month_position_is(self@.months, name@, i as int);
                }
                return Some(i);
            }
            i += 1;
        }
        proof {
            lemma_month_position(self@.months, name@);
        }
        None
    }

    /// Adds `m`, in the place of the first month of the same name where the
    /// year holds one, at the end where it does not.
    pub fn upsert_month(&mut self, m: Month)
        ensures
            final(self)@ == (YearView {
                id: old(self)@.id,
                months: with_month(old(self)@.months, m@),
            }),
    {
        match self.position_of_month(m.name()) {
            Some(i) => {
                proof {
                    lemma_month_position(self@.months, m@.name);
                }
                self.replace_month(i, m);
            },
            None => {
                self.add_month(m);
            },
        }
    }
}

impl History {
    /// The index of the first year numbered `id`.
    pub fn position_of_year(&self, id: u16) -> (r: Option<usize>)
        ensures
            match r {
                Some(i) => year_position(self@.years, id) == Some(i as int),
                None => year_position(self@.years, id).is_none(),
            },
    {
        let years = self.years();
        let mut i: usize = 0;
        while i < years.len()
            invariant
                i <= years.len(),
                year_views(years@) == self@.years,
                forall|j: int| 0 <= j < i ==> self@.years[j].id != id,
            decreases years.len() - i,
        {
            if years[i].id() == id {
                proof {
                    lemma_year_position_is(self@.years, id, i as int);
                }
                return Some(i);
            }
            i += 1;
        }
        proof {
            lemma_year_position(self@.years, id);
        }
        None
    }

    /// Adds `m` to year `year_id`. The first year of that number is taken
    /// out of its place and goes to the end with the month added; where the
    /// history has none, a new year is appended.
    pub fn upsert_month(&mut self, year_id: u16, m: Month)
        ensures
            final(self)@ == upserted(old(self)@, year_id, m@),
    {
        let mut y = match self.position_of_year(year_id) {
            Some(idx) => {
                proof {
                    lemma_year_position(self@.years, year_id);
                }
                self.take_year(idx)
            },
            None => Year::new(year_id),
        };
        y.upsert_month(m);
        self.add_year(y);
    }

    /// The month named `name` of year `year_id`.
    pub fn find_month(&self, year_id: u16, name: &str) -> (r: Result<&Month, Failure>)
        ensures
            match r {
                Ok(m) => found_month(self@, year_id, name@) == Ok::<MonthView, Failure>(m@),
                Err(e) => found_month(self@, year_id, name@) == Err::<MonthView, Failure>(e),
            },
    {
        let wanted = name.to_owned();
        match self.position_of_year(year_id) {
            None => Err(Failure::NoSuchYear),
            Some(i) => {
                proof {
                    lemma_year_position(self@.years, year_id);
                }
                let year = &self.years()[i];
                match year.position_of_month(&wanted) {
                    None => Err(Failure::NoSuchMonth),
                    Some(j) => {
                        proof {
                            lemma_month_position(year@.months, name@);
                        }
                        Ok(&year.months()[j])
                    },
                }
            },
        }
    }
}

} // verus!
