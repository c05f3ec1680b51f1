//! Calendar dates as day numbers and the weekday arithmetic on them.
//!
//! A date is held as chrono's count of days from the common era
//! (`Datelike::num_days_from_ce`): January 1 of year 1 is day 1, a Monday.
//! The library keeps dates within the years 1 to 9999, whose ISO text has a
//! four-digit year.
use vstd::prelude::*;

verus! {

/// Day number of January 1 of year 1.
pub const MIN_DAY: i32 = 1;

/// Day number of December 31 of year 9999.
pub const MAX_DAY: i32 = 3652059;

/// A day of the week, Monday first.
#[derive(Clone, Copy, Debug, PartialEq, Eq, Structural)]
pub enum Weekday {
    Mon,
    Tue,
    Wed,
    Thu,
    Fri,
    Sat,
    Sun,
}

impl Weekday {
    /// Position in the week, Monday being 0.
    pub open spec fn index(self) -> int {
        match self {
            Weekday::Mon => 0,
            Weekday::Tue => 1,
            Weekday::Wed => 2,
            Weekday::Thu => 3,
            Weekday::Fri => 4,
            Weekday::Sat => 5,
            Weekday::Sun => 6,
        }
    }

    pub open spec fn from_index(i: int) -> Weekday {
        if i == 0 {
            Weekday::Mon
        } else if i == 1 {
            Weekday::Tue
        } else if i == 2 {
            Weekday::Wed
        } else if i == 3 {
            Weekday::Thu
        } else if i == 4 {
            Weekday::Fri
        } else if i == 5 {
            Weekday::Sat
        } else {
            Weekday::Sun
        }
    }

    /// The three-letter English name.
    pub open spec fn short_name(self) -> Seq<char> {
        match self {
            Weekday::Mon => "Mon"@,
            Weekday::Tue => "Tue"@,
            Weekday::Wed => "Wed"@,
            Weekday::Thu => "Thu"@,
            Weekday::Fri => "Fri"@,
            Weekday::Sat => "Sat"@,
            Weekday::Sun => "Sun"@,
        }
    }

    /// The full English name.
    pub open spec fn long_name(self) -> Seq<char> {
        match self {
            Weekday::Mon => "Monday"@,
            Weekday::Tue => "Tuesday"@,
            Weekday::Wed => "Wednesday"@,
            Weekday::Thu => "Thursday"@,
            Weekday::Fri => "Friday"@,
            Weekday::Sat => "Saturday"@,
            Weekday::Sun => "Sunday"@,
        }
    }

    pub fn from_monday_index(i: u32) -> (r: Weekday)
        requires
            i < 7,
        ensures
            r == Weekday::from_index(i as int),
            r.index() == i,
    {
        match i {
            0 => Weekday::Mon,
            1 => Weekday::Tue,
            2 => Weekday::Wed,
            3 => Weekday::Thu,
            4 => Weekday::Fri,
            5 => Weekday::Sat,
            _ => Weekday::Sun,
        }
    }
}

/// The weekday of a day number; day 1 is a Monday.
pub open spec fn weekday_of(day: int) -> Weekday {
    Weekday::from_index((day - 1) % 7)
}

/// A calendar date, as a day number of the common era.
#[derive(Clone, Copy, Debug, PartialEq, Eq, Structural)]
pub struct Date {
    pub days: i32,
}

impl Date {
    /// The date lies within the years 1 to 9999.
    pub open spec fn wf(self) -> bool {
        MIN_DAY <= self.days <= MAX_DAY
    }

    pub fn from_days(days: i32) -> (r: Option<Date>)
        ensures
            r == (if MIN_DAY <= days <= MAX_DAY {
                Some(Date { days })
            } else {
                None::<Date>
            }),
    {
        if MIN_DAY <= days && days <= MAX_DAY {
            Some(Date { days })
        } else {
            None
        }
    }

    pub fn weekday(&self) -> (r: Weekday)
        requires
            self.wf(),
        ensures
            r == weekday_of(self.days as int),
    {
        Weekday::from_monday_index(((self.days - 1) % 7) as u32)
    }
}

/// The day numbers within `[lo, hi]` whose weekday is in `dow`, ascending.
pub open spec fn effective_days(lo: int, hi: int, dow: Seq<Weekday>) -> Seq<int>
    decreases hi - lo + 1,
{
    if hi < lo {
        Seq::empty()
    } else {
        let prefix = effective_days(lo, hi - 1, dow);
        if dow.contains(weekday_of(hi)) {
            prefix.push(hi)
        } else {
            prefix
        }
    }
}

/// The day numbers of a sequence of dates.
pub open spec fn days_of(dates: Seq<Date>) -> Seq<int> {
    dates.map_values(|d: Date| d.days as int)
}

/// The effective days are ascending, lie within the range, fall on a
/// listed weekday, and hold every such day; there are none when no weekday
/// is listed or the range is empty.
pub proof fn lemma_effective_days(lo: int, hi: int, dow: Seq<Weekday>)
    ensures
        forall|i: int, j: int|
            0 <= i < j < effective_days(lo, hi, dow).len() ==> effective_days(lo, hi, dow)[i]
                < effective_days(lo, hi, dow)[j],
        forall|i: int|
            0 <= i < effective_days(lo, hi, dow).len() ==> lo <= #[trigger] effective_days(
                lo,
                hi,
                dow,
            )[i] <= hi && dow.contains(weekday_of(effective_days(lo, hi, dow)[i])),
        forall|d: int|
            lo <= d <= hi && dow.contains(weekday_of(d)) ==> #[trigger] effective_days(
                lo,
                hi,
                dow,
            ).contains(d),
        (dow.len() == 0 || hi < lo) ==> effective_days(lo, hi, dow).len() == 0,
    decreases hi - lo + 1,
{
    if hi >= lo {
        lemma_effective_days(lo, hi - 1, dow);
        let prefix = effective_days(lo, hi - 1, dow);
        let all = effective_days(lo, hi, dow);
        assert forall|d: int| lo <= d <= hi && dow.contains(weekday_of(d)) implies #[trigger] all.contains(d) by {
            if d < hi {
                assert(prefix.contains(d));
                let k = choose|k: int| 0 <= k < prefix.len() && prefix[k] == d;
                assert(all[k] == d);
            } else {
                assert(all[all.len() - 1] == d);
            }
        }
        if dow.len() == 0 {
            assert(!dow.contains(weekday_of(hi)));
        }
    }
}

/// Extending the range never loses an effective day.
pub proof fn lemma_effective_days_grow(lo: int, h1: int, h2: int, dow: Seq<Weekday>)
    requires
        h1 <= h2,
    ensures
        effective_days(lo, h1, dow).len() <= effective_days(lo, h2, dow).len(),
    decreases h2 - h1,
{
    if h1 < h2 {
        lemma_effective_days_grow(lo, h1, h2 - 1, dow);
    }
}

/// Whether `w` is listed in `dow`.
pub fn contains_weekday(dow: &Vec<Weekday>, w: Weekday) -> (r: bool)
    ensures
        r == dow@.contains(w),
{
    let mut i: usize = 0;
    while i < dow.len()
        invariant
            0 <= i <= dow.len(),
            forall|k: int| 0 <= k < i ==> dow@[k] != w,
        decreases dow.len() - i,
    {
        if dow[i] == w {
            return true;
        }
        i = i + 1;
    }
    false
}

/// All dates of `[start, end]` whose weekday is in `effective_dow`, in
/// chronological order.
pub fn generate_date_range(start: Date, end: Date, effective_dow: Vec<Weekday>) -> (r: Vec<Date>)
    requires
        start.wf(),
        end.wf(),
    ensures
        days_of(r@) == effective_days(start.days as int, end.days as int, effective_dow@),
        forall|i: int| 0 <= i < r.len() ==> (#[trigger] r@[i]).wf(),
        forall|i: int, j: int| 0 <= i < j < r.len() ==> r@[i].days < r@[j].days,
        forall|i: int|
            0 <= i < r.len() ==> start.days <= (#[trigger] r@[i]).days <= end.days
                && effective_dow@.contains(weekday_of(r@[i].days as int)),
        forall|d: int|
            start.days <= d <= end.days && effective_dow@.contains(weekday_of(d))
                ==> #[trigger] days_of(r@).contains(d),
        (effective_dow.len() == 0 || end.days < start.days) ==> r.len() == 0,
{
    let mut dates: Vec<Date> = Vec::new();
    let mut current: i32 = start.days;
    if end.days < start.days {
        current = end.days + 1;
    }
    while current <= end.days
        invariant
            start.wf(),
            end.wf(),
            start.days <= current <= end.days + 1 || (current == end.days + 1 && end.days
                < start.days),
            days_of(dates@) == effective_days(start.days as int, current - 1, effective_dow@),
        decreases end.days + 1 - current,
    {
        let d = Date { days: current };
        if contains_weekday(&effective_dow, d.weekday()) {
            let ghost before = dates@;
            dates.push(d);
            proof {
                assert(days_of(dates@) =~= days_of(before).push(current as int));
            }
        }
        current = current + 1;
    }
    proof {
        if end.days < start.days {
            assert(effective_days(start.days as int, current - 1, effective_dow@)
                == effective_days(start.days as int, end.days as int, effective_dow@));
        }
        lemma_effective_days(start.days as int, end.days as int, effective_dow@);
        let ds = days_of(dates@);
        assert forall|i: int| 0 <= i < dates.len() implies (#[trigger] dates@[i]).wf() by {
            assert(ds[i] == dates@[i].days);
        }
        assert forall|i: int, j: int| 0 <= i < j < dates.len() implies dates@[i].days
            < dates@[j].days by {
            assert(ds[i] == dates@[i].days && ds[j] == dates@[j].days);
        }
        assert forall|i: int| 0 <= i < dates.len() implies start.days <= (
        #[trigger] dates@[i]).days <= end.days && effective_dow@.contains(
            weekday_of(dates@[i].days as int),
        ) by {
            assert(ds[i] == dates@[i].days);
        }
    }
    dates
}

/// The date on which the `n_tasks`-th effective day falls, counting from
/// `start_date` inclusive. With no tasks it is `start_date` itself; with no
/// effective weekday, or where that day would lie past year 9999, there is none.
pub fn calculate_completion_date(n_tasks: usize, start_date: Date, effective_dow: Vec<Weekday>) -> (r:
    Option<Date>)
    requires
        start_date.wf(),
    ensures
        n_tasks == 0 ==> r == Some(start_date),
        n_tasks > 0 ==> (r is None <==> (effective_dow.len() == 0 || effective_days(
            start_date.days as int,
            MAX_DAY as int,
            effective_dow@,
        ).len() < n_tasks)),
        n_tasks > 0 && r is Some ==> {
            let d = r->0.days as int;
            &&& r->0.wf()
            &&& start_date.days <= d
            &&& effective_dow@.contains(weekday_of(d))
            &&& effective_days(start_date.days as int, d, effective_dow@).len() == n_tasks
        },
{
    if n_tasks == 0 {
        return Some(start_date);
    }
    if effective_dow.len() == 0 {
        proof {
            lemma_effective_days(start_date.days as int, MAX_DAY as int, effective_dow@);
        }
        return None;
    }
    let mut current: i32 = start_date.days;
    let mut count: usize = 0;
    while current <= MAX_DAY
        invariant
            start_date.wf(),
            start_date.days <= current <= MAX_DAY + 1,
            count < n_tasks,
            count == effective_days(start_date.days as int, current - 1, effective_dow@).len(),
        decreases MAX_DAY + 1 - current,
    {
        let d = Date { days: current };
        if contains_weekday(&effective_dow, d.weekday()) {
            count = count + 1;
            if count == n_tasks {
                proof {
                    lemma_effective_days_grow(
                        start_date.days as int,
                        current as int,
                        MAX_DAY as int,
                        effective_dow@,
                    );
                }
                return Some(d);
            }
        }
        current = current + 1;
    }
    None
}

/// The ISO text `YYYY-MM-DD` that chrono writes for a day number.
pub uninterp spec fn iso_date_text(day: int) -> Seq<char>;

/// Relies on chrono's `NaiveDate::from_num_days_from_ce_opt`, which is defined
/// on every day of the years 1 to 9999, and on `NaiveDate`'s `Display`, which
/// writes such a date as `YYYY-MM-DD`.
#[verifier::external_body]
fn date_text(days: i32) -> (r: String)
    requires
        MIN_DAY <= days <= MAX_DAY,
    ensures
        r@ == iso_date_text(days as int),
{
    chrono::NaiveDate::from_num_days_from_ce_opt(days).unwrap().to_string()
}

/// Relies on chrono's `NaiveDate::parse_from_str` with the format `%Y-%m-%d`,
/// converted by `Datelike::num_days_from_ce`: it reads back the text that
/// `NaiveDate`'s `Display` writes for a date of the years 1 to 9999.
#[verifier::external_body]
fn parse_date_text(s: &str) -> (r: Option<i32>)
    ensures
        forall|d: int|
            MIN_DAY <= d <= MAX_DAY && #[trigger] iso_date_text(d) == s@ ==> r == Some(d as i32),
{
    chrono::NaiveDate::parse_from_str(s, "%Y-%m-%d").ok().map(|d| chrono::Datelike::num_days_from_ce(&d))
}

impl Date {
    /// The date as `YYYY-MM-DD`.
    pub fn to_iso_string(&self) -> (r: String)
        requires
            self.wf(),
        ensures
            r@ == iso_date_text(self.days as int),
    {
        date_text(self.days)
    }

    /// Reads a date written as `YYYY-MM-DD`; `None` where the text is not
    /// the ISO text of a date within the years 1 to 9999.
    pub fn parse_iso(s: &str) -> (r: Option<Date>)
        ensures
            r is Some ==> r->0.wf() && iso_date_text(r->0.days as int) == s@,
            forall|d: Date| d.wf() && #[trigger] iso_date_text(d.days as int) == s@ ==> r == Some(d),
    {
        let d = match parse_date_text(s) {
            Some(days) => match Date::from_days(days) {
                Some(d) => d,
                None => {
                    return None;
                },
            },
            None => {
                return None;
            },
        };
        if d.to_iso_string() == String::from_str(s) {
            Some(d)
        } else {
            None
        }
    }
}

/// `c` with an ASCII capital letter turned into its small letter.
pub open spec fn ascii_lower(c: char) -> char {
    if 'A' <= c && c <= 'Z' {
        ((c as u32) + 32) as char
    } else {
        c
    }
}

/// The two texts are equal when ASCII letter case is ignored.
pub open spec fn ascii_ci_eq(a: Seq<char>, b: Seq<char>) -> bool {
    a.len() == b.len() && forall|i: int| 0 <= i < a.len() ==> ascii_lower(#[trigger] a[i]) == ascii_lower(b[i])
}

/// `t` names `w`, by its three-letter or its full English name, in any
/// ASCII letter case.
pub open spec fn names_weekday(t: Seq<char>, w: Weekday) -> bool {
    ascii_ci_eq(t, w.short_name()) || ascii_ci_eq(t, w.long_name())
}

/// Relies on `FromStr` for chrono's `Weekday`, converted by
/// `Weekday::num_days_from_monday`: it accepts exactly the three-letter and
/// the full English name of a day, in any ASCII letter case.
#[verifier::external_body]
fn parse_weekday_text(s: &str) -> (r: Option<u32>)
    ensures
        r is Some ==> r->0 < 7 && names_weekday(s@, Weekday::from_index(r->0 as int)),
        forall|w: Weekday| #[trigger] names_weekday(s@, w) ==> r == Some(w.index() as u32),
{
    s.parse::<chrono::Weekday>().ok().map(|w| w.num_days_from_monday())
}

impl Weekday {
    /// The three-letter English name, as chrono writes it and the flat task
    /// form stores it.
    pub fn name(&self) -> (r: String)
        ensures
            r@ == self.short_name(),
    {
        let r = match self {
            Weekday::Mon => String::from_str("Mon"),
            Weekday::Tue => String::from_str("Tue"),
            Weekday::Wed => String::from_str("Wed"),
            Weekday::Thu => String::from_str("Thu"),
            Weekday::Fri => String::from_str("Fri"),
            Weekday::Sat => String::from_str("Sat"),
            Weekday::Sun => String::from_str("Sun"),
        };
        r
    }

    /// Reads a weekday from its three-letter or full English name, in any
    /// ASCII letter case; `None` for any other text.
    pub fn parse_name(s: &str) -> (r: Option<Weekday>)
        ensures
            r is Some ==> names_weekday(s@, r->0),
            forall|w: Weekday| #[trigger] names_weekday(s@, w) ==> r == Some(w),
    {
        match parse_weekday_text(s) {
            Some(i) => Some(Weekday::from_monday_index(i)),
            None => None,
        }
    }
}

/// A name of a weekday names it.
pub proof fn lemma_names_weekday(w: Weekday)
    ensures
        names_weekday(w.short_name(), w),
        names_weekday(w.long_name(), w),
{
}

/// The weekday names that a flat task without any stands for: all seven
/// days, by their full names, Monday first.
pub fn default_effective_dow() -> (r: Vec<String>)
    ensures
        r.len() == 7,
        forall|i: int| 0 <= i < 7 ==> (#[trigger] r@[i])@ == Weekday::from_index(i).long_name(),
{
    let r = vec![
        String::from_str("Monday"),
        String::from_str("Tuesday"),
        String::from_str("Wednesday"),
        String::from_str("Thursday"),
        String::from_str("Friday"),
        String::from_str("Saturday"),
        String::from_str("Sunday"),
    ];
    proof {
        reveal_strlit("Monday");
        reveal_strlit("Tuesday");
        reveal_strlit("Wednesday");
        reveal_strlit("Thursday");
        reveal_strlit("Friday");
        reveal_strlit("Saturday");
        reveal_strlit("Sunday");
    }
    r
}

} // verus!
