//! The task record and its flat form, in which dates are ISO text and
//! weekdays are names.
//!
//! Effort counts are held as whole thousandths of the task's unit.
use vstd::prelude::*;
use crate::calendar::{Date, Weekday, iso_date_text, lemma_names_weekday, names_weekday};

verus! {

/// A recurring task.
#[derive(Debug)]
pub struct MyTask {
    pub id: i64,
    pub action: String,
    /// Effort that counts as one full day, in thousandths of `unit`.
    pub count_per_day: u64,
    pub unit: String,
    /// Effort logged so far, in thousandths of `unit`.
    pub count_accum: u64,
    pub start: Date,
    pub end: Date,
    pub effective_dow: Vec<Weekday>,
    pub daily_tasks: Option<Vec<String>>,
    pub name: Option<String>,
    pub archive: bool,
}

/// The flat form of a task, as it is written to disk or to the remote document.
#[derive(Debug)]
pub struct SerializableTask {
    pub id: i64,
    pub action: String,
    pub count_per_day: u64,
    pub unit: String,
    pub count_accum: u64,
    pub start: String,
    pub end: String,
    pub effective_dow: Vec<String>,
    pub daily_tasks: Option<Vec<String>>,
    pub name: Option<String>,
    pub archive: bool,
}

/// Why a flat task could not be read.
#[derive(Clone, Copy, Debug, PartialEq, Eq, Structural)]
pub enum ParseError {
    /// A date is not `YYYY-MM-DD` within the years 1 to 9999.
    InvalidDate,
    /// A weekday name is not recognised.
    InvalidWeekday,
    /// The stored token is not obfuscated text.
    InvalidToken,
    /// The document is not JSON of the expected shape.
    InvalidJson,
}

/// The three-letter or full English name of some weekday, in any ASCII
/// letter case.
pub open spec fn is_weekday_name(t: Seq<char>) -> bool {
    exists|w: Weekday| names_weekday(t, w)
}

/// The text of an optional list of strings.
pub open spec fn opt_texts(v: Option<Vec<String>>) -> Option<Seq<Seq<char>>> {
    match v {
        Some(v) => Some(v.deep_view()),
        None => None,
    }
}

/// The text of an optional string.
pub open spec fn opt_text(v: Option<String>) -> Option<Seq<char>> {
    match v {
        Some(v) => Some(v@),
        None => None,
    }
}

/// A copy of a list of strings.
pub fn copy_texts(v: &Vec<String>) -> (r: Vec<String>)
    ensures
        r.deep_view() == v.deep_view(),
{
    let mut out: Vec<String> = Vec::new();
    let mut i: usize = 0;
    while i < v.len()
        invariant
            0 <= i <= v.len(),
            out.len() == i,
            forall|k: int| 0 <= k < i ==> (#[trigger] out@[k])@ == v@[k]@,
        decreases v.len() - i,
    {
        out.push(v[i].clone());
        i = i + 1;
    }
    assert(out.deep_view() =~= v.deep_view());
    out
}

/// A copy of an optional list of strings.
pub fn copy_opt_texts(v: &Option<Vec<String>>) -> (r: Option<Vec<String>>)
    ensures
        opt_texts(r) == opt_texts(*v),
{
    match v {
        Some(v) => Some(copy_texts(v)),
        None => None,
    }
}

/// A copy of an optional string.
pub fn copy_opt_text(v: &Option<String>) -> (r: Option<String>)
    ensures
        opt_text(r) == opt_text(*v),
{
    match v {
        Some(v) => Some(v.clone()),
        None => None,
    }
}

impl MyTask {
    /// Both dates lie within the years 1 to 9999.
    pub open spec fn wf(self) -> bool {
        self.start.wf() && self.end.wf()
    }

    /// The two tasks hold the same values.
    pub open spec fn same(self, o: MyTask) -> bool {
        &&& self.id == o.id
        &&& self.action@ == o.action@
        &&& self.count_per_day == o.count_per_day
        &&& self.unit@ == o.unit@
        &&& self.count_accum == o.count_accum
        &&& self.start == o.start
        &&& self.end == o.end
        &&& self.effective_dow@ == o.effective_dow@
        &&& opt_texts(self.daily_tasks) == opt_texts(o.daily_tasks)
        &&& opt_text(self.name) == opt_text(o.name)
        &&& self.archive == o.archive
    }
}

impl SerializableTask {
    /// This is the flat form of `t`: dates as ISO text, weekdays by their
    /// three-letter names, the rest as it is.
    pub open spec fn flat_form_of(self, t: MyTask) -> bool {
        &&& self.id == t.id
        &&& self.action@ == t.action@
        &&& self.count_per_day == t.count_per_day
        &&& self.unit@ == t.unit@
        &&& self.count_accum == t.count_accum
        &&& self.start@ == iso_date_text(t.start.days as int)
        &&& self.end@ == iso_date_text(t.end.days as int)
        &&& self.effective_dow.len() == t.effective_dow.len()
        &&& forall|i: int|
            0 <= i < self.effective_dow.len() ==> (#[trigger] self.effective_dow@[i])@
                == t.effective_dow@[i].short_name()
        &&& opt_texts(self.daily_tasks) == opt_texts(t.daily_tasks)
        &&& opt_text(self.name) == opt_text(t.name)
        &&& self.archive == t.archive
    }

    /// Every weekday name is a three-letter or full English name.
    pub open spec fn names_known(self) -> bool {
        forall|i: int|
            0 <= i < self.effective_dow.len() ==> is_weekday_name(#[trigger] self.effective_dow@[i]@)
    }

    /// Both dates are ISO text of a date within the years 1 to 9999.
    pub open spec fn dates_known(self) -> bool {
        &&& exists|d: Date| d.wf() && iso_date_text(d.days as int) == self.start@
        &&& exists|d: Date| d.wf() && iso_date_text(d.days as int) == self.end@
    }

    /// `t` is what this flat form says, as far as its fields can be read.
    pub open spec fn reads_as(self, t: MyTask) -> bool {
        &&& t.wf()
        &&& self.id == t.id
        &&& self.action@ == t.action@
        &&& self.count_per_day == t.count_per_day
        &&& self.unit@ == t.unit@
        &&& self.count_accum == t.count_accum
        &&& forall|d: Date| d.wf() && #[trigger] iso_date_text(d.days as int) == self.start@ ==> t.start == d
        &&& forall|d: Date| d.wf() && #[trigger] iso_date_text(d.days as int) == self.end@ ==> t.end == d
        &&& self.effective_dow.len() == t.effective_dow.len()
        &&& forall|i: int, w: Weekday|
            0 <= i < self.effective_dow.len() && #[trigger] names_weekday(self.effective_dow@[i]@, w)
                ==> t.effective_dow@[i] == w
        &&& opt_texts(self.daily_tasks) == opt_texts(t.daily_tasks)
        &&& opt_text(self.name) == opt_text(t.name)
        &&& self.archive == t.archive
    }

    /// The flat form of a task.
    pub fn from(task: &MyTask) -> (r: SerializableTask)
        requires
            task.wf(),
        ensures
            r.flat_form_of(*task),
    {
        let mut names: Vec<String> = Vec::new();
        let mut i: usize = 0;
        while i < task.effective_dow.len()
            invariant
                0 <= i <= task.effective_dow.len(),
                names.len() == i,
                forall|k: int| 0 <= k < i ==> (#[trigger] names@[k])@ == task.effective_dow@[k].short_name(),
            decreases task.effective_dow.len() - i,
        {
            names.push(task.effective_dow[i].name());
            i = i + 1;
        }
        SerializableTask {
            id: task.id,
            action: task.action.clone(),
            count_per_day: task.count_per_day,
            unit: task.unit.clone(),
            count_accum: task.count_accum,
            start: task.start.to_iso_string(),
            end: task.end.to_iso_string(),
            effective_dow: names,
            daily_tasks: copy_opt_texts(&task.daily_tasks),
            name: copy_opt_text(&task.name),
            archive: task.archive,
        }
    }
}

impl MyTask {
    /// `r` is a result of reading `s`: what it reads is what `s` says; it
    /// succeeds where every date and weekday name of `s` is readable, and
    /// otherwise names the first kind of text that is not.
    pub open spec fn read_result(s: SerializableTask, r: Result<MyTask, ParseError>) -> bool {
        &&& r is Ok ==> s.reads_as(r->Ok_0)
        &&& s.dates_known() && s.names_known() ==> r is Ok
        &&& !s.dates_known() ==> r == Err::<MyTask, ParseError>(ParseError::InvalidDate)
        &&& s.dates_known() && !s.names_known() ==> r == Err::<MyTask, ParseError>(
            ParseError::InvalidWeekday,
        )
    }

    /// Reads a flat task. Fails with `InvalidDate` where a date cannot be
    /// read, and with `InvalidWeekday` where a weekday name cannot.
    pub fn try_from(task: &SerializableTask) -> (r: Result<MyTask, ParseError>)
        ensures
            MyTask::read_result(*task, r),
    {
        let start = match Date::parse_iso(task.start.as_str()) {
            Some(d) => d,
            None => {
                return Err(ParseError::InvalidDate);
            },
        };
        let end = match Date::parse_iso(task.end.as_str()) {
            Some(d) => d,
            None => {
                return Err(ParseError::InvalidDate);
            },
        };
        let mut dow: Vec<Weekday> = Vec::new();
        let mut i: usize = 0;
        while i < task.effective_dow.len()
            invariant
                0 <= i <= task.effective_dow.len(),
                dow.len() == i,
                start.wf() && iso_date_text(start.days as int) == task.start@,
                end.wf() && iso_date_text(end.days as int) == task.end@,
                forall|k: int| 0 <= k < i ==> is_weekday_name(#[trigger] task.effective_dow@[k]@),
                forall|k: int, w: Weekday|
                    0 <= k < i && #[trigger] names_weekday(task.effective_dow@[k]@, w) ==> dow@[k] == w,
            decreases task.effective_dow.len() - i,
        {
            let ghost text = task.effective_dow@[i as int]@;
            let parsed = Weekday::parse_name(task.effective_dow[i].as_str());
            match parsed {
                Some(w) => {
                    let ghost before = dow@;
                    dow.push(w);
                    proof {
                        assert(is_weekday_name(text));
                        assert forall|k: int, v: Weekday|
                            0 <= k < i + 1 && #[trigger] names_weekday(task.effective_dow@[k]@, v)
                                implies dow@[k] == v by {
                            if k < i {
                                assert(dow@[k] == before[k]);
                            } else {
                                assert(text == task.effective_dow@[k]@);
                            }
                        }
                    }
                },
                None => {
                    proof {
                        assert(!is_weekday_name(text));
                        assert(!task.names_known());
                        assert(start.wf() && iso_date_text(start.days as int) == task.start@);
                        assert(end.wf() && iso_date_text(end.days as int) == task.end@);
                        assert(task.dates_known());
                    }
                    return Err(ParseError::InvalidWeekday);
                },
            }
            assert(dow.len() == i + 1);
            i = i + 1;
        }
        Ok(MyTask {
            id: task.id,
            action: task.action.clone(),
            count_per_day: task.count_per_day,
            unit: task.unit.clone(),
            count_accum: task.count_accum,
            start,
            end,
            effective_dow: dow,
            daily_tasks: copy_opt_texts(&task.daily_tasks),
            name: copy_opt_text(&task.name),
            archive: task.archive,
        })
    }
}

/// The flat form of a task with dates in range has readable dates and
/// weekday names.
pub proof fn lemma_flat_form_readable(t: MyTask, s: SerializableTask)
    requires
        t.wf(),
        s.flat_form_of(t),
    ensures
        s.dates_known(),
        s.names_known(),
{
    assert(t.start.wf() && iso_date_text(t.start.days as int) == s.start@);
    assert(t.end.wf() && iso_date_text(t.end.days as int) == s.end@);
    assert forall|i: int| 0 <= i < s.effective_dow.len() implies is_weekday_name(
        #[trigger] s.effective_dow@[i]@,
    ) by {
        let w = t.effective_dow@[i];
        assert(s.effective_dow@[i]@ == w.short_name());
        lemma_names_weekday(w);
    }
}

/// Reading back the flat form of a task gives the task again.
pub proof fn lemma_task_round_trip(t: MyTask, s: SerializableTask, r: Result<MyTask, ParseError>)
    requires
        t.wf(),
        s.flat_form_of(t),
        MyTask::read_result(s, r),
    ensures
        r is Ok,
        r->Ok_0.same(t),
{
    lemma_flat_form_readable(t, s);
    let back = r->Ok_0;
    assert(t.start.wf() && iso_date_text(t.start.days as int) == s.start@);
    assert(t.end.wf() && iso_date_text(t.end.days as int) == s.end@);
    assert forall|i: int| 0 <= i < t.effective_dow.len() implies back.effective_dow@[i]
        == t.effective_dow@[i] by {
        let w = t.effective_dow@[i];
        assert(s.effective_dow@[i]@ == w.short_name());
        lemma_names_weekday(w);
    }
    assert(back.effective_dow@ =~= t.effective_dow@);
}

} // verus!
