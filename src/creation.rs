//! The two ways of creating a task: a daily quota of one activity, or a
//! list of activities, one for each effective day.
use vstd::prelude::*;
use crate::calendar::{
    Date,
    MAX_DAY,
    Weekday,
    calculate_completion_date,
    contains_weekday,
    effective_days,
    weekday_of,
};
use crate::task::MyTask;

verus! {

/// Effort of one whole unit, in thousandths.
pub const ONE_UNIT: u64 = 1000;

/// Why a task could not be created.
#[derive(Clone, Copy, Debug, PartialEq, Eq, Structural)]
pub enum CreateError {
    EmptyAction,
    ZeroCountPerDay,
    EmptyUnit,
    NoWeekday,
    EmptyName,
    NoActivities,
    /// No completion date exists for the activity list.
    NoCompletionDate,
}

/// The weekdays among the first `n` of the week that `dow` lists, Monday
/// first, each once.
pub open spec fn canonical_prefix(dow: Seq<Weekday>, n: int) -> Seq<Weekday>
    decreases n,
{
    if n <= 0 {
        Seq::empty()
    } else {
        let prefix = canonical_prefix(dow, n - 1);
        if dow.contains(Weekday::from_index(n - 1)) {
            prefix.push(Weekday::from_index(n - 1))
        } else {
            prefix
        }
    }
}

/// The weekdays that `dow` lists, Monday first, each once.
pub open spec fn canonical_dow(dow: Seq<Weekday>) -> Seq<Weekday> {
    canonical_prefix(dow, 7)
}

/// The weekdays of `dow` in the canonical order, Monday first, each once.
pub fn canonical_weekdays(dow: &Vec<Weekday>) -> (r: Vec<Weekday>)
    ensures
        r@ == canonical_dow(dow@),
{
    let mut out: Vec<Weekday> = Vec::new();
    let mut i: u32 = 0;
    while i < 7
        invariant
            0 <= i <= 7,
            out@ == canonical_prefix(dow@, i as int),
        decreases 7 - i,
    {
        let w = Weekday::from_monday_index(i);
        if contains_weekday(dow, w) {
            out.push(w);
        }
        i = i + 1;
    }
    out
}

/// Every listed weekday appears in the canonical list, and nothing else.
pub proof fn lemma_canonical_dow(dow: Seq<Weekday>, w: Weekday)
    ensures
        canonical_dow(dow).contains(w) <==> dow.contains(w),
{
    lemma_canonical_prefix(dow, 7, w);
}

proof fn lemma_canonical_prefix(dow: Seq<Weekday>, n: int, w: Weekday)
    requires
        0 <= n <= 7,
    ensures
        canonical_prefix(dow, n).contains(w) <==> (dow.contains(w) && w.index() < n),
    decreases n,
{
    if n > 0 {
        lemma_canonical_prefix(dow, n - 1, w);
        let prefix = canonical_prefix(dow, n - 1);
        let v = Weekday::from_index(n - 1);
        assert(v.index() == n - 1);
        if dow.contains(v) {
            if w == v {
                assert(prefix.push(v)[prefix.len() as int] == w);
            }
            if prefix.push(v).contains(w) && w != v {
                let k = choose|k: int| 0 <= k < prefix.push(v).len() && prefix.push(v)[k] == w;
                assert(prefix[k] == w);
            }
            if prefix.contains(w) {
                let k = choose|k: int| 0 <= k < prefix.len() && prefix[k] == w;
                assert(prefix.push(v)[k] == w);
            }
        }
    }
}

/// A task that asks for `count_per_day` of `action` on each effective day
/// of `[start, end]`, with the weekdays in canonical order. Every text must
/// be non-empty, the count positive, and some weekday chosen.
pub fn new_quota_task(
    id: i64,
    action: String,
    count_per_day: u64,
    unit: String,
    start: Date,
    end: Date,
    effective_dow: &Vec<Weekday>,
) -> (r: Result<MyTask, CreateError>)
    ensures
        r == Err::<MyTask, CreateError>(CreateError::EmptyAction) <==> action@.len() == 0,
        r == Err::<MyTask, CreateError>(CreateError::ZeroCountPerDay) <==> action@.len() > 0
            && count_per_day == 0,
        r == Err::<MyTask, CreateError>(CreateError::EmptyUnit) <==> action@.len() > 0 && count_per_day
            > 0 && unit@.len() == 0,
        r == Err::<MyTask, CreateError>(CreateError::NoWeekday) <==> action@.len() > 0 && count_per_day
            > 0 && unit@.len() > 0 && effective_dow.len() == 0,
        action@.len() > 0 && count_per_day > 0 && unit@.len() > 0 && effective_dow.len() > 0 ==> r is Ok,
        r is Ok ==> {
            let t = r->Ok_0;
            &&& t.id == id
            &&& t.action == action
            &&& t.count_per_day == count_per_day
            &&& t.unit == unit
            &&& t.count_accum == 0
            &&& t.start == start
            &&& t.end == end
            &&& t.effective_dow@ == canonical_dow(effective_dow@)
            &&& t.daily_tasks is None
            &&& t.name is None
            &&& !t.archive
        },
{
    if action.as_str().unicode_len() == 0 {
        return Err(CreateError::EmptyAction);
    }
    if count_per_day == 0 {
        return Err(CreateError::ZeroCountPerDay);
    }
    if unit.as_str().unicode_len() == 0 {
        return Err(CreateError::EmptyUnit);
    }
    if effective_dow.len() == 0 {
        return Err(CreateError::NoWeekday);
    }
    Ok(
        MyTask {
            id,
            action,
            count_per_day,
            unit,
            count_accum: 0,
            start,
            end,
            effective_dow: canonical_weekdays(effective_dow),
            daily_tasks: None,
            name: None,
            archive: false,
        },
    )
}

/// The entries of `lines` that are not empty, in order.
pub open spec fn non_empty_lines(lines: Seq<Seq<char>>) -> Seq<Seq<char>>
    decreases lines.len(),
{
    if lines.len() == 0 {
        Seq::empty()
    } else {
        let prefix = non_empty_lines(lines.drop_last());
        if lines.last().len() > 0 {
            prefix.push(lines.last())
        } else {
            prefix
        }
    }
}

/// A character with the Unicode White_Space property.
pub open spec fn is_white_space(c: char) -> bool {
    let u = c as u32;
    ||| 9 <= u <= 13
    ||| u == 0x20
    ||| u == 0x85
    ||| u == 0xA0
    ||| u == 0x1680
    ||| 0x2000 <= u <= 0x200A
    ||| u == 0x2028
    ||| u == 0x2029
    ||| u == 0x202F
    ||| u == 0x205F
    ||| u == 0x3000
}

/// `s` without its leading white space.
pub open spec fn trim_start_of(s: Seq<char>) -> Seq<char>
    decreases s.len(),
{
    if s.len() > 0 && is_white_space(s[0]) {
        trim_start_of(s.drop_first())
    } else {
        s
    }
}

/// `s` without its trailing white space.
pub open spec fn trim_end_of(s: Seq<char>) -> Seq<char>
    decreases s.len(),
{
    if s.len() > 0 && is_white_space(s.last()) {
        trim_end_of(s.drop_last())
    } else {
        s
    }
}

/// `s` without its leading and trailing white space.
pub open spec fn trimmed(s: Seq<char>) -> Seq<char> {
    trim_end_of(trim_start_of(s))
}

/// The activities that a list of lines gives: each line trimmed, the empty
/// ones dropped, in order.
pub open spec fn activity_lines(lines: Seq<Seq<char>>) -> Seq<Seq<char>> {
    non_empty_lines(lines.map_values(|l: Seq<char>| trimmed(l)))
}

/// Relies on `str::trim`, which removes the leading and trailing characters
/// that have the Unicode White_Space property.
#[verifier::external_body]
fn trim_text(s: &str) -> (r: String)
    ensures
        r@ == trimmed(s@),
{
    s.trim().to_string()
}

fn activities_of(lines: &Vec<String>) -> (r: Vec<String>)
    ensures
        r.deep_view() == activity_lines(lines.deep_view()),
{
    let mut out: Vec<String> = Vec::new();
    let mut i: usize = 0;
    let ghost all = lines.deep_view().map_values(|l: Seq<char>| trimmed(l));
    while i < lines.len()
        invariant
            0 <= i <= lines.len(),
            all == lines.deep_view().map_values(|l: Seq<char>| trimmed(l)),
            out.deep_view() == non_empty_lines(all.take(i as int)),
        decreases lines.len() - i,
    {
        proof {
            assert(all.take(i + 1).drop_last() =~= all.take(i as int));
        }
        let line = trim_text(lines[i].as_str());
        assert(line@ == all[i as int]);
        if line.as_str().unicode_len() > 0 {
            let ghost before = out.deep_view();
            out.push(line);
            proof {
                assert(out.deep_view() =~= before.push(all[i as int]));
            }
        }
        i = i + 1;
    }
    proof {
        assert(all.take(lines.len() as int) =~= all);
    }
    out
}

/// A task with one activity for each effective day from `start`: the
/// entries of `activities`, trimmed, without the empty ones, in order; its end is the day of the
/// last activity. The name must be non-empty and some activity line given.
pub fn new_activity_task(
    id: i64,
    name: String,
    activities: Vec<String>,
    start: Date,
    effective_dow: &Vec<Weekday>,
) -> (r: Result<MyTask, CreateError>)
    requires
        start.wf(),
    ensures
        r == Err::<MyTask, CreateError>(CreateError::EmptyName) <==> name@.len() == 0,
        r == Err::<MyTask, CreateError>(CreateError::NoActivities) <==> name@.len() > 0
            && activities.len() == 0,
        r == Err::<MyTask, CreateError>(CreateError::NoCompletionDate) <==> name@.len() > 0
            && activities.len() > 0 && {
            let n = activity_lines(activities.deep_view()).len();
            n > 0 && (effective_dow.len() == 0 || effective_days(
                start.days as int,
                MAX_DAY as int,
                canonical_dow(effective_dow@),
            ).len() < n)
        },
        name@.len() > 0 && activities.len() > 0 && !{
            let n = activity_lines(activities.deep_view()).len();
            n > 0 && (effective_dow.len() == 0 || effective_days(
                start.days as int,
                MAX_DAY as int,
                canonical_dow(effective_dow@),
            ).len() < n)
        } ==> r is Ok,
        r is Ok ==> {
            let t = r->Ok_0;
            let acts = activity_lines(activities.deep_view());
            &&& t.wf()
            &&& t.id == id
            &&& t.action@ == "Complete"@
            &&& t.count_per_day == ONE_UNIT
            &&& t.unit@ == "line of daily activities"@
            &&& t.count_accum == 0
            &&& t.start == start
            &&& t.effective_dow@ == canonical_dow(effective_dow@)
            &&& t.daily_tasks is Some && t.daily_tasks->0.deep_view() == acts
            &&& t.name is Some && t.name->0 == name
            &&& !t.archive
            &&& (acts.len() == 0 ==> t.end == start)
            &&& (acts.len() > 0 ==> {
                &&& start.days <= t.end.days
                &&& canonical_dow(effective_dow@).contains(weekday_of(t.end.days as int))
                &&& effective_days(start.days as int, t.end.days as int, canonical_dow(effective_dow@)).len()
                    == acts.len()
            })
        },
{
    if name.as_str().unicode_len() == 0 {
        return Err(CreateError::EmptyName);
    }
    if activities.len() == 0 {
        return Err(CreateError::NoActivities);
    }
    let dow = canonical_weekdays(effective_dow);
    proof {
        if effective_dow.len() > 0 {
            lemma_canonical_dow(effective_dow@, effective_dow@[0]);
            assert(canonical_dow(effective_dow@).contains(effective_dow@[0]));
        } else {
            if dow.len() > 0 {
                lemma_canonical_dow(effective_dow@, dow@[0]);
                assert(dow@.contains(dow@[0]));
            }
        }
    }
    let acts = activities_of(&activities);
    let end = match calculate_completion_date(acts.len(), start, dow.clone()) {
        Some(d) => d,
        None => {
            return Err(CreateError::NoCompletionDate);
        },
    };
    Ok(
        MyTask {
            id,
            action: String::from_str("Complete"),
            count_per_day: ONE_UNIT,
            unit: String::from_str("line of daily activities"),
            count_accum: 0,
            start,
            end,
            effective_dow: dow,
            daily_tasks: Some(acts),
            name: Some(name),
            archive: false,
        },
    )
}

} // verus!
