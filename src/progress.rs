//! The two trajectories of a task: the planned one, which meets the daily
//! quota on every effective day, and the actual one, from the logged effort.
use vstd::prelude::*;
use crate::calendar::{Date, days_of, effective_days, generate_date_range};
use crate::task::MyTask;

verus! {

/// Seconds in a day.
pub const SECONDS_PER_DAY: u32 = 86400;

/// A fraction `num / den` of one slot.
#[derive(Clone, Copy, Debug, PartialEq, Eq, Structural)]
pub struct FillRatio {
    pub num: u64,
    pub den: u64,
}

impl FillRatio {
    /// The fraction lies in `[0, 1]`.
    pub open spec fn wf(self) -> bool {
        self.den > 0 && self.num <= self.den
    }

    /// `self` is at most `o`, as fractions.
    pub open spec fn le(self, o: FillRatio) -> bool {
        self.num * o.den <= o.num * self.den
    }

    pub open spec fn full() -> FillRatio {
        FillRatio { num: 1, den: 1 }
    }

    pub open spec fn empty() -> FillRatio {
        FillRatio { num: 0, den: 1 }
    }
}

/// The planned fill of the slot of `date`: full before today, empty after
/// it, and for today the part of the day that has passed.
pub open spec fn planned_fill(date: int, today: int, seconds: int) -> FillRatio {
    if date < today {
        FillRatio::full()
    } else if date > today {
        FillRatio::empty()
    } else {
        FillRatio { num: seconds as u64, den: SECONDS_PER_DAY as u64 }
    }
}

/// The actual fill of slot `index`: the logged effort fills the slots in
/// order, `count_per_day` to a slot.
pub open spec fn actual_fill(index: int, count_per_day: int, count_accum: int) -> FillRatio {
    let full_slots = count_accum / count_per_day;
    if index < full_slots {
        FillRatio::full()
    } else if index == full_slots {
        FillRatio { num: (count_accum % count_per_day) as u64, den: count_per_day as u64 }
    } else {
        FillRatio::empty()
    }
}

/// The planned fill of the slot of `date`, where `seconds_from_midnight`
/// of `today` have passed.
pub fn fill_ratio_parallel_universe(date: Date, today: Date, seconds_from_midnight: u32) -> (r: FillRatio)
    requires
        seconds_from_midnight < SECONDS_PER_DAY,
    ensures
        r == planned_fill(date.days as int, today.days as int, seconds_from_midnight as int),
        r.wf(),
{
    if date.days < today.days {
        FillRatio { num: 1, den: 1 }
    } else if date.days > today.days {
        FillRatio { num: 0, den: 1 }
    } else {
        FillRatio { num: seconds_from_midnight as u64, den: SECONDS_PER_DAY as u64 }
    }
}

/// The actual fill of slot `index` of a task with the given quota and
/// logged effort.
pub fn fill_ratio_user_universe(index: usize, count_per_day: u64, count_accum: u64) -> (r: FillRatio)
    requires
        count_per_day > 0,
    ensures
        r == actual_fill(index as int, count_per_day as int, count_accum as int),
        r.wf(),
{
    let full_slots = count_accum / count_per_day;
    let remaining = count_accum % count_per_day;
    if (index as u64) < full_slots {
        FillRatio { num: 1, den: 1 }
    } else if index as u64 == full_slots {
        FillRatio { num: remaining, den: count_per_day }
    } else {
        FillRatio { num: 0, den: 1 }
    }
}

/// The actual fill of a slot lies in `[0, 1]` and never shrinks as more
/// effort is logged.
pub proof fn lemma_actual_fill_monotonic(index: int, count_per_day: int, a1: int, a2: int)
    requires
        0 <= index,
        0 < count_per_day <= u64::MAX,
        0 <= a1 <= a2 <= u64::MAX,
    ensures
        actual_fill(index, count_per_day, a1).wf(),
        actual_fill(index, count_per_day, a2).wf(),
        actual_fill(index, count_per_day, a1).le(actual_fill(index, count_per_day, a2)),
{
    let f1 = a1 / count_per_day;
    let f2 = a2 / count_per_day;
    assert(f1 <= f2) by (nonlinear_arith)
        requires
            0 < count_per_day,
            0 <= a1 <= a2,
            f1 == a1 / count_per_day,
            f2 == a2 / count_per_day,
    ;
    assert(0 <= a1 % count_per_day < count_per_day);
    assert(0 <= a2 % count_per_day < count_per_day);
    if index == f1 && index == f2 {
        let r1 = a1 % count_per_day;
        let r2 = a2 % count_per_day;
        assert(a1 == f1 * count_per_day + r1) by (nonlinear_arith)
            requires
                0 < count_per_day,
                f1 == a1 / count_per_day,
                r1 == a1 % count_per_day,
        ;
        assert(a2 == f2 * count_per_day + r2) by (nonlinear_arith)
            requires
                0 < count_per_day,
                f2 == a2 / count_per_day,
                r2 == a2 % count_per_day,
        ;
        assert(r1 * count_per_day <= r2 * count_per_day) by (nonlinear_arith)
            requires
                r1 <= r2,
                0 < count_per_day,
        ;
    } else if index == f1 && index < f2 {
        assert((a1 % count_per_day) * 1 <= 1 * count_per_day);
    } else if index > f1 {
        assert(actual_fill(index, count_per_day, a1) == FillRatio::empty());
    }
}

/// How many of `days` are at most `today`.
pub open spec fn count_at_most(days: Seq<int>, today: int) -> nat
    decreases days.len(),
{
    if days.len() == 0 {
        0
    } else {
        count_at_most(days.drop_last(), today) + if days.last() <= today {
            1nat
        } else {
            0nat
        }
    }
}

/// The trajectories of a task on a given day.
#[derive(Debug)]
pub struct Progress {
    /// The effective dates of the task, in order.
    pub dates: Vec<Date>,
    /// The number of effective dates.
    pub total_days: u64,
    /// The number of effective dates up to and including today.
    pub days_passed_inclusive: u64,
    pub planned_accomplished: u128,
    pub planned_remaining: u128,
    pub actual_accomplished: u64,
    pub actual_remaining: u128,
    /// The planned fill of each effective date's slot.
    pub planned: Vec<FillRatio>,
    /// The actual fill of each effective date's slot.
    pub actual: Vec<FillRatio>,
}

impl Progress {
    /// What the trajectories of `task` are on `today`, where
    /// `seconds_from_midnight` of it have passed.
    pub open spec fn of(self, task: MyTask, today: int, seconds_from_midnight: int) -> bool {
        let days = effective_days(task.start.days as int, task.end.days as int, task.effective_dow@);
        let per = task.count_per_day as int;
        let total = days.len() as int;
        let passed = count_at_most(days, today) as int;
        &&& days_of(self.dates@) == days
        &&& self.total_days == total
        &&& self.days_passed_inclusive == passed
        &&& self.planned_accomplished == passed * per
        &&& self.planned_remaining == (if total * per > passed * per {
            total * per - passed * per
        } else {
            0
        })
        &&& self.actual_accomplished == task.count_accum
        &&& self.actual_remaining == (if total * per > task.count_accum {
            total * per - task.count_accum
        } else {
            0
        })
        &&& self.planned.len() == total
        &&& self.actual.len() == total
        &&& forall|k: int|
            0 <= k < total ==> #[trigger] self.planned@[k] == planned_fill(
                days[k],
                today,
                seconds_from_midnight,
            )
        &&& forall|k: int|
            0 <= k < total ==> #[trigger] self.actual@[k] == actual_fill(
                k,
                per,
                task.count_accum as int,
            )
    }
}

proof fn lemma_product_fits(a: int, b: int)
    requires
        0 <= a <= u64::MAX,
        0 <= b <= u64::MAX,
    ensures
        a * b <= u128::MAX,
{
    assert(a * b <= u64::MAX * u64::MAX) by (nonlinear_arith)
        requires
            0 <= a <= u64::MAX,
            0 <= b <= u64::MAX,
    ;
}

/// The trajectories of `task` on `today`, where `seconds_from_midnight` of
/// it have passed.
pub fn task_progress(task: &MyTask, today: Date, seconds_from_midnight: u32) -> (r: Progress)
    requires
        task.wf(),
        task.count_per_day > 0,
        seconds_from_midnight < SECONDS_PER_DAY,
    ensures
        r.of(*task, today.days as int, seconds_from_midnight as int),
{
    let dates = generate_date_range(task.start, task.end, task.effective_dow.clone());
    let ghost days = days_of(dates@);
    let n = dates.len();
    let mut passed: u64 = 0;
    let mut planned: Vec<FillRatio> = Vec::new();
    let mut actual: Vec<FillRatio> = Vec::new();
    let mut i: usize = 0;
    while i < n
        invariant
            n == dates.len(),
            days == days_of(dates@),
            0 <= i <= n,
            task.count_per_day > 0,
            seconds_from_midnight < SECONDS_PER_DAY,
            passed <= i,
            passed == count_at_most(days.take(i as int), today.days as int),
            planned.len() == i,
            actual.len() == i,
            forall|k: int|
                0 <= k < i ==> #[trigger] planned@[k] == planned_fill(
                    days[k],
                    today.days as int,
                    seconds_from_midnight as int,
                ),
            forall|k: int|
                0 <= k < i ==> #[trigger] actual@[k] == actual_fill(
                    k,
                    task.count_per_day as int,
                    task.count_accum as int,
                ),
        decreases n - i,
    {
        proof {
            assert(days.take(i + 1).drop_last() =~= days.take(i as int));
            assert(days[i as int] == dates@[i as int].days);
        }
        if dates[i].days <= today.days {
            passed = passed + 1;
        }
        planned.push(fill_ratio_parallel_universe(dates[i], today, seconds_from_midnight));
        actual.push(fill_ratio_user_universe(i, task.count_per_day, task.count_accum));
        i = i + 1;
    }
    proof {
        assert(days.take(n as int) =~= days);
    }
    let total = n as u64;
    let per = task.count_per_day as u128;
    proof {
        lemma_product_fits(passed as int, per as int);
        lemma_product_fits(total as int, per as int);
    }
    let planned_accomplished = passed as u128 * per;
    let total_effort = total as u128 * per;
    let planned_remaining = if total_effort > planned_accomplished {
        total_effort - planned_accomplished
    } else {
        0
    };
    let actual_remaining = if total_effort > task.count_accum as u128 {
        total_effort - task.count_accum as u128
    } else {
        0
    };
    Progress {
        dates,
        total_days: total,
        days_passed_inclusive: passed,
        planned_accomplished,
        planned_remaining,
        actual_accomplished: task.count_accum,
        actual_remaining,
        planned,
        actual,
    }
}

} // verus!
