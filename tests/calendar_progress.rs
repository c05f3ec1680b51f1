use stay_ahead::calendar::MAX_DAY;
use stay_ahead::progress::task_progress;
use stay_ahead::{
    calculate_completion_date, default_effective_dow, fill_ratio_parallel_universe,
    fill_ratio_user_universe, generate_date_range, Date, FillRatio, MyTask, Weekday,
};

fn date(s: &str) -> Date {
    Date::parse_iso(s).expect("valid date")
}

fn iso(d: &Date) -> String {
    d.to_iso_string()
}

#[test]
fn parse_iso_gives_chrono_day_number() {
    let d = date("2024-01-01");
    assert_eq!(d.days, 738886);
    assert_eq!(d.weekday(), Weekday::Mon);
    assert_eq!(date("0001-01-01").days, 1);
    assert_eq!(date("9999-12-31").days, MAX_DAY);
}

#[test]
fn parse_iso_rejects_bad_text() {
    assert!(Date::parse_iso("2024-13-01").is_none());
    assert!(Date::parse_iso("yesterday").is_none());
    assert!(Date::parse_iso("").is_none());
}

#[test]
fn iso_text_round_trip() {
    let d = date("2024-02-29");
    assert_eq!(iso(&d), "2024-02-29");
    assert_eq!(iso(&Date::from_days(1).unwrap()), "0001-01-01");
    assert!(Date::from_days(0).is_none());
    assert!(Date::from_days(MAX_DAY + 1).is_none());
}

#[test]
fn weekday_names() {
    assert_eq!(Weekday::Wed.name(), "Wed");
    assert_eq!(Weekday::parse_name("Wednesday"), Some(Weekday::Wed));
    assert_eq!(Weekday::parse_name("Sun"), Some(Weekday::Sun));
    assert_eq!(Weekday::parse_name("Someday"), None);
    let all = default_effective_dow();
    assert_eq!(all, vec!["Monday", "Tuesday", "Wednesday", "Thursday", "Friday", "Saturday", "Sunday"]);
}

#[test]
fn date_range_mon_wed_fri() {
    let dates = generate_date_range(
        date("2024-01-01"),
        date("2024-01-08"),
        vec![Weekday::Mon, Weekday::Wed, Weekday::Fri],
    );
    let texts: Vec<String> = dates.iter().map(iso).collect();
    assert_eq!(texts, vec!["2024-01-01", "2024-01-03", "2024-01-05", "2024-01-08"]);
}

#[test]
fn date_range_is_ascending_and_filtered() {
    let dow = vec![Weekday::Sat, Weekday::Tue];
    let dates = generate_date_range(date("2024-03-01"), date("2024-03-31"), dow.clone());
    assert_eq!(dates.len(), 9);
    for w in dates.windows(2) {
        assert!(w[0].days < w[1].days);
    }
    for d in &dates {
        assert!(dow.contains(&d.weekday()));
    }
}

#[test]
fn date_range_empty_cases() {
    assert!(generate_date_range(date("2024-01-01"), date("2024-01-31"), vec![]).is_empty());
    assert!(generate_date_range(date("2024-01-08"), date("2024-01-01"), vec![Weekday::Mon]).is_empty());
    let one = generate_date_range(date("2024-01-01"), date("2024-01-01"), vec![Weekday::Mon]);
    assert_eq!(one.len(), 1);
}

#[test]
fn completion_date_cases() {
    let start = date("2024-01-01");
    assert_eq!(calculate_completion_date(0, start, vec![]), Some(start));
    assert_eq!(calculate_completion_date(0, start, vec![Weekday::Fri]), Some(start));
    assert_eq!(calculate_completion_date(3, start, vec![]), None);
    let end = calculate_completion_date(3, start, vec![Weekday::Mon, Weekday::Wed, Weekday::Fri]).unwrap();
    assert_eq!(iso(&end), "2024-01-05");
    let end = calculate_completion_date(1, start, vec![Weekday::Sun]).unwrap();
    assert_eq!(iso(&end), "2024-01-07");
    let last = Date::from_days(MAX_DAY).unwrap();
    assert_eq!(calculate_completion_date(2, last, vec![Weekday::Mon, Weekday::Tue, Weekday::Wed, Weekday::Thu, Weekday::Fri, Weekday::Sat, Weekday::Sun]), None);
}

#[test]
fn user_fill_quota_ten_logged_twenty_five() {
    let per = 10_000;
    let accum = 25_000;
    assert_eq!(fill_ratio_user_universe(0, per, accum), FillRatio { num: 1, den: 1 });
    assert_eq!(fill_ratio_user_universe(1, per, accum), FillRatio { num: 1, den: 1 });
    assert_eq!(fill_ratio_user_universe(2, per, accum), FillRatio { num: 5_000, den: 10_000 });
    assert_eq!(fill_ratio_user_universe(3, per, accum), FillRatio { num: 0, den: 1 });
    assert_eq!(fill_ratio_user_universe(7, per, accum), FillRatio { num: 0, den: 1 });
}

#[test]
fn user_fill_grows_with_effort() {
    let per = 3_000;
    for index in 0..5usize {
        let mut prev = fill_ratio_user_universe(index, per, 0);
        for accum in (0..20_000u64).step_by(250) {
            let r = fill_ratio_user_universe(index, per, accum);
            assert!(r.num <= r.den && r.den > 0);
            assert!((prev.num as u128) * (r.den as u128) <= (r.num as u128) * (prev.den as u128));
            prev = r;
        }
    }
}

#[test]
fn planned_fill_by_date() {
    let today = date("2024-05-10");
    assert_eq!(fill_ratio_parallel_universe(date("2024-05-09"), today, 100), FillRatio { num: 1, den: 1 });
    assert_eq!(fill_ratio_parallel_universe(date("2024-05-11"), today, 100), FillRatio { num: 0, den: 1 });
    assert_eq!(fill_ratio_parallel_universe(today, today, 43_200), FillRatio { num: 43_200, den: 86_400 });
}

fn sample_task() -> MyTask {
    MyTask {
        id: 1,
        action: "read".to_string(),
        count_per_day: 10_000,
        unit: "minutes".to_string(),
        count_accum: 25_000,
        start: date("2024-01-01"),
        end: date("2024-01-08"),
        effective_dow: vec![Weekday::Mon, Weekday::Wed, Weekday::Fri],
        daily_tasks: None,
        name: None,
        archive: false,
    }
}

#[test]
fn progress_of_task() {
    let t = sample_task();
    let p = task_progress(&t, date("2024-01-03"), 0);
    assert_eq!(p.total_days, 4);
    assert_eq!(p.days_passed_inclusive, 2);
    assert_eq!(p.planned_accomplished, 20_000);
    assert_eq!(p.planned_remaining, 20_000);
    assert_eq!(p.actual_accomplished, 25_000);
    assert_eq!(p.actual_remaining, 15_000);
    assert_eq!(p.planned, vec![
        FillRatio { num: 1, den: 1 },
        FillRatio { num: 0, den: 86_400 },
        FillRatio { num: 0, den: 1 },
        FillRatio { num: 0, den: 1 },
    ]);
    assert_eq!(p.actual[2], FillRatio { num: 5_000, den: 10_000 });
    let late = task_progress(&t, date("2024-02-01"), 0);
    assert_eq!(late.planned_remaining, 0);
    assert_eq!(late.days_passed_inclusive, 4);
}
