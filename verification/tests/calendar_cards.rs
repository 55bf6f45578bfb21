use statcards::api::github::{
    ContributionDay, ContributionMonth, ContributionWeek, GithubCalendar,
};
use statcards::data::theme::Theme;
use statcards::prepared_templates::PreparedTemplate;
use statcards::routes::activity::{
    check_activity_subject, group_activity_months, make_activity_cache_key, render_activity,
    ActivityDay, ActivityMonth, ActivityWeek, Period,
};

fn day(weekday: i8, date: &str, count: i32) -> ContributionDay {
    ContributionDay {
        weekday,
        date: date.to_string(),
        contribution_count: count,
        color: "#ebedf0".to_string(),
    }
}

fn month(name: &str, first_day: &str, total_weeks: i8) -> ContributionMonth {
    ContributionMonth { name: name.to_string(), year: 2024, first_day: first_day.to_string(), total_weeks }
}

#[test]
fn one_week_crossing_a_month_boundary_splits_into_two_groups() {
    // seven days in one calendar week: three in April, four in May
    let week = ContributionWeek {
        contribution_days: vec![
            day(0, "2024-04-28", 1),
            day(1, "2024-04-29", 1),
            day(2, "2024-04-30", 1),
            day(3, "2024-05-01", 1),
            day(4, "2024-05-02", 1),
            day(5, "2024-05-03", 1),
            day(6, "2024-05-04", 1),
        ],
    };
    let cal = GithubCalendar {
        total_contributions: 7,
        weeks: vec![week],
        months: vec![month("Apr", "2024-04-01", 1), month("May", "2024-05-01", 5)],
    };
    let groups = group_activity_months(&cal);
    assert_eq!(groups.len(), 2);
    assert_eq!(groups[0].name.as_str(), "Apr");
    assert_eq!(groups[1].name.as_str(), "May");
    assert_eq!(groups[0].weeks.len(), 1);
    assert_eq!(groups[1].weeks.len(), 1);
    assert_eq!(groups[0].weeks[0].days.len(), 3);
    assert_eq!(groups[1].weeks[0].days.len(), 4);
    let total: usize = groups
        .iter()
        .map(|m| m.weeks.iter().map(|w| w.days.len()).sum::<usize>())
        .sum();
    assert_eq!(total, 7);
}

#[test]
fn days_without_matching_month_metadata_are_skipped() {
    let week = ContributionWeek {
        contribution_days: vec![day(0, "2024-03-31", 1), day(1, "2024-04-01", 2)],
    };
    let cal = GithubCalendar {
        total_contributions: 3,
        weeks: vec![week],
        months: vec![month("Apr", "2024-04-01", 1)],
    };
    let groups = group_activity_months(&cal);
    assert_eq!(groups.len(), 1);
    assert_eq!(groups[0].name.as_str(), "Apr");
    assert_eq!(groups[0].weeks[0].days.len(), 1);
    assert_eq!(groups[0].weeks[0].days[0].count, 2);
}

fn adays(specs: &[(i8, &str)]) -> Vec<ActivityDay> {
    specs
        .iter()
        .map(|(w, c)| ActivityDay { count: 1, weekday: *w, color: c.to_string() })
        .collect()
}

#[test]
fn day_cells_step_down_and_wrap_at_weekday_six() {
    // week one holds weekdays 5 and 6; the weekday-6 day advances the
    // column, so week two's day lands one cell right, back at the top
    let months = vec![ActivityMonth {
        name: "May".to_string(),
        weeks: vec![
            ActivityWeek { days: adays(&[(5, "#123456"), (6, "#123456")]) },
            ActivityWeek { days: adays(&[(0, "#123456")]) },
        ],
    }];
    let card = render_activity(
        "octo".to_string(),
        false,
        Theme::White,
        Ok(months),
    )
    .unwrap();
    // base line at 35 without a title row; weekday 5 sits at 35 + 5*16
    assert!(card.stats_data.contains("<rect x=\"50\" y=\"115\""));
    assert!(card.stats_data.contains("<rect x=\"50\" y=\"131\""));
    assert!(card.stats_data.contains("<rect x=\"66\" y=\"35\""));
    assert_eq!(card.height, 163);
    // the last drawn day sits at x = 66
    assert_eq!(card.width, 66 + 32);
    assert!(!card.with_title);
}

#[test]
fn stock_cell_colors_remap_through_the_theme_ramp() {
    let months = vec![ActivityMonth {
        name: "May".to_string(),
        weeks: vec![ActivityWeek { days: adays(&[(0, "#ebedf0"), (1, "#bada55")]) }],
    }];
    let card = render_activity("octo".to_string(), true, Theme::White, Ok(months)).unwrap();
    // the stock inactive key remaps; the unknown literal passes through
    assert!(card.stats_data.contains("fill=\"#e5e5e5\""));
    assert!(card.stats_data.contains("fill=\"#bada55\""));
    assert_eq!(card.height, 195);
    assert!(card.stats_data.contains("y=\"67\""));
}

#[test]
fn month_labels_advance_by_counted_week_columns() {
    let months = vec![
        ActivityMonth {
            name: "Apr".to_string(),
            weeks: vec![ActivityWeek { days: adays(&[(0, "#ebedf0")]) }],
        },
        ActivityMonth {
            name: "May".to_string(),
            weeks: vec![ActivityWeek { days: adays(&[(1, "#ebedf0")]) }],
        },
    ];
    let card = render_activity("octo".to_string(), false, Theme::White, Ok(months)).unwrap();
    // first label at the margin; April spans one column, so May's
    // label is one cell further plus the single-column nudge
    assert!(card.months_legend.contains("<text x=\"50\" y=\"29\""));
    assert!(card.months_legend.contains("<text x=\"74\" y=\"29\""));
    assert!(card.months_legend.contains(">Apr</text>"));
    assert!(card.months_legend.contains(">May</text>"));
}

#[test]
fn weekday_legend_has_three_fixed_rows() {
    let months = vec![ActivityMonth {
        name: "May".to_string(),
        weeks: vec![ActivityWeek { days: adays(&[(0, "#ebedf0")]) }],
    }];
    let card = render_activity("octo".to_string(), false, Theme::White, Ok(months)).unwrap();
    assert!(card.week_legend.contains(">Mon</text>"));
    assert!(card.week_legend.contains(">Wed</text>"));
    assert!(card.week_legend.contains(">Fri</text>"));
    assert!(card.week_legend.contains("y=\"63\""));
    assert!(card.week_legend.contains("y=\"95\""));
    assert!(card.week_legend.contains("y=\"127\""));
}

#[test]
fn failed_activity_renders_the_error_card() {
    let r = render_activity(
        "octo".to_string(),
        false,
        Theme::White,
        Err(PreparedTemplate::FailedFindUser),
    );
    let card = r.unwrap_err();
    assert_eq!(card.first_line.as_str(), "Failed to find a user.");
}

#[test]
fn period_keys_select_their_windows() {
    assert_eq!(Period::from_key("year"), Some(365));
    assert_eq!(Period::from_key("6_months"), Some(180));
    assert_eq!(Period::from_key("3_months"), Some(90));
    assert_eq!(Period::from_key("fortnight"), None);
}

#[test]
fn activity_cache_key_is_the_request_fingerprint() {
    let key = make_activity_cache_key(&"octo".to_string(), &"year".to_string());
    assert_eq!(key.as_str(), "github:activity:octo:year");
}

#[test]
fn empty_user_name_is_rejected_before_any_fetch() {
    assert_eq!(
        check_activity_subject(&"".to_string()).unwrap_err(),
        PreparedTemplate::FailedFindUser
    );
    assert!(check_activity_subject(&"octo".to_string()).is_ok());
}
