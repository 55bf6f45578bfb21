use crate::api::github::{ContributionMonth, ContributionWeek, GithubCalendar};
use crate::data::theme::{
    spec_activity_color, spec_activity_color_from_key, spec_theme_data, ActivityColor, Theme,
    ThemeData,
};
use crate::prepared_templates::{spec_error_lines, PreparedTemplate};
use crate::templates::ErrorTemplate;
use crate::utils::utils::{
    join_with, sat_add_u64, spec_cap_u64, spec_contains, spec_digits, spec_join_with,
    str_contains, str_eq, u64_to_string,
};
use vstd::prelude::*;
use vstd::string::*;

verus! {

/// Edge length of one day cell, gap included, in pixels.
pub const DAY_BLOCK_SIZE: u64 = 16;

/// Left margin the day grid and the month labels start at.
pub const DEFAULT_START_X: u64 = 50;

/// Query parameters of a calendar card request.
#[derive(Debug, Clone)]
pub struct Params {
    pub username: String,
    pub theme: Option<Theme>,
    pub period: Option<String>,
    pub with_title: Option<bool>,
}

/// One rendered day: count, weekday index (0 to 6) and cell color key.
#[derive(Debug, Clone)]
pub struct ActivityDay {
    pub count: i32,
    pub weekday: i8,
    pub color: String,
}

/// One (possibly partial) week column of a month group.
#[derive(Debug, Clone)]
pub struct ActivityWeek {
    pub days: Vec<ActivityDay>,
}

/// One month group: its label and the week columns that fall in it.
#[derive(Debug, Clone)]
pub struct ActivityMonth {
    pub name: String,
    pub weeks: Vec<ActivityWeek>,
}

/// The filled calendar card: markup fragments, dimensions, palette.
#[derive(Debug)]
pub struct CompactActivityTemplate {
    pub name: String,
    pub theme_data: ThemeData,
    pub stats_data: String,
    pub months_legend: String,
    pub week_legend: String,
    pub width: u32,
    pub height: u32,
    pub with_title: bool,
}

/// The selectable look-back windows.
#[derive(Debug, Clone, Copy, PartialEq, Eq, Structural)]
pub enum Period {
    Year,
    SixMonths,
    ThreeMonths,
}

/// Days of history each period key selects.
pub open spec fn spec_period_days(key: Seq<char>) -> Option<u32> {
    if key == "year"@ {
        Some(365u32)
    } else if key == "6_months"@ {
        Some(180u32)
    } else if key == "3_months"@ {
        Some(90u32)
    } else {
        None
    }
}

impl Period {
    /// How many days of history a period key selects.
    pub fn from_key(key: &str) -> (r: Option<u32>)
        ensures
            r == spec_period_days(key@),
    {
        if str_eq(key, "year") {
            Some(365)
        } else if str_eq(key, "6_months") {
            Some(180)
        } else if str_eq(key, "3_months") {
            Some(90)
        } else {
            None
        }
    }
}

/// Mathematical image of one rendered day.
pub struct DayV {
    pub count: int,
    pub weekday: int,
    pub color: Seq<char>,
}

/// Mathematical image of one week column.
pub struct WeekV {
    pub days: Seq<DayV>,
}

/// Mathematical image of one month group.
pub struct MonthV {
    pub name: Seq<char>,
    pub weeks: Seq<WeekV>,
}

impl View for ActivityDay {
    type V = DayV;

    open spec fn view(&self) -> DayV {
        DayV { count: self.count as int, weekday: self.weekday as int, color: self.color@ }
    }
}

impl View for ActivityWeek {
    type V = WeekV;

    open spec fn view(&self) -> WeekV {
        WeekV { days: self.days@.map_values(|d: ActivityDay| d@) }
    }
}

impl View for ActivityMonth {
    type V = MonthV;

    open spec fn view(&self) -> MonthV {
        MonthV { name: self.name@, weeks: self.weeks@.map_values(|w: ActivityWeek| w@) }
    }
}

/// The images of a month list.
pub open spec fn months_view(v: Seq<ActivityMonth>) -> Seq<MonthV> {
    v.map_values(|m: ActivityMonth| m@)
}

/// The image of a pending month group.
pub open spec fn opt_month_view(o: Option<ActivityMonth>) -> Option<MonthV> {
    match o {
        Some(m) => Some(m@),
        None => None,
    }
}

/// The year-and-month prefix of an ISO date.
pub open spec fn spec_date7(d: Seq<char>) -> Seq<char> {
    if d.len() >= 7 {
        d.take(7)
    } else {
        d
    }
}

/// First month (from i on) whose first-day string contains the given
/// date prefix, else -1.
pub open spec fn spec_find_month(
    months: Seq<ContributionMonth>,
    i: int,
    date7: Seq<char>,
) -> int
    decreases months.len() - i,
{
    if i < 0 || i >= months.len() {
        -1
    } else if spec_contains(months[i].first_day@, date7) {
        i
    } else {
        spec_find_month(months, i + 1, date7)
    }
}

/// Attach the pending week buffer to the pending month, if one is open.
pub open spec fn spec_close_week(cur: Option<MonthV>, week: Seq<DayV>) -> Option<MonthV> {
    match cur {
        Some(m) => Some(MonthV { name: m.name, weeks: m.weeks.push(WeekV { days: week }) }),
        None => None,
    }
}

/// The month-grouping sweep over the calendar, from week wi, day di on:
/// each day joins the month whose metadata matches its date prefix;
/// days without a match are skipped; a month change mid-week closes the
/// week buffer into the old month, so a calendar week can contribute a
/// partial week column to each of two adjacent months.
pub open spec fn spec_group_rec(
    weeks: Seq<ContributionWeek>,
    months: Seq<ContributionMonth>,
    wi: int,
    di: int,
    acc: Seq<MonthV>,
    cur: Option<MonthV>,
    week: Seq<DayV>,
) -> Seq<MonthV>
    decreases
            weeks.len() - wi,
            (if 0 <= wi < weeks.len() {
                weeks[wi].contribution_days@.len() - di
            } else {
                0
            }),
{
    if wi < 0 || wi >= weeks.len() {
        match cur {
            Some(m) => acc.push(m),
            None => acc,
        }
    } else if di < 0 || di >= weeks[wi].contribution_days@.len() {
        spec_group_rec(weeks, months, wi + 1, 0, acc, spec_close_week(cur, week), Seq::empty())
    } else {
        let d = weeks[wi].contribution_days@[di];
        let d7 = spec_date7(d.date@);
        let found = spec_find_month(months, 0, d7);
        if found == -1 {
            spec_group_rec(weeks, months, wi, di + 1, acc, cur, week)
        } else {
            let fname = months[found].name@;
            let cur1 = match cur {
                None => MonthV { name: fname, weeks: Seq::empty() },
                Some(m) => m,
            };
            let newday = DayV {
                count: d.contribution_count as int,
                weekday: d.weekday as int,
                color: d.color@,
            };
            if cur1.name != fname {
                let acc2 = acc.push(
                    MonthV { name: cur1.name, weeks: cur1.weeks.push(WeekV { days: week }) },
                );
                spec_group_rec(
                    weeks,
                    months,
                    wi,
                    di + 1,
                    acc2,
                    Some(MonthV { name: fname, weeks: Seq::empty() }),
                    seq![newday],
                )
            } else {
                spec_group_rec(weeks, months, wi, di + 1, acc, Some(cur1), week.push(newday))
            }
        }
    }
}

/// The month groups of a calendar.
pub open spec fn spec_group_months(cal: GithubCalendar) -> Seq<MonthV> {
    spec_group_rec(cal.weeks@, cal.months@, 0, 0, Seq::empty(), None, Seq::empty())
}

fn find_month(months: &Vec<ContributionMonth>, date7: &str) -> (r: Option<usize>)
    ensures
        match r {
            Some(idx) => idx < months@.len() && spec_find_month(months@, 0, date7@)
                == idx as int,
            None => spec_find_month(months@, 0, date7@) == -1,
        },
{
    let n = months.len();
    let mut i: usize = 0;
    while i < n
        invariant
            n == months@.len(),
            i <= n,
            spec_find_month(months@, i as int, date7@) == spec_find_month(months@, 0, date7@),
        decreases n - i,
    {
        if str_contains(months[i].first_day.as_str(), date7) {
            return Some(i);
        }
        i += 1;
    }
    None
}

/// Group the upstream calendar's weeks into month groups by each day's
/// date prefix, splitting a week column at a month boundary.
pub fn group_activity_months(calendar: &GithubCalendar) -> (r: Vec<ActivityMonth>)
    ensures
        months_view(r@) == spec_group_months(*calendar),
{
    let ghost target = spec_group_months(*calendar);
    let mut activity: Vec<ActivityMonth> = Vec::new();
    let mut month: Option<ActivityMonth> = None;
    let mut wi: usize = 0;
    proof {
        assert(months_view(activity@) =~= Seq::<MonthV>::empty());
    }
    while wi < calendar.weeks.len()
        invariant
            wi <= calendar.weeks@.len(),
            spec_group_rec(
                calendar.weeks@,
                calendar.months@,
                wi as int,
                0,
                months_view(activity@),
                opt_month_view(month),
                Seq::empty(),
            ) == target,
        decreases calendar.weeks@.len() - wi,
    {
        let week = &calendar.weeks[wi];
        let mut week_data: Vec<ActivityDay> = Vec::new();
        let mut di: usize = 0;
        proof {
            assert(week_data@.map_values(|d: ActivityDay| d@) =~= Seq::<DayV>::empty());
        }
        while di < week.contribution_days.len()
            invariant
                wi < calendar.weeks@.len(),
                week == &calendar.weeks@[wi as int],
                di <= week.contribution_days@.len(),
                spec_group_rec(
                    calendar.weeks@,
                    calendar.months@,
                    wi as int,
                    di as int,
                    months_view(activity@),
                    opt_month_view(month),
                    week_data@.map_values(|d: ActivityDay| d@),
                ) == target,
            decreases week.contribution_days@.len() - di,
        {
            let day = &week.contribution_days[di];
            let dlen = day.date.as_str().unicode_len();
            let d7: &str = if dlen >= 7 {
                day.date.as_str().substring_char(0, 7)
            } else {
                day.date.as_str()
            };
            proof {
                assert(d7@ == spec_date7(day.date@));
            }
            match find_month(&calendar.months, d7) {
                None => {},
                Some(found) => {
                    let nm = &calendar.months[found].name;
                    let ghost pre_cur = opt_month_view(month);
                    let ghost fname = calendar.months@[found as int].name@;
                    let cur_month = match month {
                        None => ActivityMonth { name: nm.clone(), weeks: Vec::new() },
                        Some(m) => m,
                    };
                    proof {
                        let cur1v = match pre_cur {
                            None => MonthV { name: fname, weeks: Seq::empty() },
                            Some(mv) => mv,
                        };
                        if pre_cur is None {
                            assert(cur_month@.weeks =~= Seq::<WeekV>::empty());
                        }
                        assert(cur_month@ == cur1v);
                    }
                    let newday = ActivityDay {
                        count: day.contribution_count,
                        weekday: day.weekday,
                        color: day.color.clone(),
                    };
                    if !str_eq(cur_month.name.as_str(), nm.as_str()) {
                        let ghost old_acc = months_view(activity@);
                        let ghost old_week = week_data@.map_values(|d: ActivityDay| d@);
                        let ghost old_cur = cur_month@;
                        let mut closed = cur_month;
                        closed.weeks.push(ActivityWeek { days: week_data });
                        proof {
                            assert(closed@.weeks =~= old_cur.weeks.push(
                                WeekV { days: old_week },
                            ));
                        }
                        activity.push(closed);
                        week_data = Vec::new();
                        week_data.push(newday);
                        month = Some(ActivityMonth { name: nm.clone(), weeks: Vec::new() });
                        proof {
                            assert(months_view(activity@) =~= old_acc.push(
                                MonthV {
                                    name: old_cur.name,
                                    weeks: old_cur.weeks.push(WeekV { days: old_week }),
                                },
                            ));
                            assert(week_data@.map_values(|d: ActivityDay| d@) =~= seq![newday@]);
                            assert(opt_month_view(month) == Some(
                                MonthV { name: nm@, weeks: Seq::empty() },
                            )) by {
                                assert(month matches Some(m) && m@.weeks =~= Seq::<
                                    WeekV,
                                >::empty());
                            }
                        }
                    } else {
                        let ghost old_week = week_data@.map_values(|d: ActivityDay| d@);
                        week_data.push(newday);
                        month = Some(cur_month);
                        proof {
                            assert(week_data@.map_values(|d: ActivityDay| d@) =~= old_week.push(
                                newday@,
                            ));
                        }
                    }
                },
            }
            di += 1;
        }
        // attach the finished week buffer to the open month
        let ghost old_cur2 = opt_month_view(month);
        let ghost old_week2 = week_data@.map_values(|d: ActivityDay| d@);
        month = match month {
            Some(m) => {
                let mut m2 = m;
                m2.weeks.push(ActivityWeek { days: week_data });
                proof {
                    assert(m2@.weeks =~= old_cur2->Some_0.weeks.push(WeekV { days: old_week2 }));
                }
                Some(m2)
            },
            None => None,
        };
        proof {
            assert(opt_month_view(month) == spec_close_week(old_cur2, old_week2));
        }
        wi += 1;
    }
    let ghost old_acc3 = months_view(activity@);
    match month {
        Some(m) => {
            let ghost mv = m@;
            activity.push(m);
            proof {
                assert(months_view(activity@) =~= old_acc3.push(mv));
            }
        },
        None => {},
    }
    activity
}

/// Classify a calendar query answer: an error payload goes through the
/// error decision table; a success payload whose user field is null
/// means the account does not exist (never an unknown error); else the
/// activity data is handed on.
pub fn normalize_activity(resp: crate::api::github::ActivityResponse) -> (r: Result<
    crate::api::github::UserActivity,
    PreparedTemplate,
>)
    ensures
        match resp {
            crate::api::github::GraphQLResponse::Failed(err) => r matches Err(t) && t
                == crate::prepared_templates::spec_gh_error_class(err.message@),
            crate::api::github::GraphQLResponse::Valid(ok) => match ok.data.user {
                None => r matches Err(t) && t == PreparedTemplate::FailedFindUser,
                Some(user) => r matches Ok(u) && u == user,
            },
        },
{
    match resp {
        crate::api::github::GraphQLResponse::Failed(err) => Err(
            crate::prepared_templates::gh_handle_error_template(err),
        ),
        crate::api::github::GraphQLResponse::Valid(ok) => match ok.data.user {
            None => Err(PreparedTemplate::FailedFindUser),
            Some(user) => Ok(user),
        },
    }
}

/// The cache fingerprint of a calendar query.
pub open spec fn spec_activity_cache_key(username: Seq<char>, period: Seq<char>) -> Seq<char> {
    "github:activity:"@ + username + seq![':'] + period
}

/// Build the cache fingerprint of a calendar query.
pub fn make_activity_cache_key(username: &String, period: &String) -> (r: String)
    ensures
        r@ == spec_activity_cache_key(username@, period@),
{
    let mut s = String::from_str("github:activity:");
    s.append(username.as_str());
    s.append(":");
    s.append(period.as_str());
    proof {
        reveal_strlit(":");
        assert(s@ =~= spec_activity_cache_key(username@, period@));
    }
    s
}

/// An empty user name can never match an account.
pub fn check_activity_subject(username: &String) -> (r: Result<(), PreparedTemplate>)
    ensures
        r is Err <==> username@.len() == 0,
        r matches Err(t) ==> t == PreparedTemplate::FailedFindUser,
{
    if username.as_str().is_empty() {
        Err(PreparedTemplate::FailedFindUser)
    } else {
        Ok(())
    }
}

/// The sweep cursor of the day grid: the pen position and the x of the
/// most recently drawn day.
pub struct CalCursor {
    pub x: int,
    pub y: int,
    pub last: int,
}

/// Executable counterpart of the sweep cursor.
#[derive(Debug, Clone, Copy)]
pub struct Cursor {
    pub x: u64,
    pub y: u64,
    pub last: u64,
}

impl View for Cursor {
    type V = CalCursor;

    open spec fn view(&self) -> CalCursor {
        CalCursor { x: self.x as int, y: self.y as int, last: self.last as int }
    }
}

/// A day's fill color: one of the five stock keys is remapped through
/// the theme's activity ramp, any other color is used as given.
pub open spec fn spec_day_color(d: DayV, theme: Theme) -> Seq<char> {
    match spec_activity_color_from_key(d.color) {
        Some(c) => spec_activity_color(theme, c),
        None => d.color,
    }
}

/// One day cell's markup.
pub open spec fn spec_day_rect(x: int, y: int, color: Seq<char>) -> Seq<char> {
    "<rect x=\""@ + spec_digits(x) + "\" y=\""@ + spec_digits(y)
        + "\" width=\"12\" height=\"12\" rx=\"2\" fill=\""@ + color + "\" />"@
}

/// Advance the cursor past one day: remember its x, step down one cell,
/// and on the last weekday jump one column right and back to the top.
pub open spec fn spec_day_step(d: DayV, st: CalCursor, base: int) -> CalCursor {
    if d.weekday == 6 {
        CalCursor { x: spec_cap_u64(st.x + 16), y: base, last: st.x }
    } else {
        CalCursor { x: st.x, y: spec_cap_u64(st.y + 16), last: st.x }
    }
}

/// Render the days from position i on: each day's cell at the cursor,
/// then the stepped cursor.
pub open spec fn spec_days_render(
    days: Seq<DayV>,
    i: int,
    st: CalCursor,
    base: int,
    theme: Theme,
) -> (Seq<Seq<char>>, CalCursor)
    decreases days.len() - i,
{
    if i < 0 || i >= days.len() {
        (Seq::empty(), st)
    } else {
        let el = spec_day_rect(st.x, st.y, spec_day_color(days[i], theme));
        let rest = spec_days_render(days, i + 1, spec_day_step(days[i], st, base), base, theme);
        (seq![el] + rest.0, rest.1)
    }
}

/// Render the week columns from position i on, each grouped.
pub open spec fn spec_weeks_render(
    weeks: Seq<WeekV>,
    i: int,
    st: CalCursor,
    base: int,
    theme: Theme,
) -> (Seq<Seq<char>>, CalCursor)
    decreases weeks.len() - i,
{
    if i < 0 || i >= weeks.len() {
        (Seq::empty(), st)
    } else {
        let inner = spec_days_render(weeks[i].days, 0, st, base, theme);
        let wstr = "<g>"@ + spec_join_with(inner.0, "\n"@) + "</g>"@;
        let rest = spec_weeks_render(weeks, i + 1, inner.1, base, theme);
        (seq![wstr] + rest.0, rest.1)
    }
}

/// Render the month groups from position i on, each grouped.
pub open spec fn spec_months_render(
    months: Seq<MonthV>,
    i: int,
    st: CalCursor,
    base: int,
    theme: Theme,
) -> (Seq<Seq<char>>, CalCursor)
    decreases months.len() - i,
{
    if i < 0 || i >= months.len() {
        (Seq::empty(), st)
    } else {
        let inner = spec_weeks_render(months[i].weeks, 0, st, base, theme);
        let mstr = "<g>"@ + spec_join_with(inner.0, "\n"@) + "</g>"@;
        let rest = spec_months_render(months, i + 1, inner.1, base, theme);
        (seq![mstr] + rest.0, rest.1)
    }
}

/// One legend text element.
pub open spec fn spec_legend_text(x: int, y: int, color: Seq<char>, label: Seq<char>) -> Seq<
    char,
> {
    "<text x=\""@ + spec_digits(x) + "\" y=\""@ + spec_digits(y) + "\" fill=\""@ + color
        + "\" class=\"legend-text\">"@ + label + "</text>"@
}

/// The month labels from position i on: each label sits at the running
/// x, nudged 8px right when the previous month spanned exactly one week
/// column; the x advances one cell per counted week column (at most
/// four), plus a 5px kicker for months of five or more columns.
pub open spec fn spec_month_legend_els(
    months: Seq<MonthV>,
    i: int,
    sx: int,
    prev_one: bool,
    y: int,
    color: Seq<char>,
) -> Seq<Seq<char>>
    decreases months.len() - i,
{
    if i < 0 || i >= months.len() {
        Seq::empty()
    } else {
        let off = if prev_one {
            spec_cap_u64(sx + 8)
        } else {
            sx
        };
        let el = spec_legend_text(off, y, color, months[i].name);
        let wc = months[i].weeks.len() as int;
        let kick: int = if wc >= 5 {
            5
        } else {
            0
        };
        let counted: int = if wc < 4 {
            wc
        } else {
            4
        };
        let sx2 = spec_cap_u64(sx + 16 * counted + kick);
        seq![el] + spec_month_legend_els(months, i + 1, sx2, wc == 1, y, color)
    }
}

/// The fixed three-row weekday legend.
pub open spec fn spec_week_legend(base: int, color: Seq<char>) -> Seq<char> {
    spec_join_with(
        seq![
            spec_legend_text(20, base + 28, color, "Mon"@),
            spec_legend_text(20, base + 60, color, "Wed"@),
            spec_legend_text(20, base + 92, color, "Fri"@),
        ],
        "\n"@,
    )
}

/// Image width from the last drawn day's x, clamped to a u32.
pub open spec fn spec_image_width(last: int) -> int {
    let w = spec_cap_u64(last + 32);
    if w > u32::MAX as int {
        u32::MAX as int
    } else {
        w
    }
}

fn day_rect(x: u64, y: u64, color: &String) -> (r: String)
    ensures
        r@ == spec_day_rect(x as int, y as int, color@),
{
    let mut s = String::from_str("<rect x=\"");
    let xs = u64_to_string(x);
    s.append(xs.as_str());
    s.append("\" y=\"");
    let ys = u64_to_string(y);
    s.append(ys.as_str());
    s.append("\" width=\"12\" height=\"12\" rx=\"2\" fill=\"");
    s.append(color.as_str());
    s.append("\" />");
    proof {
        assert(s@ =~= spec_day_rect(x as int, y as int, color@));
    }
    s
}

fn legend_text(x: u64, y: u64, color: &String, label: &str) -> (r: String)
    ensures
        r@ == spec_legend_text(x as int, y as int, color@, label@),
{
    let mut s = String::from_str("<text x=\"");
    let xs = u64_to_string(x);
    s.append(xs.as_str());
    s.append("\" y=\"");
    let ys = u64_to_string(y);
    s.append(ys.as_str());
    s.append("\" fill=\"");
    s.append(color.as_str());
    s.append("\" class=\"legend-text\">");
    s.append(label);
    s.append("</text>");
    proof {
        assert(s@ =~= spec_legend_text(x as int, y as int, color@, label@));
    }
    s
}

fn day_color(day: &ActivityDay, theme: Theme) -> (r: String)
    ensures
        r@ == spec_day_color(day@, theme),
{
    match ActivityColor::from_key(day.color.as_str()) {
        Some(c) => theme.get_activity_color(c),
        None => day.color.clone(),
    }
}

fn render_week(week: &ActivityWeek, cur: Cursor, base: u64, theme: Theme) -> (r: (String, Cursor))
    ensures
        ({
            let sp = spec_days_render(week@.days, 0, cur@, base as int, theme);
            &&& r.0@ == "<g>"@ + spec_join_with(sp.0, "\n"@) + "</g>"@
            &&& r.1@ == sp.1
        }),
{
    let ghost dv = week@.days;
    let ghost target = spec_days_render(dv, 0, cur@, base as int, theme);
    let mut parts: Vec<String> = Vec::new();
    let mut st = cur;
    let mut i: usize = 0;
    proof {
        assert(parts@.map_values(|p: String| p@) =~= Seq::<Seq<char>>::empty());
    }
    while i < week.days.len()
        invariant
            dv == week@.days,
            i <= week.days@.len(),
            target == spec_days_render(dv, 0, cur@, base as int, theme),
            parts@.map_values(|p: String| p@) + spec_days_render(
                dv,
                i as int,
                st@,
                base as int,
                theme,
            ).0 == target.0,
            spec_days_render(dv, i as int, st@, base as int, theme).1 == target.1,
        decreases week.days@.len() - i,
    {
        let day = &week.days[i];
        proof {
            assert(dv[i as int] == day@);
        }
        let color = day_color(day, theme);
        let el = day_rect(st.x, st.y, &color);
        let ghost old_parts = parts@.map_values(|p: String| p@);
        parts.push(el);
        proof {
            assert(parts@.map_values(|p: String| p@) =~= old_parts.push(
                spec_day_rect(st@.x, st@.y, spec_day_color(dv[i as int], theme)),
            ));
            assert(old_parts.push(spec_day_rect(st@.x, st@.y, spec_day_color(dv[i as int], theme)))
                + spec_days_render(
                dv,
                i as int + 1,
                spec_day_step(dv[i as int], st@, base as int),
                base as int,
                theme,
            ).0 =~= old_parts + spec_days_render(dv, i as int, st@, base as int, theme).0);
        }
        let last2 = st.x;
        if day.weekday == 6 {
            st = Cursor { x: sat_add_u64(st.x, DAY_BLOCK_SIZE), y: base, last: last2 };
        } else {
            st = Cursor { x: st.x, y: sat_add_u64(st.y, DAY_BLOCK_SIZE), last: last2 };
        }
        i += 1;
    }
    proof {
        assert(spec_days_render(dv, i as int, st@, base as int, theme).0 =~= Seq::<
            Seq<char>,
        >::empty());
        assert(parts@.map_values(|p: String| p@) + Seq::<Seq<char>>::empty() =~= parts@.map_values(
            |p: String| p@,
        ));
    }
    let mut s = String::from_str("<g>");
    let joined = join_with(&parts, "\n");
    s.append(joined.as_str());
    s.append("</g>");
    proof {
        assert(s@ =~= "<g>"@ + spec_join_with(target.0, "\n"@) + "</g>"@);
    }
    (s, st)
}

fn render_month_cells(month: &ActivityMonth, cur: Cursor, base: u64, theme: Theme) -> (r: (
    String,
    Cursor,
))
    ensures
        ({
            let sp = spec_weeks_render(month@.weeks, 0, cur@, base as int, theme);
            &&& r.0@ == "<g>"@ + spec_join_with(sp.0, "\n"@) + "</g>"@
            &&& r.1@ == sp.1
        }),
{
    let ghost wv = month@.weeks;
    let ghost target = spec_weeks_render(wv, 0, cur@, base as int, theme);
    let mut parts: Vec<String> = Vec::new();
    let mut st = cur;
    let mut i: usize = 0;
    proof {
        assert(parts@.map_values(|p: String| p@) =~= Seq::<Seq<char>>::empty());
    }
    while i < month.weeks.len()
        invariant
            wv == month@.weeks,
            i <= month.weeks@.len(),
            target == spec_weeks_render(wv, 0, cur@, base as int, theme),
            parts@.map_values(|p: String| p@) + spec_weeks_render(
                wv,
                i as int,
                st@,
                base as int,
                theme,
            ).0 == target.0,
            spec_weeks_render(wv, i as int, st@, base as int, theme).1 == target.1,
        decreases month.weeks@.len() - i,
    {
        let week = &month.weeks[i];
        proof {
            assert(wv[i as int] == week@);
        }
        let ghost old_st = st@;
        let (wstr, st2) = render_week(week, st, base, theme);
        let ghost old_parts = parts@.map_values(|p: String| p@);
        let ghost inner = spec_days_render(wv[i as int].days, 0, old_st, base as int, theme);
        parts.push(wstr);
        st = st2;
        proof {
            assert(parts@.map_values(|p: String| p@) =~= old_parts.push(
                "<g>"@ + spec_join_with(inner.0, "\n"@) + "</g>"@,
            ));
            assert(old_parts.push("<g>"@ + spec_join_with(inner.0, "\n"@) + "</g>"@)
                + spec_weeks_render(wv, i as int + 1, inner.1, base as int, theme).0 =~= old_parts
                + spec_weeks_render(wv, i as int, old_st, base as int, theme).0);
        }
        i += 1;
    }
    proof {
        assert(spec_weeks_render(wv, i as int, st@, base as int, theme).0 =~= Seq::<
            Seq<char>,
        >::empty());
        assert(parts@.map_values(|p: String| p@) + Seq::<Seq<char>>::empty() =~= parts@.map_values(
            |p: String| p@,
        ));
    }
    let mut s = String::from_str("<g>");
    let joined = join_with(&parts, "\n");
    s.append(joined.as_str());
    s.append("</g>");
    proof {
        assert(s@ =~= "<g>"@ + spec_join_with(target.0, "\n"@) + "</g>"@);
    }
    (s, st)
}

/// Bind grouped activity months into the calendar card: the day grid
/// swept left to right and top to bottom, the month and weekday
/// legends, and the image dimensions; a failure binds the matching
/// error card instead.
pub fn render_activity(
    username: String,
    with_title: bool,
    theme: Theme,
    activity_res: Result<Vec<ActivityMonth>, PreparedTemplate>,
) -> (r: Result<CompactActivityTemplate, ErrorTemplate>)
    requires
        activity_res matches Ok(v) ==> v@.len() > 0 && v@[0].weeks@.len() > 0
            && v@[0].weeks@[0].days@.len() > 0 && 0 <= v@[0].weeks@[0].days@[0].weekday <= 6,
    ensures
        activity_res matches Err(t) ==> r matches Err(e) && e.first_line@ == spec_error_lines(
            t,
        ).0 && e.second_line@ == spec_error_lines(t).1,
        activity_res matches Ok(v) ==> r matches Ok(c) && {
            let base: int = if with_title {
                67
            } else {
                35
            };
            let first = v@[0].weeks@[0].days@[0];
            let st0 = CalCursor { x: 50, y: base + 16 * first.weekday, last: 50 };
            let sp = spec_months_render(months_view(v@), 0, st0, base, theme);
            &&& c.name@ == username@
            &&& c.theme_data@ == spec_theme_data(theme)
            &&& c.stats_data@ == spec_join_with(sp.0, "\n"@)
            &&& c.months_legend@ == spec_join_with(
                spec_month_legend_els(
                    months_view(v@),
                    0,
                    50,
                    false,
                    base - 6,
                    spec_theme_data(theme).text,
                ),
                "\n"@,
            )
            &&& c.week_legend@ == spec_week_legend(base, spec_theme_data(theme).text)
            &&& c.width as int == spec_image_width(sp.1.last)
            &&& c.height == (if with_title {
                195u32
            } else {
                163u32
            })
            &&& c.with_title == with_title
        },
{
    let stats = match activity_res {
        Err(t) => {
            return Err(t.render());
        },
        Ok(stats) => stats,
    };
    let theme_data = theme.get_data();
    let base: u64 = if with_title {
        67
    } else {
        35
    };
    let height: u32 = if with_title {
        195
    } else {
        163
    };
    let first_weekday = stats[0].weeks[0].days[0].weekday;
    let ghost sv = months_view(stats@);
    let st0 = Cursor {
        x: DEFAULT_START_X,
        y: base + DAY_BLOCK_SIZE * (first_weekday as u64),
        last: DEFAULT_START_X,
    };
    let ghost target = spec_months_render(sv, 0, st0@, base as int, theme);
    // the day grid, month group by month group
    let mut parts: Vec<String> = Vec::new();
    let mut st = st0;
    let mut i: usize = 0;
    proof {
        assert(parts@.map_values(|p: String| p@) =~= Seq::<Seq<char>>::empty());
    }
    while i < stats.len()
        invariant
            sv == months_view(stats@),
            i <= sv.len(),
            base == 67 || base == 35,
            theme_data@ == spec_theme_data(theme),
            target == spec_months_render(sv, 0, st0@, base as int, theme),
            parts@.map_values(|p: String| p@) + spec_months_render(
                sv,
                i as int,
                st@,
                base as int,
                theme,
            ).0 == target.0,
            spec_months_render(sv, i as int, st@, base as int, theme).1 == target.1,
        decreases sv.len() - i,
    {
        let month = &stats[i];
        proof {
            assert(sv[i as int] == month@);
        }
        let ghost old_st = st@;
        let (mstr, st2) = render_month_cells(month, st, base, theme);
        let ghost old_parts = parts@.map_values(|p: String| p@);
        let ghost inner = spec_weeks_render(month@.weeks, 0, old_st, base as int, theme);
        parts.push(mstr);
        st = st2;
        proof {
            assert(parts@.map_values(|p: String| p@) =~= old_parts.push(
                "<g>"@ + spec_join_with(inner.0, "\n"@) + "</g>"@,
            ));
            assert(old_parts.push("<g>"@ + spec_join_with(inner.0, "\n"@) + "</g>"@)
                + spec_months_render(sv, i as int + 1, inner.1, base as int, theme).0
                =~= old_parts + spec_months_render(sv, i as int, old_st, base as int, theme).0);
        }
        i += 1;
    }
    proof {
        assert(spec_months_render(sv, i as int, st@, base as int, theme).0 =~= Seq::<
            Seq<char>,
        >::empty());
        assert(parts@.map_values(|p: String| p@) + Seq::<Seq<char>>::empty() =~= parts@.map_values(
            |p: String| p@,
        ));
    }
    let stats_data = join_with(&parts, "\n");
    // month labels
    let ghost legend_target = spec_month_legend_els(
        sv,
        0,
        50,
        false,
        base as int - 6,
        spec_theme_data(theme).text,
    );
    let legend_y: u64 = base - 6;
    let mut legend_parts: Vec<String> = Vec::new();
    let mut sx: u64 = 50;
    let mut prev_one = false;
    let mut j: usize = 0;
    proof {
        assert(legend_parts@.map_values(|p: String| p@) =~= Seq::<Seq<char>>::empty());
    }
    while j < stats.len()
        invariant
            sv == months_view(stats@),
            j <= sv.len(),
            legend_y == base - 6,
            base == 67 || base == 35,
            theme_data@ == spec_theme_data(theme),
            legend_parts@.map_values(|p: String| p@) + spec_month_legend_els(
                sv,
                j as int,
                sx as int,
                prev_one,
                legend_y as int,
                spec_theme_data(theme).text,
            ) == spec_month_legend_els(
                sv,
                0,
                50,
                false,
                legend_y as int,
                spec_theme_data(theme).text,
            ),
        decreases sv.len() - j,
    {
        let month = &stats[j];
        proof {
            assert(sv[j as int] == month@);
        }
        let off: u64 = if prev_one {
            sat_add_u64(sx, 8)
        } else {
            sx
        };
        let el = legend_text(off, legend_y, &theme_data.text, month.name.as_str());
        let ghost old_parts2 = legend_parts@.map_values(|p: String| p@);
        legend_parts.push(el);
        proof {
            assert(legend_parts@.map_values(|p: String| p@) =~= old_parts2.push(
                spec_legend_text(
                    off as int,
                    legend_y as int,
                    spec_theme_data(theme).text,
                    sv[j as int].name,
                ),
            ));
        }
        let wc = month.weeks.len();
        let counted: u64 = if wc < 4 {
            wc as u64
        } else {
            4
        };
        let kick: u64 = if wc >= 5 {
            5
        } else {
            0
        };
        let ghost old_sx = sx as int;
        let ghost old_prev = prev_one;
        sx = sat_add_u64(sx, DAY_BLOCK_SIZE * counted + kick);
        prev_one = wc == 1;
        proof {
            let ghost_wc = sv[j as int].weeks.len() as int;
            let ghost_counted: int = if ghost_wc < 4 {
                ghost_wc
            } else {
                4
            };
            let ghost_kick: int = if ghost_wc >= 5 {
                5
            } else {
                0
            };
            assert(sx as int == spec_cap_u64(old_sx + 16 * ghost_counted + ghost_kick));
            assert(old_parts2.push(
                spec_legend_text(
                    off as int,
                    legend_y as int,
                    spec_theme_data(theme).text,
                    sv[j as int].name,
                ),
            ) + spec_month_legend_els(
                sv,
                j as int + 1,
                sx as int,
                prev_one,
                legend_y as int,
                spec_theme_data(theme).text,
            ) =~= old_parts2 + spec_month_legend_els(
                sv,
                j as int,
                old_sx,
                old_prev,
                legend_y as int,
                spec_theme_data(theme).text,
            ));
        }
        j += 1;
    }
    proof {
        assert(spec_month_legend_els(
            sv,
            j as int,
            sx as int,
            prev_one,
            legend_y as int,
            spec_theme_data(theme).text,
        ) =~= Seq::<Seq<char>>::empty());
        assert(legend_parts@.map_values(|p: String| p@) + Seq::<Seq<char>>::empty()
            =~= legend_parts@.map_values(|p: String| p@));
    }
    let months_legend = join_with(&legend_parts, "\n");
    // weekday legend
    let mut week_parts: Vec<String> = Vec::new();
    let l1 = legend_text(20, base + 28, &theme_data.text, "Mon");
    week_parts.push(l1);
    let l2 = legend_text(20, base + 60, &theme_data.text, "Wed");
    week_parts.push(l2);
    let l3 = legend_text(20, base + 92, &theme_data.text, "Fri");
    week_parts.push(l3);
    proof {
        assert(week_parts@.map_values(|p: String| p@) =~= seq![
            spec_legend_text(20, base as int + 28, spec_theme_data(theme).text, "Mon"@),
            spec_legend_text(20, base as int + 60, spec_theme_data(theme).text, "Wed"@),
            spec_legend_text(20, base as int + 92, spec_theme_data(theme).text, "Fri"@),
        ]);
    }
    let week_legend = join_with(&week_parts, "\n");
    let w64 = sat_add_u64(st.last, 32);
    let width: u32 = if w64 > 0xffff_ffff {
        u32::MAX
    } else {
        w64 as u32
    };
    Ok(
        CompactActivityTemplate {
            name: username,
            theme_data,
            stats_data,
            months_legend,
            week_legend,
            width,
            height,
            with_title,
        },
    )
}

/// The y coordinate each day from position i on is drawn at.
pub open spec fn spec_day_ys(days: Seq<DayV>, i: int, st: CalCursor, base: int) -> Seq<
    int,
>
    decreases days.len() - i,
{
    if i < 0 || i >= days.len() {
        Seq::empty()
    } else {
        seq![st.y] + spec_day_ys(days, i + 1, spec_day_step(days[i], st, base), base)
    }
}

/// The day stream is weekday-aligned from position i on: the next day
/// has weekday w, and each later day's weekday is its predecessor's
/// successor, wrapping from six to zero. Upstream calendars list days
/// this way; the sweep's y tracking relies on it.
pub open spec fn spec_aligned_days(days: Seq<DayV>, i: int, w: int) -> bool
    decreases days.len() - i,
{
    if i < 0 || i >= days.len() {
        true
    } else {
        &&& days[i].weekday == w
        &&& 0 <= w <= 6
        &&& spec_aligned_days(days, i + 1, if w == 6 {
            0int
        } else {
            w + 1
        })
    }
}

/// LAW — on a weekday-aligned day stream whose cursor starts one cell
/// per weekday below the base line, every day cell's y coordinate lies
/// within [base, base + 6 cells].
pub proof fn lemma_day_ys_in_range(days: Seq<DayV>, i: int, st: CalCursor, base: int, w: int)
    requires
        0 <= w <= 6,
        0 <= base,
        base + 112 <= u64::MAX,
        spec_aligned_days(days, i, w),
        st.y == base + 16 * w,
    ensures
        forall|t: int|
            0 <= t < spec_day_ys(days, i, st, base).len() ==> base <= #[trigger] spec_day_ys(
                days,
                i,
                st,
                base,
            )[t] <= base + 96,
    decreases days.len() - i,
{
    if 0 <= i && i < days.len() {
        let st2 = spec_day_step(days[i], st, base);
        let w2: int = if w == 6 {
            0
        } else {
            w + 1
        };
        lemma_day_ys_in_range(days, i + 1, st2, base, w2);
        let ys = spec_day_ys(days, i, st, base);
        let tail = spec_day_ys(days, i + 1, st2, base);
        assert(ys =~= seq![st.y] + tail);
        assert forall|t: int| 0 <= t < ys.len() implies base <= #[trigger] ys[t] <= base + 96 by {
            if t == 0 {
                assert(ys[0] == st.y);
            } else {
                assert(ys[t] == tail[t - 1]);
            }
        }
    }
}

/// LAW — a day on the last weekday advances the cursor one column
/// right and resets its y to the base line.
pub proof fn lemma_weekday_six_advances(d: DayV, st: CalCursor, base: int)
    requires
        d.weekday == 6,
    ensures
        spec_day_step(d, st, base).y == base,
        spec_day_step(d, st, base).x == spec_cap_u64(st.x + 16),
{
}

/// All day cells of the week columns from position i on, in emission
/// order, the cursor threading through them exactly as the renderer
/// threads it (the renderer joins each column's cells into one group;
/// this keeps them as a sequence).
pub open spec fn spec_weeks_day_cells(
    weeks: Seq<WeekV>,
    i: int,
    st: CalCursor,
    base: int,
    theme: Theme,
) -> Seq<Seq<char>>
    decreases weeks.len() - i,
{
    if i < 0 || i >= weeks.len() {
        Seq::empty()
    } else {
        let inner = spec_days_render(weeks[i].days, 0, st, base, theme);
        inner.0 + spec_weeks_day_cells(weeks, i + 1, inner.1, base, theme)
    }
}

/// All day cells of the month groups from position i on, in emission
/// order, cursor-threaded as the renderer threads it.
pub open spec fn spec_months_day_cells(
    months: Seq<MonthV>,
    i: int,
    st: CalCursor,
    base: int,
    theme: Theme,
) -> Seq<Seq<char>>
    decreases months.len() - i,
{
    if i < 0 || i >= months.len() {
        Seq::empty()
    } else {
        let inner = spec_weeks_render(months[i].weeks, 0, st, base, theme);
        spec_weeks_day_cells(months[i].weeks, 0, st, base, theme) + spec_months_day_cells(
            months,
            i + 1,
            inner.1,
            base,
            theme,
        )
    }
}

proof fn lemma_weeks_cells_flat(weeks: Seq<WeekV>, i: int, st: CalCursor, base: int, theme: Theme)
    ensures
        spec_weeks_day_cells(weeks, i, st, base, theme) == spec_days_render(
            spec_flat_week_days(weeks, i),
            0,
            st,
            base,
            theme,
        ).0,
        spec_weeks_render(weeks, i, st, base, theme).1 == spec_days_render(
            spec_flat_week_days(weeks, i),
            0,
            st,
            base,
            theme,
        ).1,
    decreases weeks.len() - i,
{
    if i < 0 || i >= weeks.len() {
        assert(spec_weeks_day_cells(weeks, i, st, base, theme) =~= spec_days_render(
            spec_flat_week_days(weeks, i),
            0,
            st,
            base,
            theme,
        ).0);
    } else {
        let inner = spec_days_render(weeks[i].days, 0, st, base, theme);
        lemma_weeks_cells_flat(weeks, i + 1, inner.1, base, theme);
        lemma_days_render_concat_from(
            weeks[i].days,
            spec_flat_week_days(weeks, i + 1),
            st,
            base,
            theme,
            0,
        );
    }
}

proof fn lemma_months_cells_flat(
    months: Seq<MonthV>,
    i: int,
    st: CalCursor,
    base: int,
    theme: Theme,
)
    ensures
        spec_months_day_cells(months, i, st, base, theme) == spec_days_render(
            spec_flat_month_days(months, i),
            0,
            st,
            base,
            theme,
        ).0,
        spec_months_render(months, i, st, base, theme).1 == spec_days_render(
            spec_flat_month_days(months, i),
            0,
            st,
            base,
            theme,
        ).1,
    decreases months.len() - i,
{
    if i < 0 || i >= months.len() {
        assert(spec_months_day_cells(months, i, st, base, theme) =~= spec_days_render(
            spec_flat_month_days(months, i),
            0,
            st,
            base,
            theme,
        ).0);
    } else {
        let inner = spec_weeks_render(months[i].weeks, 0, st, base, theme);
        lemma_weeks_cells_flat(months[i].weeks, 0, st, base, theme);
        lemma_months_cells_flat(months, i + 1, inner.1, base, theme);
        lemma_days_render_concat_from(
            spec_flat_week_days(months[i].weeks, 0),
            spec_flat_month_days(months, i + 1),
            st,
            base,
            theme,
            0,
        );
    }
}

/// LAW — over a whole render: when the calendar's days, flattened over
/// its month groups and week columns in emission order, are
/// weekday-aligned, and the cursor starts one cell per weekday below
/// the base line (exactly how the calendar renderer starts it), then
/// every day cell the render emits is a rect at the flat stream's
/// projected coordinates and its y lies within [base, base + 6 cells].
pub proof fn lemma_render_day_cells_in_range(
    months: Seq<MonthV>,
    st0: CalCursor,
    base: int,
    theme: Theme,
    w0: int,
)
    requires
        0 <= w0 <= 6,
        0 <= base,
        base + 112 <= u64::MAX,
        spec_aligned_days(spec_flat_month_days(months, 0), 0, w0),
        st0.y == base + 16 * w0,
    ensures
        ({
            let flat = spec_flat_month_days(months, 0);
            let cells = spec_months_day_cells(months, 0, st0, base, theme);
            let xs = spec_day_xs(flat, 0, st0, base);
            let ys = spec_day_ys(flat, 0, st0, base);
            &&& cells == spec_days_render(flat, 0, st0, base, theme).0
            &&& cells.len() == ys.len()
            &&& forall|t: int|
                #![trigger ys[t]]
                0 <= t < ys.len() ==> {
                    &&& base <= ys[t] <= base + 96
                    &&& cells[t] == spec_day_rect(xs[t], ys[t], spec_day_color(flat[t], theme))
                }
        }),
{
    let flat = spec_flat_month_days(months, 0);
    lemma_months_cells_flat(months, 0, st0, base, theme);
    lemma_day_ys_in_range(flat, 0, st0, base, w0);
    lemma_day_cells_at_projected_coords(flat, 0, st0, base, theme);
}

/// LAW — in any day stream's projections, a day on the last weekday is
/// immediately followed, when a day follows at all, by a cell one
/// column to the right, back on the base line.
pub proof fn lemma_projection_weekday_six(days: Seq<DayV>, i: int, st: CalCursor, base: int)
    ensures
        spec_day_ys(days, i, st, base).len() == spec_day_xs(days, i, st, base).len(),
        forall|t: int|
            #![trigger days[i + t]]
            0 <= t && t + 1 < spec_day_ys(days, i, st, base).len() && days[i + t].weekday == 6
                ==> spec_day_ys(days, i, st, base)[t + 1] == base && spec_day_xs(
                days,
                i,
                st,
                base,
            )[t + 1] == spec_cap_u64(spec_day_xs(days, i, st, base)[t] + 16),
    decreases days.len() - i,
{
    if 0 <= i && i < days.len() {
        let st2 = spec_day_step(days[i], st, base);
        lemma_projection_weekday_six(days, i + 1, st2, base);
        let ys = spec_day_ys(days, i, st, base);
        let xs = spec_day_xs(days, i, st, base);
        let ys_t = spec_day_ys(days, i + 1, st2, base);
        let xs_t = spec_day_xs(days, i + 1, st2, base);
        assert forall|t: int|
            #![trigger days[i + t]]
            0 <= t && t + 1 < ys.len() && days[i + t].weekday == 6 implies ys[t + 1] == base
            && xs[t + 1] == spec_cap_u64(xs[t] + 16) by {
            if t == 0 {
                assert(ys[1] == ys_t[0]);
                assert(xs[1] == xs_t[0]);
                assert(ys_t[0] == st2.y);
                assert(xs_t[0] == st2.x);
            } else {
                assert(days[(i + 1) + (t - 1)] == days[i + t]);
                assert(ys[t] == ys_t[t - 1]);
                assert(ys[t + 1] == ys_t[t]);
                assert(xs[t] == xs_t[t - 1]);
                assert(xs[t + 1] == xs_t[t]);
                assert(ys_t[t - 1 + 1] == ys_t[t]);
                assert(xs_t[t - 1 + 1] == xs_t[t]);
            }
        }
    }
}

/// The x coordinate each day from position i on is drawn at.
pub open spec fn spec_day_xs(days: Seq<DayV>, i: int, st: CalCursor, base: int) -> Seq<int>
    decreases days.len() - i,
{
    if i < 0 || i >= days.len() {
        Seq::empty()
    } else {
        seq![st.x] + spec_day_xs(days, i + 1, spec_day_step(days[i], st, base), base)
    }
}

/// The days of the week columns from position i on, in emission order.
pub open spec fn spec_flat_week_days(weeks: Seq<WeekV>, i: int) -> Seq<DayV>
    decreases weeks.len() - i,
{
    if i < 0 || i >= weeks.len() {
        Seq::empty()
    } else {
        weeks[i].days + spec_flat_week_days(weeks, i + 1)
    }
}

/// The days of the month groups from position i on, in emission order.
pub open spec fn spec_flat_month_days(months: Seq<MonthV>, i: int) -> Seq<DayV>
    decreases months.len() - i,
{
    if i < 0 || i >= months.len() {
        Seq::empty()
    } else {
        spec_flat_week_days(months[i].weeks, 0) + spec_flat_month_days(months, i + 1)
    }
}

proof fn lemma_days_render_shift(
    a: Seq<DayV>,
    b: Seq<DayV>,
    st: CalCursor,
    base: int,
    theme: Theme,
    j: int,
)
    requires
        0 <= j <= b.len(),
    ensures
        spec_days_render(a + b, a.len() + j, st, base, theme) == spec_days_render(
            b,
            j,
            st,
            base,
            theme,
        ),
        spec_day_ys(a + b, a.len() + j, st, base) == spec_day_ys(b, j, st, base),
        spec_day_xs(a + b, a.len() + j, st, base) == spec_day_xs(b, j, st, base),
    decreases b.len() - j,
{
    if j < b.len() {
        assert((a + b)[a.len() + j] == b[j]);
        lemma_days_render_shift(a, b, spec_day_step(b[j], st, base), base, theme, j + 1);
        assert(spec_days_render(a + b, a.len() + j, st, base, theme).0 =~= spec_days_render(
            b,
            j,
            st,
            base,
            theme,
        ).0);
        assert(spec_days_render(a + b, a.len() + j, st, base, theme) == spec_days_render(
            b,
            j,
            st,
            base,
            theme,
        ));
        assert(spec_day_ys(a + b, a.len() + j, st, base) =~= spec_day_ys(b, j, st, base));
        assert(spec_day_xs(a + b, a.len() + j, st, base) =~= spec_day_xs(b, j, st, base));
    } else {
        assert(spec_days_render(a + b, a.len() + j, st, base, theme).0 =~= spec_days_render(
            b,
            j,
            st,
            base,
            theme,
        ).0);
        assert(spec_days_render(a + b, a.len() + j, st, base, theme) == spec_days_render(
            b,
            j,
            st,
            base,
            theme,
        ));
        assert(spec_day_ys(a + b, a.len() + j, st, base) =~= spec_day_ys(b, j, st, base));
        assert(spec_day_xs(a + b, a.len() + j, st, base) =~= spec_day_xs(b, j, st, base));
    }
}

proof fn lemma_days_render_concat_from(
    a: Seq<DayV>,
    b: Seq<DayV>,
    st: CalCursor,
    base: int,
    theme: Theme,
    i: int,
)
    requires
        0 <= i <= a.len(),
    ensures
        spec_days_render(a + b, i, st, base, theme).0 == spec_days_render(a, i, st, base, theme).0
            + spec_days_render(b, 0, spec_days_render(a, i, st, base, theme).1, base, theme).0,
        spec_days_render(a + b, i, st, base, theme).1 == spec_days_render(
            b,
            0,
            spec_days_render(a, i, st, base, theme).1,
            base,
            theme,
        ).1,
        spec_day_ys(a + b, i, st, base) == spec_day_ys(a, i, st, base) + spec_day_ys(
            b,
            0,
            spec_days_render(a, i, st, base, theme).1,
            base,
        ),
        spec_day_xs(a + b, i, st, base) == spec_day_xs(a, i, st, base) + spec_day_xs(
            b,
            0,
            spec_days_render(a, i, st, base, theme).1,
            base,
        ),
    decreases a.len() - i,
{
    if i == a.len() {
        lemma_days_render_shift(a, b, st, base, theme, 0);
        assert(spec_day_ys(a + b, i, st, base) =~= spec_day_ys(a, i, st, base) + spec_day_ys(
            b,
            0,
            st,
            base,
        ));
        assert(spec_day_xs(a + b, i, st, base) =~= spec_day_xs(a, i, st, base) + spec_day_xs(
            b,
            0,
            st,
            base,
        ));
        assert(spec_days_render(a + b, i, st, base, theme).0 =~= spec_days_render(
            a,
            i,
            st,
            base,
            theme,
        ).0 + spec_days_render(b, 0, st, base, theme).0);
    } else {
        assert((a + b)[i] == a[i]);
        let st2 = spec_day_step(a[i], st, base);
        lemma_days_render_concat_from(a, b, st2, base, theme, i + 1);
        let fin = spec_days_render(a, i, st, base, theme).1;
        assert(spec_days_render(a + b, i, st, base, theme).0 =~= spec_days_render(
            a,
            i,
            st,
            base,
            theme,
        ).0 + spec_days_render(b, 0, fin, base, theme).0);
        assert(spec_day_ys(a + b, i, st, base) =~= spec_day_ys(a, i, st, base) + spec_day_ys(
            b,
            0,
            fin,
            base,
        ));
        assert(spec_day_xs(a + b, i, st, base) =~= spec_day_xs(a, i, st, base) + spec_day_xs(
            b,
            0,
            fin,
            base,
        ));
    }
}

/// The rendered day cells follow the same cursor as the coordinate
/// projections: the t-th emitted cell is drawn exactly at the t-th
/// projected x and y.
pub proof fn lemma_day_cells_at_projected_coords(
    days: Seq<DayV>,
    i: int,
    st: CalCursor,
    base: int,
    theme: Theme,
)
    ensures
        spec_days_render(days, i, st, base, theme).0.len() == spec_day_ys(
            days,
            i,
            st,
            base,
        ).len(),
        spec_day_xs(days, i, st, base).len() == spec_day_ys(days, i, st, base).len(),
        forall|t: int|
            #![trigger spec_day_ys(days, i, st, base)[t]]
            0 <= t < spec_day_ys(days, i, st, base).len() ==> spec_days_render(
                days,
                i,
                st,
                base,
                theme,
            ).0[t] == spec_day_rect(
                spec_day_xs(days, i, st, base)[t],
                spec_day_ys(days, i, st, base)[t],
                spec_day_color(days[i + t], theme),
            ),
    decreases days.len() - i,
{
    if 0 <= i && i < days.len() {
        let st2 = spec_day_step(days[i], st, base);
        lemma_day_cells_at_projected_coords(days, i + 1, st2, base, theme);
        let els = spec_days_render(days, i, st, base, theme).0;
        let ys = spec_day_ys(days, i, st, base);
        let xs = spec_day_xs(days, i, st, base);
        let els_t = spec_days_render(days, i + 1, st2, base, theme).0;
        let ys_t = spec_day_ys(days, i + 1, st2, base);
        let xs_t = spec_day_xs(days, i + 1, st2, base);
        assert forall|t: int|
            #![trigger ys[t]]
            0 <= t < ys.len() implies els[t] == spec_day_rect(
            xs[t],
            ys[t],
            spec_day_color(days[i + t], theme),
        ) by {
            if t == 0 {
                assert(els[0] == spec_day_rect(st.x, st.y, spec_day_color(days[i], theme)));
            } else {
                assert(els[t] == els_t[t - 1]);
                assert(ys[t] == ys_t[t - 1]);
                assert(xs[t] == xs_t[t - 1]);
                assert(ys_t[t - 1] == spec_day_ys(days, i + 1, st2, base)[t - 1]);
            }
        }
    }
}

} // verus!
