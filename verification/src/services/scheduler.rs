//! When the weekly rotation is due.
use vstd::prelude::*;
use vstd::string::*;

use crate::text::{ascii_lowercase_seq, lowercase_of, str_eq, to_lowercase};
use vstd::utf8::is_ascii_chars;
use crate::time::{
    day_number, hour_of_day, spec_day_number, spec_hour, spec_weekday, utc_weekday_index,
    Timestamp, MAX_EPOCH_SECS, MIN_EPOCH_SECS,
};

verus! {

/// A day of the week.
#[derive(Debug, Clone, Copy, PartialEq, Eq, Structural)]
pub enum Weekday {
    Mon,
    Tue,
    Wed,
    Thu,
    Fri,
    Sat,
    Sun,
}

impl Weekday {
    pub open spec fn spec_num_days_from_monday(self) -> u32 {
        match self {
            Weekday::Mon => 0,
            Weekday::Tue => 1,
            Weekday::Wed => 2,
            Weekday::Thu => 3,
            Weekday::Fri => 4,
            Weekday::Sat => 5,
            Weekday::Sun => 6,
        }
    }

    /// Days since the Monday that starts the week.
    pub fn num_days_from_monday(self) -> (r: u32)
        ensures
            r == self.spec_num_days_from_monday(),
    {
        match self {
            Weekday::Mon => 0,
            Weekday::Tue => 1,
            Weekday::Wed => 2,
            Weekday::Thu => 3,
            Weekday::Fri => 4,
            Weekday::Sat => 5,
            Weekday::Sun => 6,
        }
    }
}

/// The day a configured name denotes, by full or three-letter English name
/// in any case; any other name means Monday.
pub open spec fn spec_weekday_named(l: Seq<char>) -> Weekday {
    if l == "monday"@ || l == "mon"@ {
        Weekday::Mon
    } else if l == "tuesday"@ || l == "tue"@ {
        Weekday::Tue
    } else if l == "wednesday"@ || l == "wed"@ {
        Weekday::Wed
    } else if l == "thursday"@ || l == "thu"@ {
        Weekday::Thu
    } else if l == "friday"@ || l == "fri"@ {
        Weekday::Fri
    } else if l == "saturday"@ || l == "sat"@ {
        Weekday::Sat
    } else if l == "sunday"@ || l == "sun"@ {
        Weekday::Sun
    } else {
        Weekday::Mon
    }
}

/// Reads the configured rotation day.
pub fn parse_weekday(s: &str) -> (r: Weekday)
    ensures
        r == spec_weekday_named(lowercase_of(s@)),
        is_ascii_chars(s@) ==> r == spec_weekday_named(ascii_lowercase_seq(s@)),
{
    let l = to_lowercase(s);
    let ls = l.as_str();
    if str_eq(ls, "monday") || str_eq(ls, "mon") {
        Weekday::Mon
    } else if str_eq(ls, "tuesday") || str_eq(ls, "tue") {
        Weekday::Tue
    } else if str_eq(ls, "wednesday") || str_eq(ls, "wed") {
        Weekday::Wed
    } else if str_eq(ls, "thursday") || str_eq(ls, "thu") {
        Weekday::Thu
    } else if str_eq(ls, "friday") || str_eq(ls, "fri") {
        Weekday::Fri
    } else if str_eq(ls, "saturday") || str_eq(ls, "sat") {
        Weekday::Sat
    } else if str_eq(ls, "sunday") || str_eq(ls, "sun") {
        Weekday::Sun
    } else {
        Weekday::Mon
    }
}

/// Each day is named by its full English name and by its first three
/// letters (in lower case; `parse_weekday` lowers the name first), and is
/// that many days after Monday: Monday 0, Tuesday 1, Wednesday 2,
/// Thursday 3, Friday 4, Saturday 5, Sunday 6.
pub proof fn weekday_names_denote_their_days()
    ensures
        spec_weekday_named("monday"@) == Weekday::Mon && spec_weekday_named("mon"@) == Weekday::Mon,
        spec_weekday_named("tuesday"@) == Weekday::Tue && spec_weekday_named("tue"@) == Weekday::Tue,
        spec_weekday_named("wednesday"@) == Weekday::Wed && spec_weekday_named("wed"@) == Weekday::Wed,
        spec_weekday_named("thursday"@) == Weekday::Thu && spec_weekday_named("thu"@) == Weekday::Thu,
        spec_weekday_named("friday"@) == Weekday::Fri && spec_weekday_named("fri"@) == Weekday::Fri,
        spec_weekday_named("saturday"@) == Weekday::Sat && spec_weekday_named("sat"@) == Weekday::Sat,
        spec_weekday_named("sunday"@) == Weekday::Sun && spec_weekday_named("sun"@) == Weekday::Sun,
        Weekday::Mon.spec_num_days_from_monday() == 0,
        Weekday::Tue.spec_num_days_from_monday() == 1,
        Weekday::Wed.spec_num_days_from_monday() == 2,
        Weekday::Thu.spec_num_days_from_monday() == 3,
        Weekday::Fri.spec_num_days_from_monday() == 4,
        Weekday::Sat.spec_num_days_from_monday() == 5,
        Weekday::Sun.spec_num_days_from_monday() == 6,
{
    reveal_strlit("monday");
    reveal_strlit("mon");
    reveal_strlit("tuesday");
    reveal_strlit("tue");
    reveal_strlit("wednesday");
    reveal_strlit("wed");
    reveal_strlit("thursday");
    reveal_strlit("thu");
    reveal_strlit("friday");
    reveal_strlit("fri");
    reveal_strlit("saturday");
    reveal_strlit("sat");
    reveal_strlit("sunday");
    reveal_strlit("sun");
    assert("tuesday"@[0] != "monday"@[0] && "tue"@[0] != "mon"@[0]);
    assert("wednesday"@[0] != "monday"@[0] && "wednesday"@[0] != "tuesday"@[0]);
    assert("wed"@[0] != "mon"@[0] && "wed"@[0] != "tue"@[0]);
    assert("thursday"@[0] != "monday"@[0] && "thursday"@[1] != "tuesday"@[1]);
    assert("thursday"@[0] != "wednesday"@[0]);
    assert("thu"@[0] != "mon"@[0] && "thu"@[1] != "tue"@[1] && "thu"@[0] != "wed"@[0]);
    assert("friday"@[0] != "monday"@[0] && "friday"@[0] != "tuesday"@[0]);
    assert("friday"@[0] != "wednesday"@[0] && "friday"@[0] != "thursday"@[0]);
    assert("fri"@[0] != "mon"@[0] && "fri"@[0] != "tue"@[0] && "fri"@[0] != "wed"@[0]);
    assert("fri"@[0] != "thu"@[0]);
    assert("saturday"@[0] != "monday"@[0] && "saturday"@[0] != "tuesday"@[0]);
    assert("saturday"@[0] != "wednesday"@[0] && "saturday"@[0] != "thursday"@[0]);
    assert("saturday"@[0] != "friday"@[0]);
    assert("sat"@[0] != "mon"@[0] && "sat"@[0] != "tue"@[0] && "sat"@[0] != "wed"@[0]);
    assert("sat"@[0] != "thu"@[0] && "sat"@[0] != "fri"@[0]);
    assert("sunday"@[0] != "monday"@[0] && "sunday"@[0] != "tuesday"@[0]);
    assert("sunday"@[0] != "wednesday"@[0] && "sunday"@[0] != "thursday"@[0]);
    assert("sunday"@[0] != "friday"@[0] && "sunday"@[1] != "saturday"@[1]);
    assert("sun"@[0] != "mon"@[0] && "sun"@[0] != "tue"@[0] && "sun"@[0] != "wed"@[0]);
    assert("sun"@[0] != "thu"@[0] && "sun"@[0] != "fri"@[0] && "sun"@[1] != "sat"@[1]);
    assert("mon"@.len() != "monday"@.len() && "tue"@.len() != "tuesday"@.len());
    assert("wed"@.len() != "wednesday"@.len() && "thu"@.len() != "thursday"@.len());
    assert("fri"@.len() != "friday"@.len() && "sat"@.len() != "saturday"@.len());
    assert("sun"@.len() != "sunday"@.len());
}

/// Whether the rotation is due at `now`: on the configured weekday and hour
/// (UTC), unless it already ran on today's date.
pub open spec fn spec_rotation_due(
    last_rotation_day: Option<i64>,
    now: Timestamp,
    target_day: Weekday,
    target_hour: u8,
) -> bool {
    &&& spec_weekday(now.secs as int) == target_day.spec_num_days_from_monday()
    &&& spec_hour(now.secs as int) == target_hour
    &&& last_rotation_day != Some(spec_day_number(now.secs as int) as i64)
}

/// One minute's check of the scheduler: whether to rotate now, and the day
/// of the last rotation afterwards (today's, when it rotates).
pub fn scheduler_tick(last_rotation_day: Option<i64>, now: Timestamp, target_day: Weekday, target_hour: u8) -> (r: (Option<i64>, bool))
    requires
        MIN_EPOCH_SECS <= now.secs <= MAX_EPOCH_SECS,
    ensures
        r.1 == spec_rotation_due(last_rotation_day, now, target_day, target_hour),
        r.1 ==> r.0 == Some(spec_day_number(now.secs as int) as i64),
        !r.1 ==> r.0 == last_rotation_day,
{
    let today = day_number(now);
    let due = utc_weekday_index(now) == target_day.num_days_from_monday() && hour_of_day(now)
        == target_hour as u32 && match last_rotation_day {
        Some(d) => d != today,
        None => true,
    };
    if due {
        (Some(today), true)
    } else {
        (last_rotation_day, false)
    }
}

/// The scheduler rotates at most once per UTC date: right after a rotation,
/// no later check on the same date finds the rotation due.
pub proof fn rotation_at_most_once_per_day(
    last: Option<i64>,
    now: Timestamp,
    later: Timestamp,
    target_day: Weekday,
    target_hour: u8,
)
    requires
        spec_rotation_due(last, now, target_day, target_hour),
        spec_day_number(later.secs as int) == spec_day_number(now.secs as int),
    ensures
        !spec_rotation_due(
            Some(spec_day_number(now.secs as int) as i64),
            later,
            target_day,
            target_hour,
        ),
{
}

} // verus!
