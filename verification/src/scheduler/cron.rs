//! Cron schedules: five whitespace-separated fields (minute, hour, day of
//! month, month, day of week with both 0 and 7 for Sunday), each a
//! comma-separated list of items. An item is `*`, a value `a` or a range
//! `a-b`, optionally followed by a step `/n`; `a/n` runs from `a` to the
//! field's largest value. A moment matches when every field matches it.

use vstd::prelude::*;
use chrono::{Datelike, Offset, TimeZone, Timelike};
use crate::ids::{MAX_UTC_MS, MIN_UTC_MS};
use crate::text::{
    chars_of, digit_val, equals, is_digit, parse_unsigned, parse_unsigned_exec, split, split_char,
    views, words, words_exec,
};

verus! {

/// A moment broken into the fields that a cron schedule reads; the week
/// day counts from Sunday as 0.
#[derive(Debug, Clone, Copy)]
pub struct CronTime {
    pub minute: u32,
    pub hour: u32,
    pub day: u32,
    pub month: u32,
    pub weekday: u32,
}

/// The fields of the UTC instant `ms` milliseconds after the epoch, as
/// chrono computes them, or `None` outside chrono's range.
pub uninterp spec fn utc_fields_of(ms: i64) -> Option<CronTime>;

/// `DateTime::from_timestamp_millis(ms)` read through `Timelike` and
/// `Datelike` (minute, hour, day, month, days from Sunday); the result is
/// named `utc_fields_of`. It is there exactly for the instants of chrono's
/// range, and each field lies in the range chrono documents for it.
#[verifier::external_body]
fn utc_fields(ms: i64) -> (r: Option<CronTime>)
    ensures
        r == utc_fields_of(ms),
        r is Some <==> MIN_UTC_MS <= ms <= MAX_UTC_MS,
        r matches Some(t) ==> t.minute < 60 && t.hour < 24 && 1 <= t.day <= 31 && 1 <= t.month
            <= 12 && t.weekday < 7,
{
    let t = chrono::DateTime::from_timestamp_millis(ms)?;
    Some(
        CronTime {
            minute: t.minute(),
            hour: t.hour(),
            day: t.day(),
            month: t.month(),
            weekday: t.weekday().num_days_from_sunday(),
        },
    )
}

/// The offset from UTC, in seconds, of the IANA time zone named `tz` at
/// the UTC instant `ms`, as `chrono-tz` records it, or `None` when no zone
/// has that name.
pub uninterp spec fn zone_offset_of(tz: Seq<char>, ms: i64) -> Option<i32>;

/// `tz.parse::<chrono_tz::Tz>()`, then `offset_from_utc_datetime` at the
/// instant, as seconds east of UTC (`local_minus_utc`); the result is
/// named `zone_offset_of`, and an offset is less than a day either way
/// (`FixedOffset` holds no more).
#[verifier::external_body]
fn zone_offset(tz: &str, ms: i64) -> (r: Option<i32>)
    requires
        MIN_UTC_MS <= ms <= MAX_UTC_MS,
    ensures
        r == zone_offset_of(tz@, ms),
        r matches Some(o) ==> -86400 < o < 86400,
{
    let zone: chrono_tz::Tz = tz.parse().ok()?;
    let t = chrono::DateTime::from_timestamp_millis(ms)?;
    Some(zone.offset_from_utc_datetime(&t.naive_utc()).fix().local_minus_utc())
}

/// A value of a field with range `lo..=hi`.
pub open spec fn parse_value(s: Seq<char>, lo: nat, hi: nat) -> Option<nat> {
    match parse_unsigned(s, hi) {
        Some(v) => if lo <= v {
            Some(v)
        } else {
            None
        },
        None => None,
    }
}

/// The first and last value of an item without its step: `*` is the whole
/// range, `a-b` a range with `a <= b`, and a single value `a` is `a` alone,
/// or `a` up to `hi` when a step follows.
pub open spec fn parse_base(s: Seq<char>, lo: nat, hi: nat, stepped: bool) -> Option<(nat, nat)> {
    if s == "*"@ {
        Some((lo, hi))
    } else {
        let p = split(s, seq!['-']);
        if p.len() == 1 {
            match parse_value(p[0], lo, hi) {
                Some(a) => Some(
                    (
                        a,
                        if stepped {
                            hi
                        } else {
                            a
                        },
                    ),
                ),
                None => None,
            }
        } else if p.len() == 2 {
            match (parse_value(p[0], lo, hi), parse_value(p[1], lo, hi)) {
                (Some(a), Some(b)) => if a <= b {
                    Some((a, b))
                } else {
                    None
                },
                _ => None,
            }
        } else {
            None
        }
    }
}

/// An item as first value, last value and step (1 without a step; a step
/// lies in `1..=hi`).
pub open spec fn parse_item(s: Seq<char>, lo: nat, hi: nat) -> Option<(nat, nat, nat)> {
    let p = split(s, seq!['/']);
    if p.len() == 1 {
        match parse_base(p[0], lo, hi, false) {
            Some(r) => Some((r.0, r.1, 1nat)),
            None => None,
        }
    } else if p.len() == 2 {
        match (parse_base(p[0], lo, hi, true), parse_value(p[1], 1, hi)) {
            (Some(r), Some(n)) => Some((r.0, r.1, n)),
            _ => None,
        }
    } else {
        None
    }
}

/// Every piece parsed as an item, or `None` if one is not an item.
pub open spec fn parse_items(ps: Seq<Seq<char>>, lo: nat, hi: nat) -> Option<
    Seq<(nat, nat, nat)>,
>
    decreases ps.len(),
{
    if ps.len() == 0 {
        Some(seq![])
    } else {
        match (parse_items(ps.drop_last(), lo, hi), parse_item(ps.last(), lo, hi)) {
            (Some(f), Some(x)) => Some(f.push(x)),
            _ => None,
        }
    }
}

/// A field: its comma-separated items.
pub open spec fn parse_field(s: Seq<char>, lo: nat, hi: nat) -> Option<Seq<(nat, nat, nat)>> {
    parse_items(split(s, seq![',']), lo, hi)
}

/// The five fields of a cron expression, or `None` where it is not one.
pub open spec fn parse_cron(expr: Seq<char>) -> Option<Seq<Seq<(nat, nat, nat)>>> {
    let w = words(expr);
    if w.len() != 5 {
        None
    } else {
        match (
            parse_field(w[0], 0, 59),
            parse_field(w[1], 0, 23),
            parse_field(w[2], 1, 31),
            parse_field(w[3], 1, 12),
            parse_field(w[4], 0, 7),
        ) {
            (Some(a), Some(b), Some(c), Some(d), Some(e)) => Some(seq![a, b, c, d, e]),
            _ => None,
        }
    }
}

/// Whether `v` is one of the values an item runs through.
pub open spec fn item_matches(x: (nat, nat, nat), v: nat) -> bool {
    x.0 <= v <= x.1 && x.2 > 0 && (v - x.0) % (x.2 as int) == 0
}

/// Whether some item of the field takes the value `v`.
pub open spec fn field_matches(f: Seq<(nat, nat, nat)>, v: nat) -> bool {
    exists|i: int| 0 <= i < f.len() && #[trigger] item_matches(f[i], v)
}

/// Whether a moment matches every field; Sunday matches 0 or 7.
pub open spec fn schedule_matches(s: Seq<Seq<(nat, nat, nat)>>, t: CronTime) -> bool {
    &&& field_matches(s[0], t.minute as nat)
    &&& field_matches(s[1], t.hour as nat)
    &&& field_matches(s[2], t.day as nat)
    &&& field_matches(s[3], t.month as nat)
    &&& (field_matches(s[4], t.weekday as nat) || (t.weekday == 0 && field_matches(s[4], 7)))
}

/// Whether `expr` is a cron expression that the moment `t` matches.
pub open spec fn cron_matches(expr: Seq<char>, t: CronTime) -> bool {
    match parse_cron(expr) {
        Some(s) => schedule_matches(s, t),
        None => false,
    }
}

/// The value of two decimal digits.
pub open spec fn two_digits(a: char, b: char) -> nat {
    digit_val(a) * 10 + digit_val(b)
}

/// The offset from UTC, in minutes, of a time zone given as `UTC` or as
/// `+HH:MM` / `-HH:MM` (hours up to 23, minutes up to 59).
pub open spec fn tz_offset_minutes(tz: Seq<char>) -> Option<int> {
    if tz == "UTC"@ {
        Some(0)
    } else if tz.len() == 6 && (tz[0] == '+' || tz[0] == '-') && tz[3] == ':' && is_digit(tz[1])
        && is_digit(tz[2]) && is_digit(tz[4]) && is_digit(tz[5]) && two_digits(tz[1], tz[2]) <= 23
        && two_digits(tz[4], tz[5]) <= 59 {
        let m = two_digits(tz[1], tz[2]) * 60 + two_digits(tz[4], tz[5]);
        Some(
            if tz[0] == '-' {
                -m
            } else {
                m as int
            },
        )
    } else {
        None
    }
}

/// The fields of the instant `now_ms` read `offset_ms` milliseconds away
/// from UTC, or `None` where that moment leaves chrono's range.
pub open spec fn local_fields(now_ms: i64, offset_ms: int) -> Option<CronTime> {
    let ms = now_ms + offset_ms;
    if i64::MIN <= ms <= i64::MAX {
        utc_fields_of(ms as i64)
    } else {
        None
    }
}

/// The local time of the instant `now_ms` in the zone `tz`: at a fixed
/// offset for `UTC` and `+HH:MM` / `-HH:MM`, otherwise at the offset of
/// the IANA zone of that name; `None` for a name that is no zone.
pub open spec fn local_time(tz: Seq<char>, now_ms: i64) -> Option<CronTime> {
    match tz_offset_minutes(tz) {
        Some(o) => local_fields(now_ms, o * 60000),
        None => if MIN_UTC_MS <= now_ms <= MAX_UTC_MS {
            match zone_offset_of(tz, now_ms) {
                Some(s) => local_fields(now_ms, s * 1000),
                None => None,
            }
        } else {
            None
        },
    }
}

/// Whether a task with this cron expression and time zone is due at the
/// instant `now_ms`: false where the expression cannot be read or the zone
/// is none that can be named.
pub open spec fn cron_due(expr: Seq<char>, tz: Seq<char>, now_ms: i64) -> bool {
    match parse_cron(expr) {
        Some(s) => match local_time(tz, now_ms) {
            Some(t) => schedule_matches(s, t),
            None => false,
        },
        None => false,
    }
}

/// The items of a parsed field, as values.
pub open spec fn items_view(f: Seq<(u32, u32, u32)>) -> Seq<(nat, nat, nat)> {
    f.map_values(|x: (u32, u32, u32)| (x.0 as nat, x.1 as nat, x.2 as nat))
}

/// The fields of a parsed schedule, as values.
pub open spec fn schedule_view(v: Seq<Vec<(u32, u32, u32)>>) -> Seq<Seq<(nat, nat, nat)>> {
    v.map_values(|f: Vec<(u32, u32, u32)>| items_view(f@))
}

fn parse_value_exec(s: &Vec<char>, lo: u32, hi: u32) -> (r: Option<u32>)
    ensures
        match r {
            Some(v) => parse_value(s@, lo as nat, hi as nat) == Some(v as nat),
            None => parse_value(s@, lo as nat, hi as nat) is None,
        },
{
    match parse_unsigned_exec(s, hi as u64) {
        Some(v) => {
            if lo as u64 <= v {
                Some(v as u32)
            } else {
                None
            }
        },
        None => None,
    }
}

fn parse_base_exec(s: &Vec<char>, lo: u32, hi: u32, stepped: bool) -> (r: Option<(u32, u32)>)
    ensures
        match r {
            Some(x) => parse_base(s@, lo as nat, hi as nat, stepped) == Some(
                (x.0 as nat, x.1 as nat),
            ),
            None => parse_base(s@, lo as nat, hi as nat, stepped) is None,
        },
{
    if equals(s, "*") {
        return Some((lo, hi));
    }
    let p = split_char(s, '-');
    assert(views(p@).len() == p@.len());
    if p.len() == 1 {
        assert(views(p@)[0] == p@[0]@);
        match parse_value_exec(&p[0], lo, hi) {
            Some(a) => Some(
                (
                    a,
                    if stepped {
                        hi
                    } else {
                        a
                    },
                ),
            ),
            None => None,
        }
    } else if p.len() == 2 {
        assert(views(p@)[0] == p@[0]@);
        assert(views(p@)[1] == p@[1]@);
        let a = parse_value_exec(&p[0], lo, hi);
        let b = parse_value_exec(&p[1], lo, hi);
        match (a, b) {
            (Some(a), Some(b)) => {
                if a <= b {
                    Some((a, b))
                } else {
                    None
                }
            },
            _ => None,
        }
    } else {
        None
    }
}

fn parse_item_exec(s: &Vec<char>, lo: u32, hi: u32) -> (r: Option<(u32, u32, u32)>)
    ensures
        match r {
            Some(x) => parse_item(s@, lo as nat, hi as nat) == Some(
                (x.0 as nat, x.1 as nat, x.2 as nat),
            ),
            None => parse_item(s@, lo as nat, hi as nat) is None,
        },
{
    let p = split_char(s, '/');
    assert(views(p@).len() == p@.len());
    if p.len() == 1 {
        assert(views(p@)[0] == p@[0]@);
        match parse_base_exec(&p[0], lo, hi, false) {
            Some(x) => Some((x.0, x.1, 1)),
            None => None,
        }
    } else if p.len() == 2 {
        assert(views(p@)[0] == p@[0]@);
        assert(views(p@)[1] == p@[1]@);
        let b = parse_base_exec(&p[0], lo, hi, true);
        let n = parse_value_exec(&p[1], 1, hi);
        match (b, n) {
            (Some(x), Some(n)) => Some((x.0, x.1, n)),
            _ => None,
        }
    } else {
        None
    }
}

fn parse_field_exec(s: &Vec<char>, lo: u32, hi: u32) -> (r: Option<Vec<(u32, u32, u32)>>)
    ensures
        match r {
            Some(f) => parse_field(s@, lo as nat, hi as nat) == Some(items_view(f@)),
            None => parse_field(s@, lo as nat, hi as nat) is None,
        },
{
    let ps = split_char(s, ',');
    let ghost pv = views(ps@);
    assert(pv.len() == ps@.len());
    let mut f: Vec<(u32, u32, u32)> = Vec::new();
    let mut i: usize = 0;
    while i < ps.len()
        invariant
            i <= ps@.len(),
            pv == views(ps@),
            pv.len() == ps@.len(),
            pv == split(s@, seq![',']),
            parse_items(pv.take(i as int), lo as nat, hi as nat) == Some(items_view(f@)),
        decreases ps@.len() - i,
    {
        assert(pv.take(i + 1).drop_last() =~= pv.take(i as int));
        assert(pv.take(i + 1).last() == ps@[i as int]@);
        match parse_item_exec(&ps[i], lo, hi) {
            Some(x) => {
                let ghost old_f = f@;
                f.push(x);
                assert(items_view(f@) =~= items_view(old_f).push(
                    (x.0 as nat, x.1 as nat, x.2 as nat),
                ));
            },
            None => {
                proof {
                    lemma_items_none_extends(pv, i as int, lo as nat, hi as nat);
                }
                return None;
            },
        }
        i = i + 1;
    }
    assert(pv.take(ps@.len() as int) =~= pv);
    Some(f)
}

/// Once a piece fails, every longer prefix fails too.
proof fn lemma_items_none_extends(pv: Seq<Seq<char>>, i: int, lo: nat, hi: nat)
    requires
        0 <= i < pv.len(),
        parse_item(pv[i], lo, hi) is None,
    ensures
        parse_items(pv, lo, hi) is None,
    decreases pv.len(),
{
    if i < pv.len() - 1 {
        lemma_items_none_extends(pv.drop_last(), i, lo, hi);
    }
}

/// Parses a cron expression into its five fields.
pub fn parse_cron_exec(expr: &str) -> (r: Option<Vec<Vec<(u32, u32, u32)>>>)
    ensures
        match r {
            Some(v) => v@.len() == 5 && parse_cron(expr@) == Some(schedule_view(v@)),
            None => parse_cron(expr@) is None,
        },
{
    let cs = chars_of(expr);
    let w = words_exec(&cs);
    assert(views(w@).len() == w@.len());
    if w.len() != 5 {
        return None;
    }
    assert(views(w@)[0] == w@[0]@);
    assert(views(w@)[1] == w@[1]@);
    assert(views(w@)[2] == w@[2]@);
    assert(views(w@)[3] == w@[3]@);
    assert(views(w@)[4] == w@[4]@);
    let a = parse_field_exec(&w[0], 0, 59);
    let b = parse_field_exec(&w[1], 0, 23);
    let c = parse_field_exec(&w[2], 1, 31);
    let d = parse_field_exec(&w[3], 1, 12);
    let e = parse_field_exec(&w[4], 0, 7);
    match (a, b, c, d, e) {
        (Some(a), Some(b), Some(c), Some(d), Some(e)) => {
            let mut v: Vec<Vec<(u32, u32, u32)>> = Vec::new();
            v.push(a);
            v.push(b);
            v.push(c);
            v.push(d);
            v.push(e);
            let ghost sv = schedule_view(v@);
            assert(sv =~= seq![
                items_view(v@[0]@),
                items_view(v@[1]@),
                items_view(v@[2]@),
                items_view(v@[3]@),
                items_view(v@[4]@),
            ]);
            Some(v)
        },
        _ => None,
    }
}

fn field_matches_exec(f: &Vec<(u32, u32, u32)>, v: u32) -> (b: bool)
    ensures
        b == field_matches(items_view(f@), v as nat),
{
    let ghost fv = items_view(f@);
    let mut i: usize = 0;
    while i < f.len()
        invariant
            i <= f@.len(),
            fv == items_view(f@),
            fv.len() == f@.len(),
            forall|j: int| 0 <= j < i ==> !#[trigger] item_matches(fv[j], v as nat),
        decreases f@.len() - i,
    {
        let x = f[i];
        assert(fv[i as int] == (x.0 as nat, x.1 as nat, x.2 as nat));
        if x.2 > 0 && x.0 <= v && v <= x.1 && (v - x.0) % x.2 == 0 {
            assert(item_matches(fv[i as int], v as nat));
            return true;
        }
        i = i + 1;
    }
    false
}

/// Whether a parsed schedule matches the moment `t`.
pub fn schedule_matches_exec(s: &Vec<Vec<(u32, u32, u32)>>, t: &CronTime) -> (b: bool)
    requires
        s@.len() == 5,
    ensures
        b == schedule_matches(schedule_view(s@), *t),
{
    let ghost sv = schedule_view(s@);
    assert(sv[0] == items_view(s@[0]@));
    assert(sv[1] == items_view(s@[1]@));
    assert(sv[2] == items_view(s@[2]@));
    assert(sv[3] == items_view(s@[3]@));
    assert(sv[4] == items_view(s@[4]@));
    let m = field_matches_exec(&s[0], t.minute);
    let h = field_matches_exec(&s[1], t.hour);
    let d = field_matches_exec(&s[2], t.day);
    let mo = field_matches_exec(&s[3], t.month);
    let w = field_matches_exec(&s[4], t.weekday);
    let sunday = t.weekday == 0 && field_matches_exec(&s[4], 7);
    m && h && d && mo && (w || sunday)
}

fn digit_value_exec(c: char) -> (r: u32)
    requires
        is_digit(c),
    ensures
        r as nat == digit_val(c),
{
    (c as u32) - ('0' as u32)
}

fn is_digit_exec(c: char) -> (b: bool)
    ensures
        b == is_digit(c),
{
    '0' <= c && c <= '9'
}

/// The offset from UTC, in minutes, of a time zone written `UTC`,
/// `+HH:MM` or `-HH:MM`.
pub fn tz_offset_exec(tz: &str) -> (r: Option<i64>)
    ensures
        match r {
            Some(o) => tz_offset_minutes(tz@) == Some(o as int) && -1440 < o < 1440,
            None => tz_offset_minutes(tz@) is None,
        },
{
    let v = chars_of(tz);
    if equals(&v, "UTC") {
        return Some(0);
    }
    if v.len() == 6 && (v[0] == '+' || v[0] == '-') && v[3] == ':' && is_digit_exec(v[1])
        && is_digit_exec(v[2]) && is_digit_exec(v[4]) && is_digit_exec(v[5]) {
        let h = digit_value_exec(v[1]) * 10 + digit_value_exec(v[2]);
        let m = digit_value_exec(v[4]) * 10 + digit_value_exec(v[5]);
        if h <= 23 && m <= 59 {
            let total = (h * 60 + m) as i64;
            if v[0] == '-' {
                Some(-total)
            } else {
                Some(total)
            }
        } else {
            None
        }
    } else {
        None
    }
}

/// The fields of the instant `now_ms` read `offset_ms` milliseconds from
/// UTC.
fn local_fields_exec(now_ms: i64, offset_ms: i64) -> (r: Option<CronTime>)
    ensures
        r == local_fields(now_ms, offset_ms as int),
{
    if (offset_ms > 0 && now_ms > i64::MAX - offset_ms) || (offset_ms < 0 && now_ms < i64::MIN
        - offset_ms) {
        None
    } else {
        utc_fields(now_ms + offset_ms)
    }
}

/// The local time of the instant `now_ms` in the zone `tz`.
pub fn local_time_exec(tz: &str, now_ms: i64) -> (r: Option<CronTime>)
    ensures
        r == local_time(tz@, now_ms),
{
    match tz_offset_exec(tz) {
        Some(o) => local_fields_exec(now_ms, o * 60000),
        None => {
            if MIN_UTC_MS <= now_ms && now_ms <= MAX_UTC_MS {
                match zone_offset(tz, now_ms) {
                    Some(s) => local_fields_exec(now_ms, (s as i64) * 1000),
                    None => None,
                }
            } else {
                None
            }
        },
    }
}

/// Whether a task with this cron expression and time zone is due at the
/// instant `now_ms`.
pub fn cron_due_exec(expr: &str, tz: &str, now_ms: i64) -> (b: bool)
    ensures
        b == cron_due(expr@, tz@, now_ms),
{
    match parse_cron_exec(expr) {
        Some(s) => match local_time_exec(tz, now_ms) {
            Some(t) => schedule_matches_exec(&s, &t),
            None => false,
        },
        None => false,
    }
}

/// Whether the moment `t` matches the cron expression.
pub fn cron_matches_exec(expr: &str, t: &CronTime) -> (b: bool)
    ensures
        b == cron_matches(expr@, *t),
{
    match parse_cron_exec(expr) {
        Some(s) => schedule_matches_exec(&s, t),
        None => false,
    }
}

} // verus!
