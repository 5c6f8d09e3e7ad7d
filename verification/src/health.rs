//! Health reporting: the entities that `/health` returns and the rules that fill them.

use vstd::prelude::*;
use crate::clock::{read_clock, ClockReading};
use crate::text::{all_digits, decimal, is_digit, padded, push_char, u64_to_decimal};
use vstd::arithmetic::div_mod::lemma_fundamental_div_mod_converse;

verus! {

/// State of the database connection as the health check saw it.
pub struct DatabaseStatus {
    pub status: String,
    pub connection: bool,
    pub response_time_ms: Option<u128>,
}

/// State of the API process itself.
pub struct ApiStatus {
    pub status: String,
    pub uptime: String,
    pub version: String,
}

/// The full health report.
pub struct HealthEntity {
    pub status: String,
    pub timestamp: String,
    pub database: DatabaseStatus,
    pub api: ApiStatus,
}

impl HealthEntity {
    pub fn new(status: String, timestamp: String, database: DatabaseStatus, api: ApiStatus) -> (r:
        Self)
        ensures
            r.status == status,
            r.timestamp == timestamp,
            r.database == database,
            r.api == api,
    {
        HealthEntity { status, timestamp, database, api }
    }
}

impl DatabaseStatus {
    pub fn new(status: String, connection: bool, response_time_ms: Option<u128>) -> (r: Self)
        ensures
            r.status == status,
            r.connection == connection,
            r.response_time_ms == response_time_ms,
    {
        DatabaseStatus { status, connection, response_time_ms }
    }
}

impl ApiStatus {
    pub fn new(status: String, uptime: String, version: String) -> (r: Self)
        ensures
            r.status == status,
            r.uptime == uptime,
            r.version == version,
    {
        ApiStatus { status, uptime, version }
    }
}

/// Whole days in `t` seconds.
pub open spec fn duration_days(t: nat) -> nat {
    t / 86400
}

/// Hours left over after whole days.
pub open spec fn duration_hours(t: nat) -> nat {
    (t % 86400) / 3600
}

/// Minutes left over after whole hours.
pub open spec fn duration_minutes(t: nat) -> nat {
    (t % 3600) / 60
}

/// Seconds left over after whole minutes.
pub open spec fn duration_seconds(t: nat) -> nat {
    t % 60
}

/// `n` followed by a one-letter unit.
pub open spec fn unit_text(n: nat, unit: char) -> Seq<char> {
    decimal(n).push(unit)
}

/// How an uptime of `t` seconds is written: the largest non-zero unit among days, hours and
/// minutes comes first, every smaller unit follows, and seconds always close the text,
/// e.g. `"1d 0h 0m 5s"`, `"2h 3m 4s"`, `"7m 0s"`, `"42s"`.
pub open spec fn duration_text(t: nat) -> Seq<char> {
    let sp = seq![' '];
    let s = unit_text(duration_seconds(t), 's');
    let m = unit_text(duration_minutes(t), 'm') + sp + s;
    let h = unit_text(duration_hours(t), 'h') + sp + m;
    if duration_days(t) > 0 {
        unit_text(duration_days(t), 'd') + sp + h
    } else if duration_hours(t) > 0 {
        h
    } else if duration_minutes(t) > 0 {
        m
    } else {
        s
    }
}

/// The four parts of an uptime add back up to it, each within the range of its unit.
pub proof fn lemma_duration_parts_recompose(t: nat)
    ensures
        duration_days(t) * 86400 + duration_hours(t) * 3600 + duration_minutes(t) * 60
            + duration_seconds(t) == t,
        duration_hours(t) < 24,
        duration_minutes(t) < 60,
        duration_seconds(t) < 60,
{
    assert(duration_days(t) * 86400 + duration_hours(t) * 3600 + duration_minutes(t) * 60
        + duration_seconds(t) == t) by (nonlinear_arith)
        requires
            duration_days(t) == t / 86400,
            duration_hours(t) == (t % 86400) / 3600,
            duration_minutes(t) == (t % 3600) / 60,
            duration_seconds(t) == t % 60,
    {
        assert(t == (t / 86400) * 86400 + t % 86400);
        assert(t % 86400 == ((t % 86400) / 3600) * 3600 + (t % 86400) % 3600);
        assert((t % 86400) % 3600 == t % 3600);
        assert(t % 3600 == ((t % 3600) / 60) * 60 + (t % 3600) % 60);
        assert((t % 3600) % 60 == t % 60);
    }
}

/// How an uptime reads by its size: under a minute only seconds, under an hour minutes and
/// seconds, under a day hours, minutes and seconds, and from a day on all four units; the
/// text always closes with the seconds within the last minute.
pub proof fn lemma_duration_text_by_size(t: nat)
    ensures
        t < 60 ==> duration_text(t) == decimal(t).push('s'),
        60 <= t < 3600 ==> duration_text(t) == decimal(t / 60).push('m') + seq![' '] + decimal(
            t % 60,
        ).push('s'),
        3600 <= t < 86400 ==> duration_text(t) == decimal(t / 3600).push('h') + seq![' ']
            + decimal((t % 3600) / 60).push('m') + seq![' '] + decimal(t % 60).push('s'),
        86400 <= t ==> duration_text(t) == decimal(t / 86400).push('d') + seq![' '] + decimal(
            (t % 86400) / 3600,
        ).push('h') + seq![' '] + decimal((t % 3600) / 60).push('m') + seq![' '] + decimal(
            t % 60,
        ).push('s'),
{
    assert(t < 86400 ==> t % 86400 == t);
    assert(t < 3600 ==> t % 3600 == t);
    assert(t < 60 ==> t % 60 == t);
    assert(3600 <= t < 86400 ==> t / 86400 == 0 && t / 3600 > 0);
    assert(60 <= t < 3600 ==> t / 3600 == 0 && t / 60 > 0);
    assert(t < 60 ==> t / 60 == 0);
}

/// Appends the characters of `n` followed by `unit`.
fn push_unit(s: &mut String, n: u64, unit: char)
    ensures
        final(s)@ == old(s)@ + unit_text(n as nat, unit),
{
    let digits = u64_to_decimal(n);
    s.append(digits.as_str());
    push_char(s, unit);
    assert(final(s)@ =~= old(s)@ + unit_text(n as nat, unit));
}

/// Writes an uptime of `total_seconds` seconds the way the health report shows it.
pub fn format_duration(total_seconds: u64) -> (r: String)
    ensures
        r@ == duration_text(total_seconds as nat),
{
    let days = total_seconds / 86400;
    let hours = (total_seconds % 86400) / 3600;
    let minutes = (total_seconds % 3600) / 60;
    let seconds = total_seconds % 60;
    let ghost t = total_seconds as nat;
    let ghost sp = seq![' '];
    let mut r = String::new();
    if days > 0 {
        push_unit(&mut r, days, 'd');
        push_char(&mut r, ' ');
    }
    if days > 0 || hours > 0 {
        push_unit(&mut r, hours, 'h');
        push_char(&mut r, ' ');
    }
    if days > 0 || hours > 0 || minutes > 0 {
        push_unit(&mut r, minutes, 'm');
        push_char(&mut r, ' ');
    }
    push_unit(&mut r, seconds, 's');
    proof {
        let s = unit_text(duration_seconds(t), 's');
        let m = unit_text(duration_minutes(t), 'm') + sp + s;
        let h = unit_text(duration_hours(t), 'h') + sp + m;
        if days > 0 {
            assert(r@ =~= unit_text(duration_days(t), 'd') + sp + h);
        } else if hours > 0 {
            assert(r@ =~= h);
        } else if minutes > 0 {
            assert(r@ =~= m);
        } else {
            assert(r@ =~= s);
        }
    }
    r
}

/// What the health check reports of the database, given how the probe query went:
/// `Some(ms)` when it answered after `ms` milliseconds, `None` when it failed.
pub fn database_status(probe: Option<u128>) -> (r: DatabaseStatus)
    ensures
        r.connection == probe is Some,
        r.response_time_ms == probe,
        probe is Some ==> r.status@ == "connected"@,
        probe is None ==> r.status@ == "disconnected"@,
{
    match probe {
        Some(ms) => DatabaseStatus::new(String::from_str("connected"), true, Some(ms)),
        None => DatabaseStatus::new(String::from_str("disconnected"), false, None),
    }
}

/// What the health check reports of the API process, given its uptime in whole seconds
/// (`None` when the clock went backwards) and the package version.
pub fn api_status(uptime_seconds: Option<u64>, version: String) -> (r: ApiStatus)
    ensures
        r.status@ == "running"@,
        r.version == version,
        match uptime_seconds {
            Some(t) => r.uptime@ == duration_text(t as nat),
            None => r.uptime@ == "unknown"@,
        },
{
    let uptime = match uptime_seconds {
        Some(t) => format_duration(t),
        None => String::from_str("unknown"),
    };
    ApiStatus::new(String::from_str("running"), uptime, version)
}

/// The overall status: `"healthy"` when the database is connected, `"unhealthy"` otherwise.
pub open spec fn overall_status_text(connected: bool) -> Seq<char> {
    if connected {
        "healthy"@
    } else {
        "unhealthy"@
    }
}

/// Assembles the health report at `timestamp` from the database and API findings.
pub fn health_report(timestamp: String, database: DatabaseStatus, api: ApiStatus) -> (r:
    HealthEntity)
    ensures
        r.status@ == overall_status_text(database.connection),
        r.timestamp == timestamp,
        r.database == database,
        r.api == api,
{
    let status = if database.connection {
        String::from_str("healthy")
    } else {
        String::from_str("unhealthy")
    };
    HealthEntity::new(status, timestamp, database, api)
}

/// The fraction of a second as chrono's RFC 3339 writer gives it: nothing for a whole
/// second, otherwise a point and 3, 6 or 9 digits, the fewest that are exact.
pub open spec fn second_fraction(nanos: nat) -> Seq<char> {
    if nanos == 0 {
        Seq::empty()
    } else if nanos % 1_000_000 == 0 {
        seq!['.'] + padded(nanos / 1_000_000, 3)
    } else if nanos % 1000 == 0 {
        seq!['.'] + padded(nanos / 1000, 6)
    } else {
        seq!['.'] + padded(nanos, 9)
    }
}

/// The time-of-day part of an RFC 3339 UTC time `secs` seconds and `nanos` nanoseconds
/// after the epoch: `HH:MM:SS`, the fraction, `+00:00`.
pub open spec fn time_of_day_text(secs: int, nanos: nat) -> Seq<char> {
    let day_secs = secs % 86400;
    padded((day_secs / 3600) as nat, 2) + ":"@ + padded(((day_secs / 60) % 60) as nat, 2) + ":"@
        + padded((day_secs % 60) as nat, 2) + second_fraction(nanos) + "+00:00"@
}

/// A year as RFC 3339 writes it: four digits, or a sign and at least four digits outside
/// the years 0 to 9999.
pub open spec fn is_year_text(y: Seq<char>) -> bool {
    ||| y.len() == 4 && all_digits(y)
    ||| y.len() >= 5 && (y[0] == '+' || y[0] == '-') && all_digits(y.drop_first())
}

/// `s` has the form of chrono's `to_rfc3339` for the UTC time `secs` seconds and `nanos`
/// nanoseconds after the epoch: a year, `-MM-DD`, `T`, then the time of day exactly.
pub open spec fn rfc3339_form(s: Seq<char>, secs: int, nanos: nat) -> bool {
    let tail = time_of_day_text(secs, nanos);
    let d = s.len() - tail.len() - 7;
    &&& s.len() >= tail.len() + 11
    &&& s.subrange(s.len() - tail.len(), s.len() as int) == tail
    &&& is_year_text(s.subrange(0, d))
    &&& s[d] == '-' && is_digit(s[d + 1]) && is_digit(s[d + 2])
    &&& s[d + 3] == '-' && is_digit(s[d + 4]) && is_digit(s[d + 5]) && s[d + 6] == 'T'
}

/// The UTC times with a four-digit year: from 0000-01-01T00:00:00 to 9999-12-31T23:59:59.
pub open spec fn in_four_digit_years(secs: int) -> bool {
    -62_167_219_200 <= secs <= 253_402_300_799
}

/// The name of chrono's `to_rfc3339` text for the UTC time `secs` seconds and `nanos`
/// nanoseconds after the epoch (`DateTime::from_timestamp`), `None` when chrono holds no
/// such time.
pub uninterp spec fn utc_rfc3339(secs: i64, nanos: u32) -> Option<Seq<char>>;

/// An optional string as optional characters.
pub open spec fn opt_text(o: Option<String>) -> Option<Seq<char>> {
    match o {
        Some(s) => Some(s@),
        None => None,
    }
}

/// The UTC time `secs` seconds and `nanos` nanoseconds after the epoch in RFC 3339 form
/// (chrono `DateTime::from_timestamp` then `to_rfc3339`).
/// Trusted: the text is a function of the two numbers, named `utc_rfc3339`. From chrono's
/// source (`write_rfc3339`): the date, `T`, two-digit hour, minute and second of the day,
/// the fraction with automatic precision, and the offset `+00:00`; the year has four digits
/// for the years 0 to 9999, which chrono always holds, otherwise a sign and at least four
/// digits. Which other times chrono holds (about 262,000 years either way) is not stated.
#[verifier::external_body]
fn rfc3339_at(secs: i64, nanos: u32) -> (r: Option<String>)
    requires
        nanos < 1_000_000_000,
    ensures
        opt_text(r) == utc_rfc3339(secs, nanos),
        r matches Some(t) ==> rfc3339_form(t@, secs as int, nanos as nat),
        in_four_digit_years(secs as int) ==> r is Some,
        r matches Some(t) ==> (in_four_digit_years(secs as int) ==> t@.len()
            == time_of_day_text(secs as int, nanos as nat).len() + 11),
{
    let time = chrono::DateTime::from_timestamp(secs, nanos)?;
    Some(time.to_rfc3339())
}

/// The RFC 3339 text of a clock reading, `None` when chrono cannot hold that time.
pub open spec fn reading_rfc3339(reading: ClockReading) -> Option<Seq<char>> {
    if i64::MIN <= reading.seconds() <= i64::MAX {
        utc_rfc3339(reading.seconds() as i64, reading.subsec_nanos() as u32)
    } else {
        None
    }
}

/// The time of a clock reading in RFC 3339 form, as chrono writes a UTC time: the seconds
/// rounded down and the nanoseconds beyond them, before the epoch as after it.
pub fn timestamp_at(reading: &ClockReading) -> (r: Option<String>)
    requires
        reading.wf(),
    ensures
        opt_text(r) == reading_rfc3339(*reading),
        r matches Some(t) ==> rfc3339_form(t@, reading.seconds(), reading.subsec_nanos() as nat),
        in_four_digit_years(reading.seconds()) ==> r is Some,
{
    match reading {
        ClockReading::After { secs, nanos } => {
            proof {
                lemma_fundamental_div_mod_converse(
                    reading.nanos_since_epoch(),
                    1_000_000_000,
                    *secs as int,
                    *nanos as int,
                );
            }
            if *secs <= 9_223_372_036_854_775_807u64 {
                rfc3339_at(*secs as i64, *nanos)
            } else {
                None
            }
        },
        ClockReading::Before { secs, nanos } => {
            if *nanos == 0 {
                proof {
                    lemma_fundamental_div_mod_converse(
                        reading.nanos_since_epoch(),
                        1_000_000_000,
                        -(*secs as int),
                        0,
                    );
                }
                if *secs <= 9_223_372_036_854_775_808u64 {
                    let s: i128 = 0i128 - (*secs as i128);
                    rfc3339_at(s as i64, 0)
                } else {
                    None
                }
            } else {
                proof {
                    lemma_fundamental_div_mod_converse(
                        reading.nanos_since_epoch(),
                        1_000_000_000,
                        -(*secs as int) - 1,
                        1_000_000_000 - *nanos,
                    );
                }
                if *secs <= 9_223_372_036_854_775_807u64 {
                    let s: i128 = -1i128 - (*secs as i128);
                    rfc3339_at(s as i64, 1_000_000_000 - *nanos)
                } else {
                    None
                }
            }
        },
    }
}

/// The time stamp of a health report, taken when the check starts, before the database is
/// probed: the current time of the system clock in RFC 3339 form, `None` only when chrono
/// cannot hold it.
pub fn report_timestamp() -> (r: Option<String>)
    ensures
        exists|reading: ClockReading|
            {
                &&& reading.wf()
                &&& opt_text(r) == reading_rfc3339(reading)
                &&& (r matches Some(t) ==> rfc3339_form(
                    t@,
                    reading.seconds(),
                    reading.subsec_nanos() as nat,
                ))
                &&& (in_four_digit_years(reading.seconds()) ==> r is Some)
            },
{
    let reading = read_clock();
    timestamp_at(&reading)
}

/// The body of the liveness endpoint.
pub struct HealthResponse {
    pub status: String,
    pub message: String,
}

/// The liveness answer: status 200 with `"healthy"` and a fixed message.
pub fn check_health() -> (r: (u16, HealthResponse))
    ensures
        r.0 == 200,
        r.1.status@ == "healthy"@,
        r.1.message@ == "Dejavu Similarity API is running"@,
{
    (
        200,
        HealthResponse {
            status: String::from_str("healthy"),
            message: String::from_str("Dejavu Similarity API is running"),
        },
    )
}

} // verus!
