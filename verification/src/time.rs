//! UTC instants and whole-unit durations between them, as chrono computes them.
use vstd::prelude::*;

verus! {

/// The Unix second of the first instant chrono's `DateTime<Utc>` holds
/// (-262143-01-01T00:00:00).
pub const MIN_EPOCH_SECONDS: i64 = -8_334_601_228_800;

/// The Unix second of the last whole second chrono's `DateTime<Utc>` holds
/// (+262142-12-31T23:59:59).
pub const MAX_EPOCH_SECONDS: i64 = 8_210_266_876_799;

/// An instant chrono's `DateTime<Utc>` can hold: a second in its range, and
/// nanoseconds below a second, or below two seconds in the last second of a
/// minute (a leap second, as chrono represents one).
pub open spec fn valid_instant(secs: int, nanos: int) -> bool {
    &&& MIN_EPOCH_SECONDS <= secs <= MAX_EPOCH_SECONDS
    &&& 0 <= nanos < 2 * NANOS_PER_SECOND
    &&& nanos >= NANOS_PER_SECOND ==> secs % 60 == 59
}

/// Nanoseconds per second.
pub const NANOS_PER_SECOND: u32 = 1_000_000_000;

/// An instant in UTC: whole seconds since the Unix epoch and the nanoseconds
/// after that second.
#[derive(Clone, Copy)]
pub struct Timestamp {
    secs: i64,
    nanos: u32,
}

/// Whether the second `secs` is the last of its minute.
fn last_second_of_minute(secs: i64) -> (r: bool)
    ensures
        r == ((secs as int) % 60 == 59),
{
    let m = if secs >= 0 {
        secs % 60
    } else {
        let k = (-(secs + 1)) % 60;
        59 - k
    };
    proof {
        if secs < 0 {
            let a = -(secs + 1);
            assert((secs as int) % 60 == 59 - (a as int) % 60) by (nonlinear_arith)
                requires
                    a == -(secs + 1),
                    secs < 0,
            {
                let q = (a as int) / 60;
                let r = (a as int) % 60;
                assert(a == 60 * q + r);
                assert(secs as int == 60 * (-q - 1) + (59 - r));
            }
        }
    }
    m == 59
}

/// A second held to the range of a `Timestamp`.
pub open spec fn clamped_secs(secs: int) -> int {
    if secs < MIN_EPOCH_SECONDS {
        MIN_EPOCH_SECONDS as int
    } else if secs > MAX_EPOCH_SECONDS {
        MAX_EPOCH_SECONDS as int
    } else {
        secs
    }
}

impl Timestamp {
    #[verifier::type_invariant]
    spec fn wf(self) -> bool {
        valid_instant(self.secs as int, self.nanos as int)
    }

    pub closed spec fn spec_secs(self) -> i64 {
        self.secs
    }

    pub closed spec fn spec_nanos(self) -> u32 {
        self.nanos
    }

    /// Nanoseconds since the epoch.
    pub open spec fn total_nanos(self) -> int {
        self.spec_secs() * 1_000_000_000 + self.spec_nanos()
    }

    /// The instant `secs` seconds and `nanos` nanoseconds after the epoch, when
    /// chrono can hold it (as `DateTime::from_timestamp` decides).
    pub fn from_unix(secs: i64, nanos: u32) -> (r: Option<Timestamp>)
        ensures
            r is Some <==> valid_instant(secs as int, nanos as int),
            r matches Some(t) ==> t.spec_secs() == secs && t.spec_nanos() == nanos,
    {
        if MIN_EPOCH_SECONDS <= secs && secs <= MAX_EPOCH_SECONDS && (nanos < NANOS_PER_SECOND || (
        nanos < 2 * NANOS_PER_SECOND && last_second_of_minute(secs))) {
            Some(Timestamp { secs, nanos })
        } else {
            None
        }
    }

    /// The instant `secs` and `nanos` name, held to the range of a
    /// `Timestamp`: seconds beyond it are taken at its edge, and nanoseconds
    /// that are no leap second at the last nanosecond of the second.
    pub fn from_clock(secs: i64, nanos: u32) -> (r: Timestamp)
        ensures
            r.spec_secs() == clamped_secs(secs as int),
            r.spec_nanos() == (if valid_instant(clamped_secs(secs as int), nanos as int) {
                nanos
            } else {
                (NANOS_PER_SECOND - 1) as u32
            }),
    {
        let s = if secs < MIN_EPOCH_SECONDS {
            MIN_EPOCH_SECONDS
        } else if secs > MAX_EPOCH_SECONDS {
            MAX_EPOCH_SECONDS
        } else {
            secs
        };
        let n = if nanos < NANOS_PER_SECOND || (nanos < 2 * NANOS_PER_SECOND && last_second_of_minute(s)) {
            nanos
        } else {
            NANOS_PER_SECOND - 1
        };
        Timestamp { secs: s, nanos: n }
    }

    pub fn secs(&self) -> (r: i64)
        ensures
            r == self.spec_secs(),
            MIN_EPOCH_SECONDS <= r <= MAX_EPOCH_SECONDS,
    {
        proof {
            use_type_invariant(self);
        }
        self.secs
    }

    pub fn nanos(&self) -> (r: u32)
        ensures
            r == self.spec_nanos(),
            valid_instant(self.spec_secs() as int, r as int),
    {
        proof {
            use_type_invariant(self);
        }
        self.nanos
    }

    pub fn copy(&self) -> (r: Timestamp)
        ensures
            r == *self,
    {
        proof {
            use_type_invariant(self);
        }
        Timestamp { secs: self.secs, nanos: self.nanos }
    }
}

/// Division that rounds toward zero, as Rust's integer `/` does.
pub open spec fn trunc_div(a: int, d: int) -> int
    recommends
        d > 0,
{
    if a >= 0 {
        a / d
    } else {
        -((-a) / d)
    }
}

/// The second of the day of a Unix second.
pub open spec fn second_of_day(secs: int) -> int {
    secs % 86400
}

/// The leap second chrono counts between two instants, given as Unix
/// seconds and nanoseconds: `later - earlier` counts a leap second of
/// `earlier` as a whole second once `later` lies at a later second of the
/// day, and one of `later` as none before an earlier one.
pub open spec fn leap_adjustment(ls: int, ln: int, es: int, en: int) -> int {
    let l = second_of_day(ls);
    let e = second_of_day(es);
    if l > e && en >= NANOS_PER_SECOND {
        1
    } else if l < e && ln >= NANOS_PER_SECOND {
        -1
    } else {
        0
    }
}

/// `Duration::num_seconds` of `later - earlier` for instants given as Unix
/// seconds and nanoseconds: the nanoseconds that chrono's
/// `signed_duration_since` counts between them, in whole seconds rounded
/// toward zero.
pub open spec fn seconds_from_to(ls: int, ln: int, es: int, en: int) -> int {
    trunc_div(
        (ls - es) * 1_000_000_000 + (ln - en) + leap_adjustment(ls, ln, es, en) * 1_000_000_000,
        1_000_000_000,
    )
}

/// `Duration::num_seconds` of `later - earlier`: whole seconds, rounded toward zero.
pub open spec fn whole_seconds(later: Timestamp, earlier: Timestamp) -> int {
    seconds_from_to(
        later.spec_secs() as int,
        later.spec_nanos() as int,
        earlier.spec_secs() as int,
        earlier.spec_nanos() as int,
    )
}

/// `Duration::num_hours` of `later - earlier`.
pub open spec fn whole_hours(later: Timestamp, earlier: Timestamp) -> int {
    trunc_div(whole_seconds(later, earlier), 3600)
}

/// `Duration::num_days` of `later - earlier`.
pub open spec fn whole_days(later: Timestamp, earlier: Timestamp) -> int {
    trunc_div(whole_seconds(later, earlier), 86400)
}

fn trunc_div_i128(a: i128, d: i128) -> (r: i128)
    requires
        d > 0,
        -100_000_000_000_000_000_000_000_000 <= a <= 100_000_000_000_000_000_000_000_000,
    ensures
        r == trunc_div(a as int, d as int),
        -100_000_000_000_000_000_000_000_000 <= r <= 100_000_000_000_000_000_000_000_000,
{
    if a >= 0 {
        let q = (a as u128) / (d as u128);
        assert(q <= a) by (nonlinear_arith)
            requires
                q == (a as int) / (d as int),
                d > 0,
                a >= 0,
        ;
        q as i128
    } else {
        let q = ((-a) as u128) / (d as u128);
        assert(q <= -a) by (nonlinear_arith)
            requires
                q == (-(a as int)) / (d as int),
                d > 0,
                a < 0,
        ;
        -(q as i128)
    }
}

/// The second of the day of a Unix second in range.
fn second_of_day_exec(secs: i64) -> (r: i64)
    requires
        MIN_EPOCH_SECONDS <= secs <= MAX_EPOCH_SECONDS,
    ensures
        r == second_of_day(secs as int),
{
    if secs >= 0 {
        secs % 86400
    } else {
        let a = -(secs + 1);
        let k = a % 86400;
        proof {
            assert((secs as int) % 86400 == 86399 - (a as int) % 86400) by (nonlinear_arith)
                requires
                    a == -(secs + 1),
                    secs < 0,
            {
                let q = (a as int) / 86400;
                let r = (a as int) % 86400;
                assert(a == 86400 * q + r);
                assert(secs as int == 86400 * (-q - 1) + (86399 - r));
            }
        }
        86399 - k
    }
}

fn seconds_between(later: &Timestamp, earlier: &Timestamp) -> (r: i128)
    ensures
        r == whole_seconds(*later, *earlier),
        -100_000_000_000_000 <= r <= 100_000_000_000_000,
{
    let ls = later.secs();
    let es = earlier.secs();
    let ln = later.nanos();
    let en = earlier.nanos();
    let l = second_of_day_exec(ls);
    let e = second_of_day_exec(es);
    let adj: i128 = if l > e && en >= NANOS_PER_SECOND {
        1
    } else if l < e && ln >= NANOS_PER_SECOND {
        -1
    } else {
        0
    };
    let d: i128 = ((ls as i128) - (es as i128)) * 1_000_000_000 + ((ln as i128) - (en as i128)) + adj
        * 1_000_000_000;
    let r = trunc_div_i128(d, 1_000_000_000);
    assert(-100_000_000_000_000 <= r <= 100_000_000_000_000) by (nonlinear_arith)
        requires
            r == trunc_div(d as int, 1_000_000_000),
            -20_000_000_000_000_000_000_000 <= d <= 20_000_000_000_000_000_000_000,
    ;
    r
}

/// `(later - earlier).num_hours()`.
pub fn hours_between(later: &Timestamp, earlier: &Timestamp) -> (r: i64)
    ensures
        r == whole_hours(*later, *earlier),
{
    let s = seconds_between(later, earlier);
    let h = trunc_div_i128(s, 3600);
    assert(-100_000_000_000_000 <= h <= 100_000_000_000_000) by (nonlinear_arith)
        requires
            h == trunc_div(s as int, 3600),
            -100_000_000_000_000 <= s <= 100_000_000_000_000,
    ;
    h as i64
}

/// `(later - earlier).num_days()`.
pub fn days_between(later: &Timestamp, earlier: &Timestamp) -> (r: i64)
    ensures
        r == whole_days(*later, *earlier),
{
    let s = seconds_between(later, earlier);
    let h = trunc_div_i128(s, 86400);
    assert(-100_000_000_000_000 <= h <= 100_000_000_000_000) by (nonlinear_arith)
        requires
            h == trunc_div(s as int, 86400),
            -100_000_000_000_000 <= s <= 100_000_000_000_000,
    ;
    h as i64
}

/// Reads the clock with chrono's `Utc::now`, as Unix seconds and the
/// nanoseconds after them. Nothing is claimed of the instant.
#[verifier::external_body]
pub(crate) fn clock_now() -> (r: (i64, u32)) {
    let now = chrono::Utc::now();
    (now.timestamp(), now.timestamp_subsec_nanos())
}

/// The current instant.
pub fn now() -> (r: Timestamp) {
    let (secs, nanos) = clock_now();
    Timestamp::from_clock(secs, nanos)
}

/// What `DateTime::parse_from_rfc3339` reads from a text, as the instant's
/// Unix seconds and sub-second nanoseconds in UTC; `None` where it refuses the text.
pub uninterp spec fn rfc3339_instant(text: Seq<char>) -> Option<(i64, u32)>;

/// Calls chrono's `DateTime::parse_from_rfc3339` and reads the instant back as
/// `timestamp()` and `timestamp_subsec_nanos()` of its UTC form. The contract
/// claims that the result is chrono's answer for this text (a function of the
/// text alone), and that it is an instant chrono's `DateTime` can hold: its
/// date lies in `NaiveDate`'s range and its nanoseconds pass a second only in
/// the last second of a minute, as `NaiveTime` allows.
#[verifier::external_body]
fn parse_rfc3339_raw(text: &str) -> (r: Option<(i64, u32)>)
    ensures
        r == rfc3339_instant(text@),
        r matches Some((s, n)) ==> valid_instant(s as int, n as int),
{
    chrono::DateTime::parse_from_rfc3339(text).ok().map(
        |dt| (dt.timestamp(), dt.timestamp_subsec_nanos()),
    )
}

/// The instant that an RFC 3339 text names, when chrono reads one.
pub open spec fn spec_parse_rfc3339(text: Seq<char>) -> Option<(i64, u32)> {
    rfc3339_instant(text)
}

/// `DateTime::parse_from_rfc3339(text).ok().map(|dt| dt.with_timezone(&Utc))`;
/// leap seconds included.
pub fn parse_rfc3339(text: &str) -> (r: Option<Timestamp>)
    ensures
        r is Some <==> spec_parse_rfc3339(text@) is Some,
        r matches Some(t) ==> (t.spec_secs(), t.spec_nanos()) == spec_parse_rfc3339(
            text@,
        ).unwrap(),
{
    match parse_rfc3339_raw(text) {
        Some((s, n)) => Timestamp::from_unix(s, n),
        None => None,
    }
}

/// The RFC 3339 text that serde writes for a `DateTime<Utc>` with these Unix
/// seconds and nanoseconds.
pub uninterp spec fn rfc3339_text(secs: i64, nanos: u32) -> Seq<char>;

/// Calls chrono's `DateTime::<Utc>::to_rfc3339_opts(SecondsFormat::AutoSi, true)`,
/// the form in which chrono's `Serialize` writes a UTC instant. The contract
/// claims only that the text is chrono's for these seconds and nanoseconds.
#[verifier::external_body]
fn rfc3339_raw(secs: i64, nanos: u32) -> (r: String)
    requires
        valid_instant(secs as int, nanos as int),
    ensures
        r@ == rfc3339_text(secs, nanos),
{
    chrono::DateTime::from_timestamp(secs, nanos).unwrap().to_rfc3339_opts(
        chrono::SecondsFormat::AutoSi,
        true,
    )
}

/// The instant as serde writes it.
pub fn to_rfc3339(t: &Timestamp) -> (r: String)
    ensures
        r@ == rfc3339_text(t.spec_secs(), t.spec_nanos()),
{
    rfc3339_raw(t.secs(), t.nanos())
}

/// The text of `DateTime::<Utc>::to_rfc3339` for these Unix seconds and
/// nanoseconds (the offset written `+00:00`).
pub uninterp spec fn rfc3339_offset_text(secs: i64, nanos: u32) -> Seq<char>;

/// Calls chrono's `DateTime::<Utc>::to_rfc3339`. The contract claims only
/// that the text is chrono's for these seconds and nanoseconds.
#[verifier::external_body]
fn rfc3339_offset_raw(secs: i64, nanos: u32) -> (r: String)
    requires
        valid_instant(secs as int, nanos as int),
    ensures
        r@ == rfc3339_offset_text(secs, nanos),
{
    chrono::DateTime::from_timestamp(secs, nanos).unwrap().to_rfc3339()
}

/// The instant as `DateTime::<Utc>::to_rfc3339` writes it.
pub fn to_rfc3339_offset(t: &Timestamp) -> (r: String)
    ensures
        r@ == rfc3339_offset_text(t.spec_secs(), t.spec_nanos()),
{
    rfc3339_offset_raw(t.secs(), t.nanos())
}

} // verus!
