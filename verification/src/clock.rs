//! Run identifiers stamped with the current UTC time.
use vstd::prelude::*;


verus! {

pub open spec fn is_digit(c: char) -> bool {
    '0' <= c && c <= '9'
}

pub open spec fn all_digits(s: Seq<char>) -> bool {
    forall|i: int| 0 <= i < s.len() ==> is_digit(#[trigger] s[i])
}

/// A year as chrono prints it for a date after 1970: four digits, or from
/// 10000 on an explicit `+` and at least five digits.
pub open spec fn year_text(y: Seq<char>) -> bool {
    ||| y.len() == 4 && all_digits(y)
    ||| y.len() >= 6 && y[0] == '+' && all_digits(y.drop_first())
}

/// `MMDDThhmmssZ`: month, day, `T`, hour, minute, second, `Z`.
pub open spec fn compact_tail(t: Seq<char>) -> bool {
    &&& t.len() == 12
    &&& all_digits(t.take(4))
    &&& t[4] == 'T'
    &&& all_digits(t.subrange(5, 11))
    &&& t[11] == 'Z'
}

/// A UTC time stamp in the form `%Y%m%dT%H%M%SZ`, e.g. `20260602T120000Z`.
pub open spec fn compact_stamp(s: Seq<char>) -> bool {
    &&& s.len() >= 16
    &&& year_text(s.take(s.len() - 12))
    &&& compact_tail(s.skip(s.len() - 12))
}

/// `-MM-DDThh:mm:ss`.
pub open spec fn clock_tail(t: Seq<char>) -> bool {
    &&& t.len() == 15
    &&& t[0] == '-' && all_digits(t.subrange(1, 3))
    &&& t[3] == '-' && all_digits(t.subrange(4, 6))
    &&& t[6] == 'T' && all_digits(t.subrange(7, 9))
    &&& t[9] == ':' && all_digits(t.subrange(10, 12))
    &&& t[12] == ':' && all_digits(t.subrange(13, 15))
}

/// Fractional seconds as chrono's automatic precision prints them: none,
/// or `.` and three, six or nine digits.
pub open spec fn fraction_text(f: Seq<char>) -> bool {
    ||| f.len() == 0
    ||| (f.len() == 4 || f.len() == 7 || f.len() == 10) && f[0] == '.' && all_digits(f.drop_first())
}

/// `b` is a year, the month-to-second part and a fraction of `k` characters.
pub open spec fn dated_clock_with(b: Seq<char>, k: int) -> bool {
    &&& 0 <= k
    &&& b.len() >= 19 + k
    &&& fraction_text(b.skip(b.len() - k))
    &&& clock_tail(b.subrange(b.len() - k - 15, b.len() - k))
    &&& year_text(b.take(b.len() - k - 15))
}

/// An RFC 3339 UTC time as chrono's `to_rfc3339` prints it, e.g.
/// `2026-06-02T12:00:00.123+00:00`.
pub open spec fn rfc3339_utc(s: Seq<char>) -> bool {
    &&& s.len() >= 6
    &&& s.skip(s.len() - 6) == "+00:00"@
    &&& exists|k: int| #[trigger] dated_clock_with(s.take(s.len() - 6), k)
}

/// `std::time::SystemTime`, carried opaque from the clock read to the
/// epoch difference.
#[verifier::external_type_specification]
#[verifier::external_body]
pub struct ExSystemTime(std::time::SystemTime);

/// Calls `SystemTime::now()`. Nothing is stated of the time it reads.
#[verifier::external_body]
fn system_now() -> (r: std::time::SystemTime) {
    std::time::SystemTime::now()
}

/// Calls `SystemTime::duration_since(UNIX_EPOCH)`: the whole seconds and
/// the nanoseconds after them since 1970-01-01 UTC, or `None` when `t` is
/// before it. Claims that the nanoseconds stay under one second, as
/// `Duration::subsec_nanos` documents. Which instant `t` is is not stated.
#[verifier::external_body]
fn since_unix_epoch(t: &std::time::SystemTime) -> (r: Option<(u64, u32)>)
    ensures
        r matches Some(p) ==> p.1 < 1_000_000_000,
{
    match t.duration_since(std::time::UNIX_EPOCH) {
        Ok(d) => Some((d.as_secs(), d.subsec_nanos())),
        Err(_) => None,
    }
}

/// `chrono::DateTime::from_timestamp(secs, nanos)` formatted with
/// `%Y%m%dT%H%M%SZ`; `None` where `from_timestamp` is (a date out of
/// chrono's range). Claims only the shape chrono's formatting gives a time
/// after 1970 (`compact_stamp`): the year (four digits, or `+` and more
/// from 10000 on), two-digit month, day, hour, minute and second, and the
/// `T` and `Z`. Which date the text names is not stated, nor on which
/// inputs chrono gives `Some`.
#[verifier::external_body]
fn compact_stamp_at(secs: i64, nanos: u32) -> (r: Option<String>)
    requires
        secs >= 0,
    ensures
        r matches Some(t) ==> compact_stamp(t@),
{
    match chrono::DateTime::from_timestamp(secs, nanos) {
        Some(dt) => Some(dt.format("%Y%m%dT%H%M%SZ").to_string()),
        None => None,
    }
}

/// `chrono::DateTime::from_timestamp(secs, nanos)` as RFC 3339 text
/// (`to_rfc3339`); `None` where `from_timestamp` is. Claims only the shape
/// chrono's `write_rfc3339` gives a UTC time after 1970 (`rfc3339_utc`):
/// year, `-MM-DDThh:mm:ss`, fractional seconds in chrono's automatic
/// precision, and the `+00:00` offset. Which date the text names is not
/// stated, nor on which inputs chrono gives `Some`.
#[verifier::external_body]
fn rfc3339_at(secs: i64, nanos: u32) -> (r: Option<String>)
    requires
        secs >= 0,
    ensures
        r matches Some(t) ==> rfc3339_utc(t@),
{
    match chrono::DateTime::from_timestamp(secs, nanos) {
        Some(dt) => Some(dt.to_rfc3339()),
        None => None,
    }
}

/// The current time as whole seconds (fitting `i64`) and nanoseconds since
/// 1970; `None` when the system clock reads before 1970 or past the `i64`
/// seconds.
fn now_since_epoch() -> (r: Option<(i64, u32)>)
    ensures
        r matches Some(p) ==> p.0 >= 0,
{
    let t = system_now();
    match since_unix_epoch(&t) {
        Some((secs, nanos)) => {
            if secs > 0x7fff_ffff_ffff_ffff {
                None
            } else {
                Some((secs as i64, nanos))
            }
        },
        None => None,
    }
}

/// The current UTC time as a compact stamp, `None` when the clock cannot be
/// read as a date after 1970.
fn utc_compact_stamp() -> (r: Option<String>)
    ensures
        r matches Some(t) ==> compact_stamp(t@),
{
    match now_since_epoch() {
        Some((secs, nanos)) => compact_stamp_at(secs, nanos),
        None => None,
    }
}

/// The current time as the state file and artifacts record it: an RFC 3339
/// UTC time; `None` when the system clock reads before 1970 or out of
/// chrono's range.
pub fn now_rfc3339() -> (r: Option<String>)
    ensures
        r matches Some(t) ==> rfc3339_utc(t@),
{
    match now_since_epoch() {
        Some((secs, nanos)) => rfc3339_at(secs, nanos),
        None => None,
    }
}

/// The run id: the configured one, or `run-` and the current UTC time as a
/// compact stamp (`None` when the clock cannot be read as a date after
/// 1970).
pub fn resolve_run_id(configured: &Option<String>) -> (r: Option<String>)
    ensures
        configured matches Some(id) ==> r == Some(*id),
        configured is None ==> (r matches Some(x) ==> x@.len() >= 4 && x@.take(4) == "run-"@
            && compact_stamp(x@.skip(4))),
{
    match configured {
        Some(id) => Some(id.clone()),
        None => match utc_compact_stamp() {
            Some(stamp) => {
                let mut r = String::from_str("run-");
                r.append(stamp.as_str());
                proof {
                    reveal_strlit("run-");
                    assert(r@.take(4) =~= "run-"@);
                    assert(r@.skip(4) =~= stamp@);
                }
                Some(r)
            },
            None => None,
        },
    }
}

/// Run id of a unified verify run: `unified-` and the current UTC time as
/// a compact stamp (`None` when the clock cannot be read as a date after
/// 1970).
pub fn unified_run_id() -> (r: Option<String>)
    ensures
        r matches Some(x) ==> x@.len() >= 8 && x@.take(8) == "unified-"@ && compact_stamp(x@.skip(8)),
{
    match utc_compact_stamp() {
        Some(stamp) => {
            let mut r = String::from_str("unified-");
            r.append(stamp.as_str());
            proof {
                reveal_strlit("unified-");
                assert(r@.take(8) =~= "unified-"@);
                assert(r@.skip(8) =~= stamp@);
            }
            Some(r)
        },
        None => None,
    }
}

/// Run id of a proof artifact: the current UTC time as a compact stamp
/// (`None` when the clock cannot be read as a date after 1970).
pub fn artifact_run_id() -> (r: Option<String>)
    ensures
        r matches Some(t) ==> compact_stamp(t@),
{
    utc_compact_stamp()
}

} // verus!
