//! Calendar facts about UTC timestamps (seconds since the Unix epoch), read
//! with `chrono`, and the period labels built from them.
use vstd::prelude::*;

use crate::numbers::{decimal, u64_text};

verus! {

/// The earliest timestamp a `chrono::DateTime<Utc>` can hold (-262143-01-01T00:00:00Z).
pub const MIN_UTC_SECONDS: i64 = -8_334_601_228_800;

/// The latest timestamp a `chrono::DateTime<Utc>` can hold (+262142-12-31T23:59:59Z).
pub const MAX_UTC_SECONDS: i64 = 8_210_266_876_799;

/// Whether `secs` is the timestamp of some `chrono::DateTime<Utc>`.
pub open spec fn in_utc_range(secs: int) -> bool {
    MIN_UTC_SECONDS <= secs <= MAX_UTC_SECONDS
}

/// The calendar year, month, day of the month, ISO week-numbering year and
/// ISO week of a UTC timestamp.
pub uninterp spec fn utc_calendar(secs: int) -> (int, int, int, int, int);

/// The `%Y-%m-%d` text of the UTC date of a timestamp.
pub uninterp spec fn utc_date_text(secs: int) -> Seq<char>;

/// `DateTime::from_timestamp(secs, 0)` (which is `Some` exactly within the
/// range of `DateTime<Utc>`), then its `year()`, `month()`, `day()` and
/// `iso_week()`'s `year()` and `week()`. Stated: the result is the named
/// calendar reading, and months lie in 1..=12, days in 1..=31, ISO weeks in
/// 1..=53 (as chrono documents).
#[verifier::external_body]
pub(crate) fn calendar_parts(secs: i64) -> (r: (i32, u32, u32, i32, u32))
    requires
        in_utc_range(secs as int),
    ensures
        (r.0 as int, r.1 as int, r.2 as int, r.3 as int, r.4 as int) == utc_calendar(secs as int),
        1 <= r.1 <= 12,
        1 <= r.2 <= 31,
        1 <= r.4 <= 53,
{
    let dt = chrono::DateTime::from_timestamp(secs, 0).unwrap();
    let iso = chrono::Datelike::iso_week(&dt);
    (chrono::Datelike::year(&dt), chrono::Datelike::month(&dt), chrono::Datelike::day(&dt), iso.year(), iso.week())
}

/// `DateTime::from_timestamp(secs, 0)`, then the `Display` text of its
/// `date_naive()`, which chrono documents as `%Y-%m-%d`. The result is named.
#[verifier::external_body]
pub(crate) fn date_text(secs: i64) -> (r: String)
    requires
        in_utc_range(secs as int),
    ensures
        r@ == utc_date_text(secs as int),
{
    chrono::DateTime::from_timestamp(secs, 0).unwrap().date_naive().to_string()
}

/// `n` zeros.
pub open spec fn zeros(n: nat) -> Seq<char>
    decreases n,
{
    if n == 0 {
        Seq::empty()
    } else {
        zeros((n - 1) as nat).push('0')
    }
}

/// The text of `v` zero-padded to `width` characters, the sign counting
/// toward the width (what `format!("{:0width$}", v)` writes).
pub open spec fn padded(v: int, width: nat) -> Seq<char> {
    let digits = decimal(if v < 0 { -v } else { v } as nat);
    let sign: Seq<char> = if v < 0 { seq!['-'] } else { Seq::empty() };
    let fill: int = width - sign.len() - digits.len();
    sign + zeros(if fill > 0 { fill as nat } else { 0 }) + digits
}

/// The text of `v` zero-padded to `width` characters.
pub fn pad_number(v: i64, width: usize) -> (r: String)
    ensures
        r@ == padded(v as int, width as nat),
{
    let magnitude: u64 = if v < 0 {
        (0i128 - v as i128) as u64
    } else {
        v as u64
    };
    let digits = u64_text(magnitude);
    let mut out = String::new();
    let mut used: usize = 0;
    if v < 0 {
        out.append("-");
        used = 1;
        proof {
            reveal_strlit("-");
        }
    }
    let dl = digits.as_str().unicode_len();
    let mut count: usize = 0;
    let fill: usize = if width > used && width - used > dl {
        width - used - dl
    } else {
        0
    };
    let ghost sign: Seq<char> = if v < 0 { seq!['-'] } else { Seq::empty() };
    assert(out@ =~= sign + zeros(0));
    while count < fill
        invariant
            count <= fill,
            out@ == sign + zeros(count as nat),
        decreases fill - count,
    {
        out.append("0");
        proof {
            reveal_strlit("0");
            assert(sign + zeros((count + 1) as nat) =~= (sign + zeros(count as nat)).push('0'));
        }
        count = count + 1;
    }
    out.append(digits.as_str());
    proof {
        let expected_fill: int = width - sign.len() - decimal(magnitude as nat).len();
        assert(fill as int == if expected_fill > 0 { expected_fill } else { 0 });
    }
    out
}

} // verus!
