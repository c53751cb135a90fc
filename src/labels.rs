use vstd::prelude::*;

use vstd::string::StringExecFns;

use crate::model::unix_now;

verus! {

/// How long ago something happened, in the largest whole unit.
#[derive(Debug, Clone, Copy, PartialEq, Eq, Structural)]
pub enum Age {
    /// Less than a minute ago, or in the future.
    JustNow,
    Minutes(i64),
    Hours(i64),
    Days(i64),
}

pub open spec fn age_between(created_at: i64, now: i64) -> Age {
    let diff = now - created_at;
    if diff < 60 {
        Age::JustNow
    } else if diff < 3600 {
        Age::Minutes((diff / 60) as i64)
    } else if diff < 86400 {
        Age::Hours((diff / 3600) as i64)
    } else {
        Age::Days((diff / 86400) as i64)
    }
}

/// The age of a timestamp at time `now`.
pub fn age_at(created_at: i64, now: i64) -> (r: Age)
    ensures
        r == age_between(created_at, now),
{
    let diff: i128 = (now as i128) - (created_at as i128);
    if diff < 60 {
        Age::JustNow
    } else if diff < 3600 {
        Age::Minutes((diff / 60) as i64)
    } else if diff < 86400 {
        Age::Hours((diff / 3600) as i64)
    } else {
        Age::Days((diff / 86400) as i64)
    }
}

/// The age of a timestamp by the clock.
pub fn format_timestamp(created_at: i64) -> (r: Age)
    ensures
        exists|now: i64| r == #[trigger] age_between(created_at, now),
{
    let now = unix_now();
    age_at(created_at, now)
}

/// The unit a byte count is shown in.
#[derive(Debug, Clone, Copy, PartialEq, Eq, Structural)]
pub enum SizeUnit {
    Bytes,
    Kilobytes,
    Megabytes,
}

/// Bytes below 1024, kilobytes below 1024 * 1024, megabytes from there on.
pub fn size_unit(bytes: i64) -> (r: SizeUnit)
    ensures
        r == (if bytes < 1024 {
            SizeUnit::Bytes
        } else if bytes < 1024 * 1024 {
            SizeUnit::Kilobytes
        } else {
            SizeUnit::Megabytes
        }),
{
    if bytes < 1024 {
        SizeUnit::Bytes
    } else if bytes < 1024 * 1024 {
        SizeUnit::Kilobytes
    } else {
        SizeUnit::Megabytes
    }
}

/// How many characters of a long text a preview shows.
pub const PREVIEW_CHARS: usize = 150;

/// A text as a list shows it: whole when it takes at most 150 bytes, else
/// its first 150 characters followed by an ellipsis.
pub open spec fn preview_of(text: Seq<char>) -> Seq<char> {
    if vstd::utf8::encode_utf8(text).len() <= PREVIEW_CHARS {
        text
    } else if text.len() <= PREVIEW_CHARS {
        text + "…"@
    } else {
        text.take(PREVIEW_CHARS as int) + "…"@
    }
}

/// The preview of a text.
pub fn preview_text(text: &str) -> (r: String)
    ensures
        r@ == preview_of(text@),
{
    if text.as_bytes().len() <= PREVIEW_CHARS {
        return text.to_owned();
    }
    let n = text.unicode_len();
    let keep = if n <= PREVIEW_CHARS { n } else { PREVIEW_CHARS };
    let mut out = text.substring_char(0, keep).to_owned();
    out.append("…");
    assert(n <= PREVIEW_CHARS ==> text@.subrange(0, keep as int) =~= text@);
    out
}

} // verus!
