//! What the status display computes from the binaries' snapshots.

use vstd::prelude::*;
use crate::manager::BinaryInfo;
use crate::provider::opt_view;
use crate::text::{decimal, decimal_text, digit_char, digit_text};

verus! {

/// The number of bytes in one of the `k`-th display unit.
pub open spec fn unit_bytes(k: nat) -> nat {
    if k == 0 {
        1
    } else if k == 1 {
        1024
    } else if k == 2 {
        1048576
    } else if k == 3 {
        1073741824
    } else {
        1099511627776
    }
}

/// The name of the `k`-th display unit.
pub open spec fn unit_name(k: nat) -> Seq<char> {
    if k == 0 {
        "B"@
    } else if k == 1 {
        "KB"@
    } else if k == 2 {
        "MB"@
    } else if k == 3 {
        "GB"@
    } else {
        "TB"@
    }
}

/// The largest unit, up to terabytes, of which `size` holds at least one.
pub open spec fn size_unit(size: nat) -> nat {
    if size >= unit_bytes(4) {
        4
    } else if size >= unit_bytes(3) {
        3
    } else if size >= unit_bytes(2) {
        2
    } else if size >= unit_bytes(1) {
        1
    } else {
        0
    }
}

/// `size` in tenths of the unit `k`, rounded to the nearest, ties to even.
pub open spec fn rounded_tenths(size: nat, k: nat) -> nat {
    let d = unit_bytes(k);
    let q = (size * 10) / d;
    let r = (size * 10) % d;
    if 2 * r > d || (2 * r == d && q % 2 == 1) {
        q + 1
    } else {
        q
    }
}

/// The human-readable size: whole bytes below one kilobyte, else one decimal
/// place of the largest unit that fits.
pub open spec fn file_size_text(size: nat) -> Seq<char> {
    let k = size_unit(size);
    if k == 0 {
        decimal(size) + " B"@
    } else {
        let t = rounded_tenths(size, k);
        decimal(t / 10) + "."@ + seq![digit_char(t % 10)] + " "@ + unit_name(k)
    }
}

/// `size` bytes in human-readable form, such as `512 B` or `6.1 MB`.
pub fn format_file_size(size: u64) -> (r: String)
    ensures
        r@ == file_size_text(size as nat),
{
    let (k, d, unit): (u64, u128, &str) = if size >= 1099511627776 {
        (4, 1099511627776, "TB")
    } else if size >= 1073741824 {
        (3, 1073741824, "GB")
    } else if size >= 1048576 {
        (2, 1048576, "MB")
    } else if size >= 1024 {
        (1, 1024, "KB")
    } else {
        (0, 1, "B")
    };
    proof {
        reveal_strlit("TB");
        reveal_strlit("GB");
        reveal_strlit("MB");
        reveal_strlit("KB");
        reveal_strlit("B");
    }
    assert(k == size_unit(size as nat) && d == unit_bytes(k as nat) && unit@ == unit_name(k as nat));
    if k == 0 {
        let mut r = decimal_text(size as u128);
        r.append(" B");
        return r;
    }
    let scaled = (size as u128) * 10;
    let q = scaled / d;
    let rem = scaled % d;
    let t = if 2 * rem > d || (2 * rem == d && q % 2 == 1) {
        q + 1
    } else {
        q
    };
    assert(t == rounded_tenths(size as nat, k as nat));
    let mut r = decimal_text(t / 10);
    r.append(".");
    r.append(digit_text(t % 10));
    r.append(" ");
    r.append(unit);
    r
}

/// How many of `infos` are ready.
pub open spec fn ready_count(infos: Seq<BinaryInfo>) -> nat
    decreases infos.len(),
{
    if infos.len() == 0 {
        0
    } else {
        ready_count(infos.drop_last()) + if infos.last().spec_ready() {
            1nat
        } else {
            0nat
        }
    }
}

/// How many of `binaries` are present and executable.
pub fn count_ready(binaries: &Vec<BinaryInfo>) -> (r: usize)
    ensures
        r == ready_count(binaries@),
{
    let n = binaries.len();
    let mut count: usize = 0;
    let mut i: usize = 0;
    while i < n
        invariant
            n == binaries@.len(),
            i <= n,
            count == ready_count(binaries@.subrange(0, i as int)),
            count <= i,
        decreases n - i,
    {
        assert(binaries@.subrange(0, i + 1).drop_last() =~= binaries@.subrange(0, i as int));
        if binaries[i].is_ready() {
            count = count + 1;
        }
        i = i + 1;
    }
    assert(binaries@.subrange(0, n as int) =~= binaries@);
    count
}

/// The calendar date and time, in UTC, of a count of seconds since the epoch, as
/// the date library writes it; nothing for a count out of its range.
pub uninterp spec fn utc_timestamp(secs: int) -> Option<Seq<char>>;

/// Relies on `chrono::DateTime::from_timestamp` and the `Display` of the
/// `DateTime<Utc>` it returns (`YYYY-MM-DD HH:MM:SS UTC`): the result depends on
/// the count of seconds alone.
#[verifier::external_body]
fn utc_text(secs: i64) -> (r: Option<String>)
    ensures
        opt_view(r) == utc_timestamp(secs as int),
{
    chrono::DateTime::from_timestamp(secs, 0).map(|dt| dt.to_string())
}

/// What is shown for a time: its formatted text, or `Unknown`.
pub open spec fn shown_time(formatted: Option<Seq<char>>) -> Seq<char> {
    match formatted {
        Some(t) => t,
        None => "Unknown"@,
    }
}

/// The text shown for a time that was formatted as `formatted`, if it could be.
pub fn time_or_unknown(formatted: Option<String>) -> (r: String)
    ensures
        r@ == shown_time(opt_view(formatted)),
{
    match formatted {
        Some(t) => t,
        None => String::from_str("Unknown"),
    }
}

/// A file time given in whole seconds since the epoch (nothing when the file
/// system gave none, or one before the epoch), shown as a UTC date and time.
pub fn format_system_time(secs: Option<u64>) -> (r: String)
    ensures
        r@ == match secs {
            Some(s) => shown_time(utc_timestamp((s as i64) as int)),
            None => "Unknown"@,
        },
{
    match secs {
        Some(s) => time_or_unknown(utc_text(s as i64)),
        None => String::from_str("Unknown"),
    }
}

} // verus!
