//! Formatting for the link-import dialog: clock times, durations and
//! yt-dlp's `YYYYMMDD` upload date. Times arrive as whole seconds (or whole
//! minutes), already rounded by the caller.

use vstd::prelude::*;

use crate::text::{
    chars_of, decimal, digit_value, is_digit, pad2, push, push_decimal, push_pad2, push_str,
};

verus! {

/// `H:MM:SS` past an hour, `MM:SS` below, for `t` whole seconds.
pub open spec fn clock_of(t: nat) -> Seq<char> {
    let h = t / 3600;
    let m = (t % 3600) / 60;
    let s = t % 60;
    if h > 0 {
        decimal(h) + seq![':'] + pad2(m) + seq![':'] + pad2(s)
    } else {
        pad2(m) + seq![':'] + pad2(s)
    }
}

/// Formats `total_secs` as `MM:SS`, or `H:MM:SS` past an hour.
pub fn clock_label(total_secs: u64) -> (s: String)
    ensures
        s@ == clock_of(total_secs as nat),
{
    let h = total_secs / 3600;
    let m = (total_secs % 3600) / 60;
    let s = total_secs % 60;
    let mut out = String::new();
    if h > 0 {
        push_decimal(&mut out, h);
        push(&mut out, ':');
    }
    push_pad2(&mut out, m);
    push(&mut out, ':');
    push_pad2(&mut out, s);
    assert(out@ =~= clock_of(total_secs as nat));
    out
}

/// An `N min` label for a whole number of minutes.
pub fn minutes_label(minutes: u64) -> (s: String)
    ensures
        s@ == decimal(minutes as nat) + " min"@,
{
    let mut out = String::new();
    push_decimal(&mut out, minutes);
    push_str(&mut out, " min");
    assert(out@ =~= decimal(minutes as nat) + " min"@);
    out
}

/// `H h M m` (or `M m` below an hour) for `t` whole seconds.
pub open spec fn long_duration_of(t: nat) -> Seq<char> {
    let h = t / 3600;
    let m = (t % 3600) / 60;
    if h > 0 {
        decimal(h) + " h "@ + decimal(m) + " m"@
    } else {
        decimal(m) + " m"@
    }
}

/// A coarse `H h M m` (or `M m`) label for a long run of seconds.
pub fn long_duration_label(total_secs: u64) -> (s: String)
    ensures
        s@ == long_duration_of(total_secs as nat),
{
    let h = total_secs / 3600;
    let m = (total_secs % 3600) / 60;
    let mut out = String::new();
    if h > 0 {
        push_decimal(&mut out, h);
        push_str(&mut out, " h ");
    }
    push_decimal(&mut out, m);
    push_str(&mut out, " m");
    assert(out@ =~= long_duration_of(total_secs as nat));
    out
}

/// The three-letter month names, January first.
pub open spec fn month_name(m: nat) -> Seq<char> {
    if m == 1 {
        "Jan"@
    } else if m == 2 {
        "Feb"@
    } else if m == 3 {
        "Mar"@
    } else if m == 4 {
        "Apr"@
    } else if m == 5 {
        "May"@
    } else if m == 6 {
        "Jun"@
    } else if m == 7 {
        "Jul"@
    } else if m == 8 {
        "Aug"@
    } else if m == 9 {
        "Sep"@
    } else if m == 10 {
        "Oct"@
    } else if m == 11 {
        "Nov"@
    } else {
        "Dec"@
    }
}

fn push_month(out: &mut String, m: u64)
    requires
        1 <= m <= 12,
    ensures
        final(out)@ == old(out)@ + month_name(m as nat),
{
    let name = if m == 1 {
        "Jan"
    } else if m == 2 {
        "Feb"
    } else if m == 3 {
        "Mar"
    } else if m == 4 {
        "Apr"
    } else if m == 5 {
        "May"
    } else if m == 6 {
        "Jun"
    } else if m == 7 {
        "Jul"
    } else if m == 8 {
        "Aug"
    } else if m == 9 {
        "Sep"
    } else if m == 10 {
        "Oct"
    } else if m == 11 {
        "Nov"
    } else {
        "Dec"
    };
    push_str(out, name);
}

/// The value of the two digits of `s` at `i`.
pub open spec fn two_digits(s: Seq<char>, i: int) -> nat {
    digit_value(s[i]) * 10 + digit_value(s[i + 1])
}

/// yt-dlp's `YYYYMMDD` upload date as `D Mon YYYY`; anything that is not
/// eight ASCII digits with a month in 1..=12 and a day in 1..=31 comes back
/// unchanged.
pub open spec fn human_date_of(raw: Seq<char>) -> Seq<char> {
    if raw.len() == 8 && (forall|i: int| 0 <= i < 8 ==> #[trigger] is_digit(raw[i])) {
        let month = two_digits(raw, 4);
        let day = two_digits(raw, 6);
        if 1 <= month <= 12 && 1 <= day <= 31 {
            decimal(day) + seq![' '] + month_name(month) + seq![' '] + raw.subrange(0, 4)
        } else {
            raw
        }
    } else {
        raw
    }
}

/// Turns yt-dlp's `YYYYMMDD` upload date into a readable `D Mon YYYY`
/// (e.g. `12 Mar 2024`). Anything that doesn't parse is returned unchanged.
pub fn human_date(raw: &str) -> (s: String)
    ensures
        s@ == human_date_of(raw@),
{
    let v = chars_of(raw);
    if v.len() != 8 {
        return String::from_str(raw);
    }
    let mut i: usize = 0;
    while i < 8
        invariant
            v@ == raw@,
            v.len() == 8,
            i <= 8,
            forall|j: int| 0 <= j < i ==> #[trigger] is_digit(v@[j]),
        decreases 8 - i,
    {
        if !('0' <= v[i] && v[i] <= '9') {
            assert(!is_digit(raw@[i as int]));
            return String::from_str(raw);
        }
        i += 1;
    }
    assert(is_digit(v@[4]) && is_digit(v@[5]) && is_digit(v@[6]) && is_digit(v@[7]));
    let month: u64 = (v[4] as u64 - 48) * 10 + (v[5] as u64 - 48);
    let day: u64 = (v[6] as u64 - 48) * 10 + (v[7] as u64 - 48);
    assert(month == two_digits(raw@, 4));
    assert(day == two_digits(raw@, 6));
    if 1 <= month && month <= 12 && 1 <= day && day <= 31 {
        let mut out = String::new();
        push_decimal(&mut out, day);
        push(&mut out, ' ');
        push_month(&mut out, month);
        push(&mut out, ' ');
        let mut k: usize = 0;
        let ghost base = out@;
        while k < 4
            invariant
                v@ == raw@,
                v.len() == 8,
                k <= 4,
                out@ == base + raw@.subrange(0, k as int),
            decreases 4 - k,
        {
            push(&mut out, v[k]);
            k += 1;
            assert(out@ =~= base + raw@.subrange(0, k as int));
        }
        assert(out@ =~= human_date_of(raw@));
        out
    } else {
        String::from_str(raw)
    }
}

} // verus!
