//! The one-line label of the model download in flight, such as
//! `Downloading large-v3 · 42% · 1.3 GB / 3.1 GB · 3.1 MB/s`. The sizes and
//! the rate come already rendered; the percentage is whole.

use vstd::prelude::*;

use crate::text::{decimal, push_decimal, push_str};

verus! {

/// The label: the percentage and both sizes once the total is known (else
/// how much arrived so far), then the rate once one is estimated.
pub open spec fn download_status_of(
    label: Seq<char>,
    percent: Option<nat>,
    downloaded: Seq<char>,
    total: Seq<char>,
    rate: Option<Seq<char>>,
) -> Seq<char> {
    "Downloading "@ + label + match percent {
        Some(p) => " \u{b7} "@ + decimal(p) + "% \u{b7} "@ + downloaded + " / "@ + total,
        None => " \u{b7} "@ + downloaded + " so far"@,
    } + match rate {
        Some(r) => " \u{b7} "@ + r + "/s"@,
        None => Seq::empty(),
    }
}

/// The download label for `label`: `percent` is `None` while the total
/// size is unknown, and then `total` is not shown; `rate` is the rendered
/// transfer rate once one is estimated.
pub fn download_status_line(
    label: &str,
    percent: Option<u32>,
    downloaded: &str,
    total: &str,
    rate: Option<&str>,
) -> (line: String)
    ensures
        line@ == download_status_of(
            label@,
            match percent {
                Some(p) => Some(p as nat),
                None => None,
            },
            downloaded@,
            total@,
            match rate {
                Some(r) => Some(r@),
                None => None,
            },
        ),
{
    let mut line = String::from_str("Downloading ");
    push_str(&mut line, label);
    match percent {
        Some(p) => {
            push_str(&mut line, " \u{b7} ");
            push_decimal(&mut line, p as u64);
            push_str(&mut line, "% \u{b7} ");
            push_str(&mut line, downloaded);
            push_str(&mut line, " / ");
            push_str(&mut line, total);
        },
        None => {
            push_str(&mut line, " \u{b7} ");
            push_str(&mut line, downloaded);
            push_str(&mut line, " so far");
        },
    }
    if let Some(r) = rate {
        push_str(&mut line, " \u{b7} ");
        push_str(&mut line, r);
        push_str(&mut line, "/s");
    }
    line
}

} // verus!
