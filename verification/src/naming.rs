//! The strings a diary run produces from its target date: the monthly file
//! name, the day's heading line, and the auto-commit message.

use vstd::prelude::*;

use crate::date::Date;
use crate::digits::{dec_digits, int_digits, padded2_digits};
use crate::digits::{i32_string, padded2_string, u64_string};

verus! {

/// The name of the monthly diary file: the year unpadded, the month as two
/// zero-padded digits, and the ".md" extension.
pub open spec fn spec_monthly_filename(d: Date) -> Seq<char> {
    int_digits(d.year as int) + padded2_digits(d.month as nat) + ".md"@
}

/// The heading line that marks a day's section: "## year/month/day" with no
/// zero padding.
pub open spec fn spec_heading(d: Date) -> Seq<char> {
    "## "@ + int_digits(d.year as int) + "/"@ + dec_digits(d.month as nat) + "/"@ + dec_digits(
        d.day as nat,
    )
}

/// The message of the automatic git commit for a day's entry.
pub open spec fn spec_commit_message(d: Date) -> Seq<char> {
    "auto commit for "@ + int_digits(d.year as int) + "/"@ + dec_digits(d.month as nat) + "/"@
        + dec_digits(d.day as nat) + " diary"@
}

/// Builds the monthly file name for a date, e.g. "202403.md".
pub fn monthly_filename(d: Date) -> (r: String)
    requires
        d.wf(),
    ensures
        r@ == spec_monthly_filename(d),
{
    let mut s = i32_string(d.year);
    let month = padded2_string(d.month);
    s.append(month.as_str());
    s.append(".md");
    proof {
        reveal_strlit(".md");
        assert(s@ =~= spec_monthly_filename(d));
    }
    s
}

/// Builds the heading line for a date, e.g. "## 2024/3/7".
pub fn heading_line(d: Date) -> (r: String)
    requires
        d.wf(),
    ensures
        r@ == spec_heading(d),
{
    let mut s = String::from_str("## ");
    let year = i32_string(d.year);
    s.append(year.as_str());
    s.append("/");
    let month = u64_string(d.month as u64);
    s.append(month.as_str());
    s.append("/");
    let day = u64_string(d.day as u64);
    s.append(day.as_str());
    proof {
        reveal_strlit("## ");
        reveal_strlit("/");
        assert(s@ =~= spec_heading(d));
    }
    s
}

/// Builds the auto-commit message for a date, e.g.
/// "auto commit for 2024/3/7 diary".
pub fn commit_message(d: Date) -> (r: String)
    requires
        d.wf(),
    ensures
        r@ == spec_commit_message(d),
{
    let mut s = String::from_str("auto commit for ");
    let year = i32_string(d.year);
    s.append(year.as_str());
    s.append("/");
    let month = u64_string(d.month as u64);
    s.append(month.as_str());
    s.append("/");
    let day = u64_string(d.day as u64);
    s.append(day.as_str());
    s.append(" diary");
    proof {
        reveal_strlit("auto commit for ");
        reveal_strlit("/");
        reveal_strlit(" diary");
        assert(s@ =~= spec_commit_message(d));
    }
    s
}

} // verus!
