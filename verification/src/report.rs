//! The counters as a report for the eye.

use crate::stats::StatEntry;
use crate::text::{decimal, decimal_text};
use vstd::prelude::*;

verus! {

/// The first line of the report.
pub open spec fn report_head() -> Seq<char> {
    "Stats -------------------------------------"@
}

/// The last line of the report.
pub open spec fn report_foot() -> Seq<char> {
    "------------------------------------------"@
}

/// The form in which the report shows a time: month and day, then the time
/// of day; in the notation of the `time` crate.
pub open spec fn stamp_layout() -> Seq<char> {
    "[month]-[day] [hour]:[minute]:[second]"@
}

/// What the `time` crate writes for the moment `timestamp` seconds after the
/// epoch, in UTC and in the form `layout`; `None` where it cannot read the
/// form, has no date for the moment, or fails to write it.
pub uninterp spec fn rendered_time(timestamp: i64, layout: Seq<char>) -> Option<Seq<char>>;

/// The view of an optional text.
pub open spec fn text_view(text: Option<String>) -> Option<Seq<char>> {
    match text {
        Some(s) => Some(s@),
        None => None,
    }
}

/// Writes a moment with `OffsetDateTime::format` of the `time` crate. The
/// moment is handed over as `OffsetDateTime::from_unix_timestamp` makes it
/// of the seconds since the epoch, and the form as
/// `format_description::parse` reads it.
///
/// Trusted: that what comes back depends on the two arguments alone.
/// Nothing is claimed about what is written, nor about when it is written.
#[verifier::external_body]
#[allow(deprecated)]
pub(crate) fn render_time(timestamp: i64, layout: &str) -> (r: Option<String>)
    ensures
        text_view(r) == rendered_time(timestamp, layout@),
{
    let form = time::format_description::parse(layout).ok()?;
    let moment = time::OffsetDateTime::from_unix_timestamp(timestamp).ok()?;
    moment.format(&form).ok()
}

/// The time of a last sighting as the report shows it. A count of seconds
/// that is no `i64` has no date.
pub open spec fn stamp_of(last_seen: u64) -> Option<Seq<char>> {
    if last_seen <= i64::MAX {
        rendered_time(last_seen as i64, stamp_layout())
    } else {
        None
    }
}

/// `n` spaces.
pub open spec fn spaces(n: nat) -> Seq<char> {
    Seq::new(n, |i: int| ' ')
}

/// `text` set flush right in a field of `width` characters; a longer text
/// is left as it is.
pub open spec fn padded(text: Seq<char>, width: nat) -> Seq<char> {
    if text.len() >= width {
        text
    } else {
        spaces((width - text.len()) as nat) + text
    }
}

/// The line of the report for one counter, `stamp` being the time of its
/// last sighting as the report shows it.
pub open spec fn stat_line(key: Seq<char>, entry: StatEntry, stamp: Seq<char>) -> Seq<char> {
    padded(key, 10) + ": "@ + decimal(entry.count as nat) + " ["@ + stamp + "]"@
}

/// Every counter of the rows has a time that can be shown.
pub open spec fn all_stamped(rows: Seq<(Seq<char>, StatEntry)>) -> bool {
    forall|i: int| 0 <= i < rows.len() ==> stamp_of((#[trigger] rows[i]).1.last_seen) is Some
}

/// The report on the rows: a head, a line for each row in turn, a foot; or
/// `None` where the time of some counter cannot be shown.
pub open spec fn report(rows: Seq<(Seq<char>, StatEntry)>) -> Option<Seq<Seq<char>>> {
    if all_stamped(rows) {
        Some(
            seq![report_head()] + Seq::new(
                rows.len(),
                |i: int| stat_line(rows[i].0, rows[i].1, stamp_of(rows[i].1.last_seen).unwrap()),
            ) + seq![report_foot()],
        )
    } else {
        None
    }
}

/// The values of a list of lines.
pub open spec fn line_views(lines: Seq<String>) -> Seq<Seq<char>> {
    Seq::new(lines.len(), |i: int| lines[i]@)
}

/// The view of an optional list of lines.
pub open spec fn report_view(lines: Option<Vec<String>>) -> Option<Seq<Seq<char>>> {
    match lines {
        Some(list) => Some(line_views(list@)),
        None => None,
    }
}

/// Sets `text` flush right in a field of `width` characters.
pub fn pad_left(text: &str, width: usize) -> (r: String)
    ensures
        r@ == padded(text@, width as nat),
{
    let len: usize = text.unicode_len();
    let mut r = String::new();
    let mut n: usize = len;
    proof {
        reveal_strlit(" ");
    }
    while n < width
        invariant
            len == text@.len(),
            len <= n,
            n <= width || n == len,
            r@ == spaces((n - len) as nat),
            " "@ == seq![' '],
        decreases width - n,
    {
        r.append(" ");
        n += 1;
        assert(r@ =~= spaces((n - len) as nat));
    }
    r.append(text);
    assert(r@ =~= padded(text@, width as nat));
    r
}

/// Shows the time of a last sighting.
pub fn stamp(last_seen: u64) -> (r: Option<String>)
    ensures
        text_view(r) == stamp_of(last_seen),
{
    if last_seen > i64::MAX as u64 {
        None
    } else {
        render_time(last_seen as i64, "[month]-[day] [hour]:[minute]:[second]")
    }
}

/// Writes the line of the report for one counter.
pub fn write_stat_line(key: &str, entry: StatEntry, stamp: &str) -> (r: String)
    ensures
        r@ == stat_line(key@, entry, stamp@),
{
    let mut line = pad_left(key, 10);
    let count = decimal_text(entry.count as u64);
    line.append(": ");
    line.append(count.as_str());
    line.append(" [");
    line.append(stamp);
    line.append("]");
    line
}

/// Writes the report on the rows.
pub fn write_report(rows: &Vec<(String, StatEntry)>) -> (r: Option<Vec<String>>)
    ensures
        report_view(r) == report(crate::stats::stat_rows(rows@)),
{
    let ghost list = crate::stats::stat_rows(rows@);
    let mut lines: Vec<String> = Vec::new();
    lines.push(String::from_str("Stats -------------------------------------"));
    let mut i: usize = 0;
    while i < rows.len()
        invariant
            i <= rows@.len(),
            list == crate::stats::stat_rows(rows@),
            lines@.len() == i + 1,
            lines@[0]@ == report_head(),
            forall|j: int| 0 <= j < i ==> stamp_of((#[trigger] list[j]).1.last_seen) is Some,
            forall|j: int|
                0 <= j < i ==> (#[trigger] lines@[j + 1])@ == stat_line(
                    list[j].0,
                    list[j].1,
                    stamp_of(list[j].1.last_seen).unwrap(),
                ),
        decreases rows@.len() - i,
    {
        let row = &rows[i];
        assert(list[i as int] == (row.0@, row.1));
        match stamp(row.1.last_seen) {
            Some(shown) => {
                lines.push(write_stat_line(row.0.as_str(), row.1, shown.as_str()));
            },
            None => {
                assert(stamp_of(list[i as int].1.last_seen) is None);
                return None;
            },
        }
        i += 1;
    }
    lines.push(String::from_str("------------------------------------------"));
    proof {
        assert(all_stamped(list));
        let body = Seq::new(
            list.len(),
            |i: int| stat_line(list[i].0, list[i].1, stamp_of(list[i].1.last_seen).unwrap()),
        );
        let want = seq![report_head()] + body + seq![report_foot()];
        let have = line_views(lines@);
        assert(have.len() == want.len());
        assert forall|k: int| 0 <= k < have.len() implies have[k] == want[k] by {
            if 0 < k && k < have.len() - 1 {
                assert(lines@[(k - 1) + 1]@ == body[k - 1]);
            }
        }
        assert(have =~= want);
    }
    Some(lines)
}

} // verus!
