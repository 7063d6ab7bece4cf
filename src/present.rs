//! Display labels and style classes for priorities, statuses and dates.
use vstd::prelude::*;
use crate::model::{TaskPriority, TaskStatus};

verus! {

/// The label shown for a priority.
pub open spec fn priority_text(p: TaskPriority) -> Seq<char> {
    match p {
        TaskPriority::Low => "Low"@,
        TaskPriority::Medium => "Medium"@,
        TaskPriority::High => "High"@,
    }
}

/// The label shown for a status. The capitalisation differs between
/// statuses on purpose.
pub open spec fn status_text(s: TaskStatus) -> Seq<char> {
    match s {
        TaskStatus::New => "new"@,
        TaskStatus::Pending => "pending"@,
        TaskStatus::InProgress => "in progress"@,
        TaskStatus::Complete => "Complete"@,
    }
}

/// The label of a priority.
pub fn priority_label(p: TaskPriority) -> (r: &'static str)
    ensures
        r@ == priority_text(p),
{
    match p {
        TaskPriority::Low => "Low",
        TaskPriority::Medium => "Medium",
        TaskPriority::High => "High",
    }
}

/// The label of a status.
pub fn status_label(s: TaskStatus) -> (r: &'static str)
    ensures
        r@ == status_text(s),
{
    match s {
        TaskStatus::New => "new",
        TaskStatus::Pending => "pending",
        TaskStatus::InProgress => "in progress",
        TaskStatus::Complete => "Complete",
    }
}

/// The style class of a priority in the detail view.
pub fn priority_class(p: TaskPriority) -> (r: &'static str)
    ensures
        r@ == match p {
            TaskPriority::Low => "task-attribute task-priority-low"@,
            TaskPriority::Medium => "task-attribute task-priority-medium"@,
            TaskPriority::High => "task-attribute task-priority-high"@,
        },
{
    match p {
        TaskPriority::Low => "task-attribute task-priority-low",
        TaskPriority::Medium => "task-attribute task-priority-medium",
        TaskPriority::High => "task-attribute task-priority-high",
    }
}

/// The style class of a priority marker in a list row.
pub fn priority_cell_class(p: TaskPriority) -> (r: &'static str)
    ensures
        r@ == match p {
            TaskPriority::Low => "cell task-priority task-priority-low"@,
            TaskPriority::Medium => "cell task-priority task-priority-medium"@,
            TaskPriority::High => "cell task-priority task-priority-high"@,
        },
{
    match p {
        TaskPriority::Low => "cell task-priority task-priority-low",
        TaskPriority::Medium => "cell task-priority task-priority-medium",
        TaskPriority::High => "cell task-priority task-priority-high",
    }
}

/// The style class of a status badge.
pub fn status_class(s: TaskStatus) -> (r: &'static str)
    ensures
        r@ == match s {
            TaskStatus::New => "task-attribute task-status-new"@,
            TaskStatus::Pending => "task-attribute task-status-pending"@,
            TaskStatus::InProgress => "task-attribute task-status-inprogress"@,
            TaskStatus::Complete => "task-attribute task-status-complete"@,
        },
{
    match s {
        TaskStatus::New => "task-attribute task-status-new",
        TaskStatus::Pending => "task-attribute task-status-pending",
        TaskStatus::InProgress => "task-attribute task-status-inprogress",
        TaskStatus::Complete => "task-attribute task-status-complete",
    }
}

/// The style class of a list row, highlighted when selected.
pub fn row_class(selected: bool) -> (r: &'static str)
    ensures
        r@ == (if selected { "item selected-item"@ } else { "item"@ }),
{
    if selected {
        "item selected-item"
    } else {
        "item"
    }
}

/// The style class of a picker entry, highlighted when assigned.
pub fn candidate_class(assigned: bool) -> (r: &'static str)
    ensures
        r@ == (if assigned { "user-item user-item-selected"@ } else { "user-item"@ }),
{
    if assigned {
        "user-item user-item-selected"
    } else {
        "user-item"
    }
}

/// A calendar date as the host's clock reads it: `month` counts from 0
/// (January) to 11, `day` is the day of the month.
#[derive(Clone, Copy, Debug, PartialEq, Eq, Structural)]
pub struct CalendarDate {
    pub year: u32,
    pub month: u32,
    pub day: u32,
}

/// Three-letter English abbreviation of month `m`, counted from 0.
pub open spec fn month_abbrev(m: int) -> Seq<char> {
    if m == 0 { "Jan"@ }
    else if m == 1 { "Feb"@ }
    else if m == 2 { "Mar"@ }
    else if m == 3 { "Apr"@ }
    else if m == 4 { "May"@ }
    else if m == 5 { "Jun"@ }
    else if m == 6 { "Jul"@ }
    else if m == 7 { "Aug"@ }
    else if m == 8 { "Sep"@ }
    else if m == 9 { "Oct"@ }
    else if m == 10 { "Nov"@ }
    else { "Dec"@ }
}

/// The character of decimal digit `d`.
pub open spec fn digit_char(d: nat) -> char {
    seq!['0', '1', '2', '3', '4', '5', '6', '7', '8', '9'][d as int]
}

/// `n` written in decimal, without leading zeros.
pub open spec fn decimal(n: nat) -> Seq<char>
    decreases n,
{
    if n < 10 {
        seq![digit_char(n)]
    } else {
        decimal(n / 10).push(digit_char(n % 10))
    }
}

/// `"<day> <Mon> <year>"`, day and year in decimal without padding.
pub open spec fn date_text(d: CalendarDate) -> Seq<char> {
    decimal(d.day as nat) + " "@ + month_abbrev(d.month as int) + " "@ + decimal(d.year as nat)
}

/// The abbreviation of month `m`.
pub fn month_label(m: u32) -> (r: &'static str)
    requires
        m < 12,
    ensures
        r@ == month_abbrev(m as int),
{
    if m == 0 { "Jan" }
    else if m == 1 { "Feb" }
    else if m == 2 { "Mar" }
    else if m == 3 { "Apr" }
    else if m == 4 { "May" }
    else if m == 5 { "Jun" }
    else if m == 6 { "Jul" }
    else if m == 7 { "Aug" }
    else if m == 8 { "Sep" }
    else if m == 9 { "Oct" }
    else if m == 10 { "Nov" }
    else { "Dec" }
}

/// The one-character text of digit `d`.
fn digit_str(d: u32) -> (r: &'static str)
    requires
        d < 10,
    ensures
        r@ == seq![digit_char(d as nat)],
{
    proof {
        reveal_strlit("0");
        reveal_strlit("1");
        reveal_strlit("2");
        reveal_strlit("3");
        reveal_strlit("4");
        reveal_strlit("5");
        reveal_strlit("6");
        reveal_strlit("7");
        reveal_strlit("8");
        reveal_strlit("9");
    }
    let r = if d == 0 { "0" }
    else if d == 1 { "1" }
    else if d == 2 { "2" }
    else if d == 3 { "3" }
    else if d == 4 { "4" }
    else if d == 5 { "5" }
    else if d == 6 { "6" }
    else if d == 7 { "7" }
    else if d == 8 { "8" }
    else { "9" };
    assert(r@ =~= seq![digit_char(d as nat)]);
    r
}

/// Appends `n` in decimal to `s`.
pub fn push_decimal(s: &mut String, n: u32)
    ensures
        final(s)@ == old(s)@ + decimal(n as nat),
    decreases n,
{
    if n >= 10 {
        push_decimal(s, n / 10);
    }
    s.append(digit_str(n % 10));
    proof {
        if n >= 10 {
            assert(decimal(n as nat) == decimal((n / 10) as nat).push(digit_char((n % 10) as nat)));
        }
        assert(s@ =~= old(s)@ + decimal(n as nat));
    }
}

/// Formats a date as `"5 Jun 2025"`.
pub fn format_date(date: &CalendarDate) -> (r: String)
    requires
        date.month < 12,
    ensures
        r@ == date_text(*date),
{
    let mut s = String::new();
    push_decimal(&mut s, date.day);
    s.append(" ");
    s.append(month_label(date.month));
    s.append(" ");
    push_decimal(&mut s, date.year);
    assert(s@ =~= date_text(*date));
    s
}

} // verus!
