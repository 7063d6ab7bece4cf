use task_tracker::instant::AddDaysExt;
use task_tracker::model::{TaskPriority, TaskStatus};
use task_tracker::present::{
    candidate_class, format_date, month_label, priority_cell_class, priority_class,
    priority_label, push_decimal, row_class, status_class, status_label, CalendarDate,
};

#[test]
fn format_date_fifth_of_june() {
    let d = CalendarDate { year: 2025, month: 5, day: 5 };
    assert_eq!(format_date(&d), "5 Jun 2025");
}

#[test]
fn format_date_edges() {
    assert_eq!(format_date(&CalendarDate { year: 1999, month: 0, day: 31 }), "31 Jan 1999");
    assert_eq!(format_date(&CalendarDate { year: 0, month: 11, day: 1 }), "1 Dec 0");
    assert_eq!(format_date(&CalendarDate { year: 10000, month: 9, day: 10 }), "10 Oct 10000");
    assert_eq!(month_label(4), "May");
}

#[test]
fn decimal_digits() {
    let mut s = String::from("n=");
    push_decimal(&mut s, 0);
    assert_eq!(s, "n=0");
    let mut s = String::new();
    push_decimal(&mut s, u32::MAX);
    assert_eq!(s, "4294967295");
    let mut s = String::new();
    push_decimal(&mut s, 100);
    assert_eq!(s, "100");
}

#[test]
fn labels_of_priorities_and_statuses() {
    assert_eq!(priority_label(TaskPriority::Low), "Low");
    assert_eq!(priority_label(TaskPriority::Medium), "Medium");
    assert_eq!(priority_label(TaskPriority::High), "High");
    assert_eq!(status_label(TaskStatus::New), "new");
    assert_eq!(status_label(TaskStatus::Pending), "pending");
    assert_eq!(status_label(TaskStatus::InProgress), "in progress");
    assert_eq!(status_label(TaskStatus::Complete), "Complete");
    assert_eq!(TaskPriority::default(), TaskPriority::Low);
    assert_eq!(TaskStatus::default(), TaskStatus::New);
}

#[test]
fn style_classes() {
    assert_eq!(priority_class(TaskPriority::High), "task-attribute task-priority-high");
    assert_eq!(priority_cell_class(TaskPriority::Low), "cell task-priority task-priority-low");
    assert_eq!(status_class(TaskStatus::InProgress), "task-attribute task-status-inprogress");
    assert_eq!(row_class(true), "item selected-item");
    assert_eq!(row_class(false), "item");
    assert_eq!(candidate_class(true), "user-item user-item-selected");
    assert_eq!(candidate_class(false), "user-item");
}

#[test]
fn add_days_moves_by_whole_days() {
    assert_eq!(1000i64.add_days(5), Some(1000 + 5 * 86_400_000));
    assert_eq!(1000i64.add_days(-1), Some(1000 - 86_400_000));
    assert_eq!(0i64.add_days(0), Some(0));
    assert_eq!(i64::MAX.add_days(1), None);
    assert_eq!(i64::MIN.add_days(-1), None);
}
