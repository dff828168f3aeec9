//! The contents the store is seeded with when no usable persisted
//! collection exists, and the current local time they are stamped with.

use vstd::prelude::*;
use chrono::Datelike;
use chrono::Timelike;
use crate::model::{lists_wf, DateStamp, Task, TaskList};

verus! {

/// Relies on chrono::Local::now and chrono's Datelike/Timelike accessors,
/// whose documentation bounds the fields: month 1..=12, day 1..=31, hour
/// 0..=23, minute 0..=59, second 0..=59. The value itself depends on the
/// clock and the machine's time zone, so nothing more is promised.
#[verifier::external_body]
pub fn local_now() -> (d: DateStamp)
    ensures
        d.wf(),
{
    let now = chrono::Local::now();
    DateStamp {
        year: now.year() as u32,
        month: now.month() as u8,
        day: now.day() as u8,
        hour: now.hour() as u8,
        minute: now.minute() as u8,
        second: now.second() as u8,
    }
}

/// A vector holding one tag.
fn one_tag(tag: &str) -> (v: Vec<String>)
    ensures
        v@.len() == 1,
        v@[0]@ == tag@,
{
    let mut v: Vec<String> = Vec::new();
    v.push(String::from_str(tag));
    v
}

/// A task with one tag, starting and due at the given timestamp.
fn seed_task(id: usize, name: &str, tag: &str, stamp: DateStamp) -> (t: Task)
    ensures
        t.id == id,
        t.name@ == name@,
        t.tags@.len() == 1,
        t.tags@[0]@ == tag@,
        t.start_date == stamp,
        t.due_date == stamp,
{
    Task {
        id,
        name: String::from_str(name),
        tags: one_tag(tag),
        start_date: stamp,
        due_date: stamp,
    }
}

/// The default task-list collection the store is seeded with: a
/// "Personal" list and a "School" list of two tasks each, every task
/// stamped with the current local time.
pub fn default_task_lists() -> (lists: Vec<TaskList>)
    ensures
        lists_wf(lists@),
        lists@.len() == 2,
        lists@[0].id == 0 && lists@[0].name@ == "Personal"@,
        lists@[1].id == 1 && lists@[1].name@ == "School"@,
        lists@[0].tasks@.len() == 2,
        lists@[1].tasks@.len() == 2,
        lists@[0].tasks@[0].id == 0 && lists@[0].tasks@[0].name@ == "Clean up your room"@,
        lists@[0].tasks@[1].id == 1 && lists@[0].tasks@[1].name@ == "Watch ThePrimeagen"@,
        lists@[1].tasks@[0].id == 0 && lists@[1].tasks@[0].name@ == "Math HW"@,
        lists@[1].tasks@[1].id == 1 && lists@[1].tasks@[1].name@ == "Smart Book"@,
        lists@[0].tasks@[0].tags@.len() == 1 && lists@[0].tasks@[0].tags@[0]@ == "JP"@,
        lists@[0].tasks@[1].tags@.len() == 1 && lists@[0].tasks@[1].tags@[0]@ == "rust"@,
        lists@[1].tasks@[0].tags@.len() == 1 && lists@[1].tasks@[0].tags@[0]@ == "MATH"@,
        lists@[1].tasks@[1].tags@.len() == 1 && lists@[1].tasks@[1].tags@[0]@ == "2070"@,
{
    let now = local_now();
    let mut personal_tasks: Vec<Task> = Vec::new();
    personal_tasks.push(seed_task(0, "Clean up your room", "JP", now));
    personal_tasks.push(seed_task(1, "Watch ThePrimeagen", "rust", now));
    let mut school_tasks: Vec<Task> = Vec::new();
    school_tasks.push(seed_task(0, "Math HW", "MATH", now));
    school_tasks.push(seed_task(1, "Smart Book", "2070", now));
    let mut lists: Vec<TaskList> = Vec::new();
    lists.push(TaskList { id: 0, name: String::from_str("Personal"), tasks: personal_tasks });
    lists.push(TaskList { id: 1, name: String::from_str("School"), tasks: school_tasks });
    lists
}

} // verus!
