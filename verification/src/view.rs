//! The view projector: a pure derivation of render-ready pane rows from
//! the task-list collection and the current cursor. No state, no side
//! effects; safe to recompute on every consumed event.

use vstd::prelude::*;
use crate::model::{Task, TaskList};
use crate::nav::{cursor_wf, Cursor};
use crate::timefmt::{format_stamp, stamp_chars};

verus! {

/// One row of the list pane: a list's name, and whether it is the
/// selected row.
pub struct ListRow {
    pub name: String,
    pub highlighted: bool,
}

/// One row of the task pane: the task's display fields, and whether it
/// is the selected row. The two dates are already rendered as
/// `MM/DD/YY HH:MM:SS`.
pub struct TaskRow {
    pub name: String,
    pub tags: Vec<String>,
    pub start: String,
    pub due: String,
    pub highlighted: bool,
}

/// The task row shows exactly the task's fields: same name, the tags in
/// order, both dates formatted, and the given highlight flag.
pub open spec fn task_row_matches(row: TaskRow, task: Task, highlighted: bool) -> bool {
    &&& row.name@ == task.name@
    &&& row.tags@.len() == task.tags@.len()
    &&& forall|j: int| 0 <= j < task.tags@.len() ==> (#[trigger] row.tags@[j])@ == task.tags@[j]@
    &&& row.start@ == stamp_chars(task.start_date)
    &&& row.due@ == stamp_chars(task.due_date)
    &&& row.highlighted == highlighted
}

/// Copies a vector of strings, keeping order and contents.
fn clone_strings(v: &Vec<String>) -> (r: Vec<String>)
    ensures
        r@.len() == v@.len(),
        forall|j: int| 0 <= j < v@.len() ==> (#[trigger] r@[j])@ == v@[j]@,
{
    let mut r: Vec<String> = Vec::new();
    let mut j: usize = 0;
    while j < v.len()
        invariant
            j <= v@.len(),
            r@.len() == j,
            forall|k: int| 0 <= k < j ==> (#[trigger] r@[k])@ == v@[k]@,
        decreases v@.len() - j,
    {
        r.push(v[j].clone());
        j += 1;
    }
    r
}

/// Projects the list pane: one row per task list, in order, carrying the
/// list's name; exactly the row at `cursor.list_index` is highlighted.
pub fn project_list_pane(lists: &Vec<TaskList>, cursor: &Cursor) -> (rows: Vec<ListRow>)
    requires
        cursor_wf(*cursor, lists@),
    ensures
        rows@.len() == lists@.len(),
        forall|i: int| 0 <= i < lists@.len() ==> (#[trigger] rows@[i]).name@ == lists@[i].name@,
        forall|i: int|
            0 <= i < lists@.len() ==> ((#[trigger] rows@[i]).highlighted <==> i
                == cursor.list_index),
{
    let mut rows: Vec<ListRow> = Vec::new();
    let mut i: usize = 0;
    while i < lists.len()
        invariant
            i <= lists@.len(),
            rows@.len() == i,
            forall|k: int| 0 <= k < i ==> (#[trigger] rows@[k]).name@ == lists@[k].name@,
            forall|k: int|
                0 <= k < i ==> ((#[trigger] rows@[k]).highlighted <==> k == cursor.list_index),
        decreases lists@.len() - i,
    {
        rows.push(
            ListRow { name: lists[i].name.clone(), highlighted: i == cursor.list_index },
        );
        i += 1;
    }
    rows
}

/// Projects the task pane for the list the cursor selects: one row per
/// task, in order, with name, tags and both dates rendered; exactly the
/// row at `cursor.task_index` is highlighted (no row is, while the list
/// pane is focused).
pub fn project_task_pane(lists: &Vec<TaskList>, cursor: &Cursor) -> (rows: Vec<TaskRow>)
    requires
        cursor_wf(*cursor, lists@),
        lists@[cursor.list_index as int].dates_wf(),
    ensures
        rows@.len() == lists@[cursor.list_index as int].tasks@.len(),
        forall|i: int|
            0 <= i < rows@.len() ==> task_row_matches(
                #[trigger] rows@[i],
                lists@[cursor.list_index as int].tasks@[i],
                cursor.task_index == Some(i as usize),
            ),
{
    let list = &lists[cursor.list_index];
    let mut rows: Vec<TaskRow> = Vec::new();
    let mut i: usize = 0;
    while i < list.tasks.len()
        invariant
            *list == lists@[cursor.list_index as int],
            list.dates_wf(),
            i <= list.tasks@.len(),
            rows@.len() == i,
            forall|k: int|
                0 <= k < i ==> task_row_matches(
                    #[trigger] rows@[k],
                    list.tasks@[k],
                    cursor.task_index == Some(k as usize),
                ),
        decreases list.tasks@.len() - i,
    {
        let task = &list.tasks[i];
        let highlighted = match cursor.task_index {
            Some(t) => t == i,
            None => false,
        };
        rows.push(
            TaskRow {
                name: task.name.clone(),
                tags: clone_strings(&task.tags),
                start: format_stamp(&task.start_date),
                due: format_stamp(&task.due_date),
                highlighted,
            },
        );
        i += 1;
    }
    rows
}

} // verus!
