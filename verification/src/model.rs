//! The task-list data model: tasks, named task lists, and calendar
//! timestamps held as plain fields.

use vstd::prelude::*;

verus! {

/// A calendar timestamp in the machine's local time zone, split into
/// plain fields so that verified code can read and format it.
#[derive(Clone, Copy, PartialEq, Eq, Structural, Debug)]
pub struct DateStamp {
    pub year: u32,
    pub month: u8,
    pub day: u8,
    pub hour: u8,
    pub minute: u8,
    pub second: u8,
}

impl DateStamp {
    /// Field bounds of a calendar timestamp: month 1..=12, day 1..=31,
    /// hour below 24, minute and second below 60.
    pub open spec fn wf(self) -> bool {
        &&& 1 <= self.month <= 12
        &&& 1 <= self.day <= 31
        &&& self.hour < 24
        &&& self.minute < 60
        &&& self.second < 60
    }

    /// Checks the field bounds.
    pub fn is_wf(&self) -> (ok: bool)
        ensures
            ok == self.wf(),
    {
        1 <= self.month && self.month <= 12 && 1 <= self.day && self.day <= 31
            && self.hour < 24 && self.minute < 60 && self.second < 60
    }
}

/// A single task: a name, tags, and a start and a due timestamp.
#[derive(Clone)]
pub struct Task {
    pub id: usize,
    pub name: String,
    pub tags: Vec<String>,
    pub start_date: DateStamp,
    pub due_date: DateStamp,
}

impl Task {
    /// Both timestamps of the task are well formed.
    pub open spec fn dates_wf(self) -> bool {
        self.start_date.wf() && self.due_date.wf()
    }
}

/// A named, ordered list of tasks. Identity for navigation is positional
/// (the list's index in the outer collection); `id` is carried data.
#[derive(Clone)]
pub struct TaskList {
    pub id: usize,
    pub name: String,
    pub tasks: Vec<Task>,
}

impl TaskList {
    /// Every task of the list carries well-formed timestamps.
    pub open spec fn dates_wf(self) -> bool {
        forall|i: int| 0 <= i < self.tasks@.len() ==> (#[trigger] self.tasks@[i]).dates_wf()
    }
}

/// The collection invariant the navigation core depends on: at least one
/// list, every list non-empty, and every timestamp well formed.
pub open spec fn lists_wf(lists: Seq<TaskList>) -> bool {
    &&& lists.len() > 0
    &&& forall|i: int| 0 <= i < lists.len() ==> (#[trigger] lists[i]).tasks@.len() > 0
    &&& forall|i: int| 0 <= i < lists.len() ==> (#[trigger] lists[i]).dates_wf()
}

/// Checks the collection invariant: non-empty, no empty list, all
/// timestamps within calendar bounds.
pub fn lists_valid(lists: &Vec<TaskList>) -> (ok: bool)
    ensures
        ok == lists_wf(lists@),
{
    if lists.len() == 0 {
        return false;
    }
    let mut i: usize = 0;
    while i < lists.len()
        invariant
            i <= lists@.len(),
            forall|k: int| 0 <= k < i ==> (#[trigger] lists@[k]).tasks@.len() > 0,
            forall|k: int| 0 <= k < i ==> (#[trigger] lists@[k]).dates_wf(),
        decreases lists@.len() - i,
    {
        let list = &lists[i];
        if list.tasks.len() == 0 {
            return false;
        }
        let mut j: usize = 0;
        while j < list.tasks.len()
            invariant
                i < lists@.len(),
                *list == lists@[i as int],
                j <= list.tasks@.len(),
                forall|k: int| 0 <= k < j ==> (#[trigger] list.tasks@[k]).dates_wf(),
            decreases list.tasks@.len() - j,
        {
            let task = &list.tasks[j];
            if !task.start_date.is_wf() || !task.due_date.is_wf() {
                proof {
                    assert(!lists@[i as int].tasks@[j as int].dates_wf());
                }
                return false;
            }
            j += 1;
        }
        i += 1;
    }
    true
}

} // verus!
