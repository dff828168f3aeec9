//! The selection state machine: the two-level cursor over the task-list
//! collection, and the transition it makes for each consumed event.

use vstd::prelude::*;
use crate::model::TaskList;

verus! {

/// The keys the state machine reacts to; every other key press maps to
/// `Other` and is a no-op.
#[derive(Clone, Copy, PartialEq, Eq, Structural, Debug)]
pub enum Key {
    Q,
    H,
    J,
    K,
    L,
    Other,
}

/// One event of the merged input stream: a key press or a timer tick.
#[derive(Clone, Copy, PartialEq, Eq, Structural, Debug)]
pub enum Event {
    Key(Key),
    Tick,
}

/// The navigation cursor. `task_index == None` means the list pane is
/// focused; `Some(t)` means the task pane is focused at row `t`.
#[derive(Clone, Copy)]
pub struct Cursor {
    pub list_index: usize,
    pub task_index: Option<usize>,
}

/// The cursor is within bounds: `list_index` addresses a list, and a
/// present `task_index` addresses a task of that list.
pub open spec fn cursor_wf(c: Cursor, lists: Seq<TaskList>) -> bool {
    &&& c.list_index < lists.len()
    &&& match c.task_index {
        Some(t) => t < lists[c.list_index as int].tasks@.len(),
        None => true,
    }
}

/// An event asks the consumer loop to stop exactly when it is a `q` press.
pub open spec fn is_quit(ev: Event) -> bool {
    ev == Event::Key(Key::Q)
}

/// The transition table of the selection state machine. `j`/`k` move the
/// focused index down/up by one, saturating at the bounds; `l` enters the
/// task pane at row 0 (a no-op on an empty list); `h` returns to the list
/// pane; `q`, `Tick` and every other key leave the cursor unchanged. The
/// bound used to clamp is always taken from the list selected at the
/// moment of the move, never from a previously selected list.
pub open spec fn next_cursor(c: Cursor, lists: Seq<TaskList>, ev: Event) -> Cursor
    recommends
        cursor_wf(c, lists),
{
    match ev {
        Event::Tick => c,
        Event::Key(key) => match c.task_index {
            Some(t) => match key {
                Key::H => Cursor { list_index: c.list_index, task_index: None },
                Key::J => if t + 1 < lists[c.list_index as int].tasks@.len() {
                    Cursor { list_index: c.list_index, task_index: Some((t + 1) as usize) }
                } else {
                    c
                },
                Key::K => if t > 0 {
                    Cursor { list_index: c.list_index, task_index: Some((t - 1) as usize) }
                } else {
                    c
                },
                _ => c,
            },
            None => match key {
                Key::J => if c.list_index + 1 < lists.len() {
                    Cursor { list_index: (c.list_index + 1) as usize, task_index: None }
                } else {
                    c
                },
                Key::K => if c.list_index > 0 {
                    Cursor { list_index: (c.list_index - 1) as usize, task_index: None }
                } else {
                    c
                },
                Key::L => if lists[c.list_index as int].tasks@.len() > 0 {
                    Cursor { list_index: c.list_index, task_index: Some(0usize) }
                } else {
                    c
                },
                _ => c,
            },
        },
    }
}

impl Cursor {
    /// The cursor at startup: list pane focused, first list selected.
    pub fn init() -> (c: Cursor)
        ensures
            c.list_index == 0,
            c.task_index is None,
    {
        Cursor { list_index: 0, task_index: None }
    }

    /// Consumes one event: mutates the cursor as the transition table
    /// says and reports whether the event asks the loop to stop.
    pub fn step(&mut self, lists: &Vec<TaskList>, ev: Event) -> (quit: bool)
        requires
            cursor_wf(*old(self), lists@),
        ensures
            *final(self) == next_cursor(*old(self), lists@, ev),
            quit == is_quit(ev),
            cursor_wf(*final(self), lists@),
    {
        match ev {
            Event::Tick => false,
            Event::Key(key) => {
                if let Key::Q = key {
                    return true;
                }
                match self.task_index {
                    Some(t) => {
                        let count = lists[self.list_index].tasks.len();
                        match key {
                            Key::H => {
                                self.task_index = None;
                            },
                            Key::J => {
                                if t + 1 < count {
                                    self.task_index = Some(t + 1);
                                }
                            },
                            Key::K => {
                                if t > 0 {
                                    self.task_index = Some(t - 1);
                                }
                            },
                            _ => {},
                        }
                    },
                    None => {
                        match key {
                            Key::J => {
                                if self.list_index < lists.len() - 1 {
                                    self.list_index = self.list_index + 1;
                                }
                            },
                            Key::K => {
                                if self.list_index > 0 {
                                    self.list_index = self.list_index - 1;
                                }
                            },
                            Key::L => {
                                if lists[self.list_index].tasks.len() > 0 {
                                    self.task_index = Some(0);
                                }
                            },
                            _ => {},
                        }
                    },
                }
                false
            },
        }
    }
}

/// The cursor after consuming the events of `evs` in order, stopping at
/// the first `q` press: events that follow it are never processed.
pub open spec fn run(c: Cursor, lists: Seq<TaskList>, evs: Seq<Event>) -> Cursor
    recommends
        cursor_wf(c, lists),
    decreases evs.len(),
{
    if evs.len() == 0 {
        c
    } else if is_quit(evs[0]) {
        c
    } else {
        run(next_cursor(c, lists, evs[0]), lists, evs.drop_first())
    }
}

/// Law: one transition keeps the cursor within bounds.
pub proof fn lemma_step_preserves_wf(c: Cursor, lists: Seq<TaskList>, ev: Event)
    requires
        cursor_wf(c, lists),
    ensures
        cursor_wf(next_cursor(c, lists, ev), lists),
{
}

/// Law: over every event sequence the cursor stays within bounds —
/// `list_index` in `[0, lists.len() - 1]` and, when the task pane is
/// focused, `task_index` in `[0, tasks.len() - 1]` of the selected list.
pub proof fn lemma_run_preserves_wf(c: Cursor, lists: Seq<TaskList>, evs: Seq<Event>)
    requires
        cursor_wf(c, lists),
    ensures
        cursor_wf(run(c, lists, evs), lists),
    decreases evs.len(),
{
    if evs.len() > 0 && !is_quit(evs[0]) {
        lemma_step_preserves_wf(c, lists, evs[0]);
        lemma_run_preserves_wf(next_cursor(c, lists, evs[0]), lists, evs.drop_first());
    }
}

/// Law: with the list pane focused, `j` and `k` move `list_index` by
/// exactly one step, saturating at the bounds (never wrapping), and the
/// list pane stays focused.
pub proof fn lemma_list_nav_step(c: Cursor, lists: Seq<TaskList>)
    requires
        cursor_wf(c, lists),
        c.task_index is None,
        lists.len() <= usize::MAX,
    ensures
        ({
            let down = next_cursor(c, lists, Event::Key(Key::J));
            let up = next_cursor(c, lists, Event::Key(Key::K));
            &&& down.list_index == if c.list_index + 1 < lists.len() {
                c.list_index + 1
            } else {
                c.list_index as int
            }
            &&& up.list_index == if c.list_index > 0 {
                c.list_index - 1
            } else {
                0int
            }
            &&& down.task_index is None
            &&& up.task_index is None
        }),
{
}

/// Law: with the task pane focused, `j` and `k` move `task_index` by
/// exactly one step, saturating at the bounds of the selected list's
/// task count, and the focus and `list_index` stay as they are.
pub proof fn lemma_task_nav_step(c: Cursor, lists: Seq<TaskList>, t: usize)
    requires
        cursor_wf(c, lists),
        c.task_index == Some(t),
    ensures
        ({
            let count = lists[c.list_index as int].tasks@.len();
            let down = next_cursor(c, lists, Event::Key(Key::J));
            let up = next_cursor(c, lists, Event::Key(Key::K));
            &&& down.task_index == Some((if t + 1 < count { t + 1 } else { t as int }) as usize)
            &&& up.task_index == Some((if t > 0 { t - 1 } else { 0int }) as usize)
            &&& down.list_index == c.list_index
            &&& up.list_index == c.list_index
        }),
{
}

/// Law: from the list pane, entering the task pane with `l` and leaving
/// with `h` restores the cursor exactly as it was, and a second `l`
/// selects task row 0 again.
pub proof fn lemma_enter_leave_round_trip(c: Cursor, lists: Seq<TaskList>)
    requires
        cursor_wf(c, lists),
        c.task_index is None,
        lists[c.list_index as int].tasks@.len() > 0,
    ensures
        ({
            let entered = next_cursor(c, lists, Event::Key(Key::L));
            let left = next_cursor(entered, lists, Event::Key(Key::H));
            &&& entered.list_index == c.list_index
            &&& entered.task_index == Some(0usize)
            &&& left == c
            &&& next_cursor(left, lists, Event::Key(Key::L)) == entered
        }),
{
}

/// Law: after any sequence of `j`/`k` presses in the list pane, `l`
/// enters the task pane at row 0 of the list selected at that moment —
/// never at an index left over from a previously selected list.
pub proof fn lemma_enter_selects_row_zero(c: Cursor, lists: Seq<TaskList>, moves: Seq<Event>)
    requires
        cursor_wf(c, lists),
        c.task_index is None,
        forall|i: int|
            0 <= i < moves.len() ==> moves[i] == Event::Key(Key::J) || moves[i] == Event::Key(
                Key::K,
            ),
    ensures
        ({
            let moved = run(c, lists, moves);
            &&& moved.task_index is None
            &&& cursor_wf(moved, lists)
            &&& lists[moved.list_index as int].tasks@.len() > 0 ==> next_cursor(
                moved,
                lists,
                Event::Key(Key::L),
            ) == (Cursor { list_index: moved.list_index, task_index: Some(0usize) })
        }),
    decreases moves.len(),
{
    if moves.len() > 0 {
        lemma_step_preserves_wf(c, lists, moves[0]);
        lemma_enter_selects_row_zero(next_cursor(c, lists, moves[0]), lists, moves.drop_first());
    }
}

/// Law: a `Tick` event never changes the cursor and never asks the loop
/// to stop.
pub proof fn lemma_tick_is_noop(c: Cursor, lists: Seq<TaskList>)
    ensures
        next_cursor(c, lists, Event::Tick) == c,
        !is_quit(Event::Tick),
{
}

/// Law: the first `q` press ends the run — whatever events follow it,
/// they are never processed and the final cursor is the one reached just
/// before the `q`.
pub proof fn lemma_quit_stops_run(c: Cursor, lists: Seq<TaskList>, evs: Seq<Event>, i: int)
    requires
        0 <= i < evs.len(),
        is_quit(evs[i]),
        forall|j: int| 0 <= j < i ==> !is_quit(#[trigger] evs[j]),
    ensures
        run(c, lists, evs) == run(c, lists, evs.take(i)),
    decreases i,
{
    if i > 0 {
        lemma_quit_stops_run(next_cursor(c, lists, evs[0]), lists, evs.drop_first(), i - 1);
        assert(evs.drop_first().take(i - 1) =~= evs.take(i).drop_first());
    }
}

/// Translates a pressed character into the machine's key alphabet.
pub fn key_of_char(c: char) -> (k: Key)
    ensures
        k == spec_key_of_char(c),
{
    if c == 'q' {
        Key::Q
    } else if c == 'h' {
        Key::H
    } else if c == 'j' {
        Key::J
    } else if c == 'k' {
        Key::K
    } else if c == 'l' {
        Key::L
    } else {
        Key::Other
    }
}

/// The key each character maps to: `q`, `h`, `j`, `k`, `l` are commands,
/// everything else is `Other`.
pub open spec fn spec_key_of_char(c: char) -> Key {
    if c == 'q' {
        Key::Q
    } else if c == 'h' {
        Key::H
    } else if c == 'j' {
        Key::J
    } else if c == 'k' {
        Key::K
    } else if c == 'l' {
        Key::L
    } else {
        Key::Other
    }
}

} // verus!
