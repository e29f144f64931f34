//! The table of the conversions that are in flight.
//!
//! The table is book-keeping only. Taking a task out of it, by `cancel` as
//! by `unregister`, does not stop the encoder that works on it.

use vstd::prelude::*;
use vstd::hash_map::StringHashMap;

verus! {

/// The conversions in flight: each task identifier in the table, with its
/// marker, which says whether the task is active.
pub struct TaskRegistry {
    tasks: StringHashMap<bool>,
}

impl View for TaskRegistry {
    type V = Map<Seq<char>, bool>;

    closed spec fn view(&self) -> Map<Seq<char>, bool> {
        self.tasks@
    }
}

/// Whether `task_id` is in `table` and marked active.
pub open spec fn active_in(table: Map<Seq<char>, bool>, task_id: Seq<char>) -> bool {
    table.contains_key(task_id) && table[task_id]
}

impl TaskRegistry {
    /// A table with no task in it.
    pub fn new() -> (r: TaskRegistry)
        ensures
            r@ == Map::<Seq<char>, bool>::empty(),
    {
        TaskRegistry { tasks: StringHashMap::new() }
    }

    /// Puts `task_id` into the table, marked active. To register a task
    /// twice is to register it once.
    pub fn register(&mut self, task_id: &str)
        ensures
            final(self)@ == old(self)@.insert(task_id@, true),
            active_in(final(self)@, task_id@),
    {
        self.tasks.insert(task_id.to_owned(), true);
    }

    /// Takes `task_id` out of the table, once its conversion has returned.
    pub fn unregister(&mut self, task_id: &str)
        ensures
            final(self)@ == old(self)@.remove(task_id@),
            !active_in(final(self)@, task_id@),
    {
        self.tasks.remove(task_id);
    }

    /// Takes `task_id` out of the table at the caller's request. It always
    /// succeeds: for a task that is not in the table it changes nothing.
    pub fn cancel(&mut self, task_id: &str)
        ensures
            final(self)@ == old(self)@.remove(task_id@),
            !active_in(final(self)@, task_id@),
            !old(self)@.contains_key(task_id@) ==> final(self)@ == old(self)@,
    {
        self.tasks.remove(task_id);
        assert(!old(self)@.contains_key(task_id@) ==> old(self)@.remove(task_id@) =~= old(self)@);
    }

    /// Whether `task_id` is in flight: in the table and marked active.
    pub fn is_active(&self, task_id: &str) -> (r: bool)
        ensures
            r == active_in(self@, task_id@),
    {
        match self.tasks.get(task_id) {
            Some(marker) => *marker,
            None => false,
        }
    }
}

} // verus!
