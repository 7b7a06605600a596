use crate::clock::{local_now_seconds, naive_seconds, parse_naive_seconds};
use crate::error::ErrorKind;
use crate::text::{decimal, push_decimal, str_eq};
use vstd::prelude::*;
use vstd::string::*;

verus! {

/// What can go wrong inside the task store.
#[derive(Clone, Copy, Debug, PartialEq, Eq, Structural)]
pub enum TodoError {
    TodoOutOfBoundsError,
    TodoAddingError,
}

impl TodoError {
    /// The text shown for the error.
    pub open spec fn spec_message(self) -> Seq<char> {
        match self {
            TodoError::TodoOutOfBoundsError => "Input out of bounds"@,
            TodoError::TodoAddingError => "Adding failed"@,
        }
    }

    /// The text shown for the error.
    pub fn message(&self) -> (s: String)
        ensures
            s@ == self.spec_message(),
    {
        match self {
            TodoError::TodoOutOfBoundsError => String::from_str("Input out of bounds"),
            TodoError::TodoAddingError => String::from_str("Adding failed"),
        }
    }
}

/// The pattern by which a typed due date is read: year, abbreviated month
/// name, day, then hour, minute and second.
pub open spec fn date_format() -> Seq<char> {
    "%Y %b %d %H:%M:%S"@
}

/// One task as the contracts see it.
pub struct ItemView {
    pub title: Seq<char>,
    pub completed: bool,
    pub due_date: Option<i64>,
}

/// One task. A due date is held as whole seconds of the local calendar.
#[derive(Debug)]
pub struct TodoItem {
    pub title: String,
    pub completed: bool,
    pub due_date: Option<i64>,
}

impl View for TodoItem {
    type V = ItemView;

    open spec fn view(&self) -> ItemView {
        ItemView { title: self.title@, completed: self.completed, due_date: self.due_date }
    }
}

impl TodoItem {
    /// A new pending task.
    pub fn new(item_title: String, due_date: Option<i64>) -> (item: TodoItem)
        ensures
            item@ == (ItemView { title: item_title@, completed: false, due_date }),
    {
        TodoItem { title: item_title, completed: false, due_date }
    }

    /// The task as one line of plain text.
    pub fn print_text(&self) -> (line: String)
        ensures
            line@ == spec_print_text(self@),
    {
        let mut line = self.title.clone();
        line.append(": ");
        if self.completed {
            line.append("[X]\n");
        } else {
            line.append("[]\n");
        }
        line
    }
}

/// A task as one line of plain text: the title, then an empty pair of
/// brackets for a pending task and a crossed one for a completed task.
pub open spec fn spec_print_text(item: ItemView) -> Seq<char> {
    item.title + ": "@ + if item.completed {
        "[X]\n"@
    } else {
        "[]\n"@
    }
}

/// The pending tasks as plain text, one numbered line each.
pub open spec fn spec_print_list_text(items: Seq<ItemView>) -> Seq<char>
    decreases items.len(),
{
    if items.len() == 0 {
        Seq::<char>::empty()
    } else {
        spec_print_list_text(items.drop_last()) + decimal((items.len() - 1) as nat) + ". "@
            + spec_print_text(items.last())
    }
}

/// The task lists as the contracts see them.
pub struct ListView {
    pub todo: Seq<ItemView>,
    pub completed: Seq<ItemView>,
}

impl ListView {
    /// Every pending task is marked pending and every completed one completed.
    pub open spec fn wf(self) -> bool {
        &&& forall|i: int| 0 <= i < self.todo.len() ==> !(#[trigger] self.todo[i]).completed
        &&& forall|i: int| 0 <= i < self.completed.len() ==> (#[trigger] self.completed[i]).completed
    }

    /// The lists with one more pending task at the end.
    pub open spec fn add(self, title: Seq<char>, due_date: Option<i64>) -> ListView {
        ListView {
            todo: self.todo.push(ItemView { title, completed: false, due_date }),
            completed: self.completed,
        }
    }

    /// The lists after the pending task `i` has moved to the end of the
    /// completed ones.
    pub open spec fn complete(self, i: int) -> ListView {
        ListView {
            todo: self.todo.remove(i),
            completed: self.completed.push(
                ItemView { title: self.todo[i].title, completed: true, due_date: self.todo[i].due_date },
            ),
        }
    }

    /// The lists after the completed task `i` has moved to the end of the
    /// pending ones.
    pub open spec fn uncomplete(self, i: int) -> ListView {
        ListView {
            todo: self.todo.push(
                ItemView {
                    title: self.completed[i].title,
                    completed: false,
                    due_date: self.completed[i].due_date,
                },
            ),
            completed: self.completed.remove(i),
        }
    }

    /// What adding a task with a due date does: the date must have been read
    /// and lie after `now`.
    pub open spec fn add_due(self, title: Seq<char>, due: Option<i64>, now: i64) -> (
        ListView,
        Result<usize, ErrorKind>,
    ) {
        match due {
            Some(d) if d > now => (self.add(title, Some(d)), Ok(self.todo.len() as usize)),
            _ => (self, Err(ErrorKind::Unsupported)),
        }
    }
}

/// A due date that is not after the current time is refused, and the store
/// stays as it is.
pub proof fn lemma_past_date_refused(list: ListView, title: Seq<char>, due: i64, now: i64)
    requires
        due <= now,
    ensures
        list.add_due(title, Some(due), now) == (list, Err::<usize, ErrorKind>(ErrorKind::Unsupported)),
{
}

/// Adding, completing and uncompleting keep every pending task marked
/// pending and every completed one marked completed.
pub proof fn lemma_store_stays_well_formed(
    list: ListView,
    title: Seq<char>,
    due_date: Option<i64>,
    i: int,
)
    requires
        list.wf(),
    ensures
        list.add(title, due_date).wf(),
        0 <= i < list.todo.len() ==> list.complete(i).wf(),
        0 <= i < list.completed.len() ==> list.uncomplete(i).wf(),
{
}

/// Completing a pending task and then uncompleting it again brings it back
/// as it was, with its title and its due date, and leaves the completed tasks
/// as they were. The task comes back at the end of the pending ones; it was
/// completed last, so it is found behind the tasks completed before it. With
/// no task completed before, that is at index 0.
pub proof fn lemma_complete_then_uncomplete(list: ListView, i: int)
    requires
        list.wf(),
        0 <= i < list.todo.len(),
    ensures
        list.complete(i).uncomplete(list.completed.len() as int).completed == list.completed,
        list.complete(i).uncomplete(list.completed.len() as int).todo == list.todo.remove(i).push(
            list.todo[i],
        ),
        list.complete(i).uncomplete(list.completed.len() as int).todo.to_multiset()
            == list.todo.to_multiset(),
{
    let back = list.complete(i).uncomplete(list.completed.len() as int);
    assert(back.completed =~= list.completed);
    assert(back.todo =~= list.todo.remove(i).push(list.todo[i]));
    list.todo.to_multiset_ensures();
    list.todo.remove(i).to_multiset_ensures();
    assert(list.todo.contains(list.todo[i]));
    assert(back.todo.to_multiset() =~= list.todo.to_multiset());
}

/// The pending and the completed tasks, each in the order in which they
/// arrived in their list.
#[derive(Debug)]
pub struct TodoList {
    pub todo_items: Vec<TodoItem>,
    pub completed_items: Vec<TodoItem>,
}

/// The views of a run of tasks.
pub open spec fn item_views(items: Seq<TodoItem>) -> Seq<ItemView> {
    items.map_values(|item: TodoItem| item@)
}

impl View for TodoList {
    type V = ListView;

    open spec fn view(&self) -> ListView {
        ListView { todo: item_views(self.todo_items@), completed: item_views(self.completed_items@) }
    }
}

impl TodoList {
    /// A store without tasks.
    pub fn new() -> (list: TodoList)
        ensures
            list@.todo == Seq::<ItemView>::empty(),
            list@.completed == Seq::<ItemView>::empty(),
    {
        let list = TodoList { todo_items: Vec::new(), completed_items: Vec::new() };
        assert(list@.todo =~= Seq::<ItemView>::empty());
        assert(list@.completed =~= Seq::<ItemView>::empty());
        list
    }

    /// Adds a pending task without due date and returns its index.
    pub fn add_item(&mut self, item_title: &str) -> (r: Result<usize, ErrorKind>)
        ensures
            final(self)@ == old(self)@.add(item_title@, None),
            r == Ok::<usize, ErrorKind>(old(self)@.todo.len() as usize),
    {
        self.todo_items.push(TodoItem::new(String::from_str(item_title), None));
        assert(self@.todo == old(self)@.todo.push(
            ItemView { title: item_title@, completed: false, due_date: None },
        ));
        Ok(self.todo_items.len() - 1)
    }

    /// Adds a pending task whose due date has been read already: `due` is what
    /// reading gave, `now` the current time. A date that could not be read, or
    /// that is not after `now`, is refused and the store stays as it is.
    pub fn add_item_due(&mut self, item_title: &str, due: Option<i64>, now: i64) -> (r: Result<
        usize,
        ErrorKind,
    >)
        ensures
            (final(self)@, r) == old(self)@.add_due(item_title@, due, now),
    {
        let date = match due {
            Some(d) => d,
            None => {
                return Err(ErrorKind::Unsupported);
            },
        };
        if date <= now {
            return Err(ErrorKind::Unsupported);
        }
        self.todo_items.push(TodoItem::new(String::from_str(item_title), Some(date)));
        assert(self@.todo == old(self)@.todo.push(
            ItemView { title: item_title@, completed: false, due_date: Some(date) },
        ));
        Ok(self.todo_items.len() - 1)
    }

    /// Adds a pending task with a due date typed as year, abbreviated month
    /// name, day and time of day. The date is read, then held against the
    /// clock; for what follows see `add_item_due`.
    pub fn add_item_with_date(&mut self, item_title: &str, date: &str) -> (r: Result<
        usize,
        ErrorKind,
    >)
        ensures
            exists|now: i64|
                (final(self)@, r) == #[trigger] old(self)@.add_due(
                    item_title@,
                    naive_seconds(date@, date_format()),
                    now,
                ),
    {
        let due = parse_naive_seconds(date, "%Y %b %d %H:%M:%S");
        let time_now = local_now_seconds();
        let r = self.add_item_due(item_title, due, time_now);
        assert((self@, r) == old(self)@.add_due(
            item_title@,
            naive_seconds(date@, date_format()),
            time_now,
        ));
        r
    }

    /// Moves the pending task `item_id` to the end of the completed ones.
    pub fn complete_item(&mut self, item_id: usize) -> (r: Result<(), ErrorKind>)
        ensures
            item_id < old(self)@.todo.len() ==> r == Ok::<(), ErrorKind>(()) && final(self)@ == old(
                self,
            )@.complete(item_id as int),
            item_id >= old(self)@.todo.len() ==> r == Err::<(), ErrorKind>(ErrorKind::InvalidInput)
                && final(self)@ == old(self)@,
    {
        if item_id >= self.todo_items.len() {
            return Err(ErrorKind::InvalidInput);
        }
        let mut item = self.todo_items.remove(item_id);
        item.completed = true;
        self.completed_items.push(item);
        assert(self@.todo == old(self)@.todo.remove(item_id as int));
        assert(self@.completed == old(self)@.complete(item_id as int).completed);
        Ok(())
    }

    /// Moves the completed task `item_id` to the end of the pending ones.
    pub fn uncomplete_item(&mut self, item_id: usize) -> (r: Result<(), ErrorKind>)
        ensures
            item_id < old(self)@.completed.len() ==> r == Ok::<(), ErrorKind>(()) && final(self)@
                == old(self)@.uncomplete(item_id as int),
            item_id >= old(self)@.completed.len() ==> r == Err::<(), ErrorKind>(
                ErrorKind::InvalidInput,
            ) && final(self)@ == old(self)@,
    {
        if item_id >= self.completed_items.len() {
            return Err(ErrorKind::InvalidInput);
        }
        let mut item = self.completed_items.remove(item_id);
        item.completed = false;
        self.todo_items.push(item);
        assert(self@.completed == old(self)@.completed.remove(item_id as int));
        assert(self@.todo == old(self)@.uncomplete(item_id as int).todo);
        Ok(())
    }

    /// The index of the first pending task with the given title.
    pub fn find_item_id(&self, item_title: &str) -> (r: Option<usize>)
        ensures
            match r {
                Some(id) => id < self@.todo.len() && self@.todo[id as int].title == item_title@
                    && forall|j: int| 0 <= j < id ==> (#[trigger] self@.todo[j]).title
                    != item_title@,
                None => forall|j: int| 0 <= j < self@.todo.len() ==> (#[trigger] self@.todo[j]).title
                    != item_title@,
            },
    {
        let mut i: usize = 0;
        while i < self.todo_items.len()
            invariant
                i <= self.todo_items.len(),
                forall|j: int| 0 <= j < i ==> (#[trigger] self@.todo[j]).title != item_title@,
            decreases self.todo_items.len() - i,
        {
            if str_eq(self.todo_items[i].title.as_str(), item_title) {
                return Some(i);
            }
            i += 1;
        }
        None
    }

    /// The pending tasks as plain text, one numbered line each.
    pub fn print_list_text(&self) -> (text: String)
        ensures
            text@ == spec_print_list_text(self@.todo),
    {
        let mut text = String::new();
        let mut i: usize = 0;
        while i < self.todo_items.len()
            invariant
                i <= self.todo_items.len(),
                text@ == spec_print_list_text(self@.todo.take(i as int)),
            decreases self.todo_items.len() - i,
        {
            push_decimal(&mut text, i as u128);
            text.append(". ");
            let line = self.todo_items[i].print_text();
            text.append(line.as_str());
            proof {
                let next = self@.todo.take(i + 1);
                assert(next.drop_last() == self@.todo.take(i as int));
                assert(next.last() == self.todo_items[i as int]@);
                assert(text@ =~= spec_print_list_text(next));
            }
            i += 1;
        }
        assert(self@.todo.take(i as int) == self@.todo);
        text
    }

    /// Forgets the completed tasks; the pending ones stay as they are.
    pub fn clear_completed(&mut self)
        ensures
            final(self)@.todo == old(self)@.todo,
            final(self)@.completed == Seq::<ItemView>::empty(),
    {
        self.completed_items = Vec::new();
        assert(self@.completed =~= Seq::<ItemView>::empty());
    }

    /// The number of pending tasks.
    pub fn todo_len(&self) -> (n: usize)
        ensures
            n == self@.todo.len(),
    {
        self.todo_items.len()
    }

    /// The number of completed tasks.
    pub fn completed_len(&self) -> (n: usize)
        ensures
            n == self@.completed.len(),
    {
        self.completed_items.len()
    }
}

} // verus!
