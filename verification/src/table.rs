//! The table of tasks as the service expects storage to keep it.
//!
//! [`TableView`] says what each statement means: what it answers and what it
//! leaves behind. [`TaskTable`] keeps such a table in memory and runs
//! statements on it, so that the service can be driven from end to end
//! without a database.

use vstd::prelude::*;
use crate::envelope::{rows_view, Response, ResponseView};
use crate::route::Method;
use crate::service::{plan, planned, reply_of, respond, Step, StepView};
use crate::statement::{Outcome, OutcomeView, Statement, StatementView};
use crate::task::{FieldsView, TaskFields, TaskRow, TaskView};

verus! {

/// The highest id that storage assigns.
pub const LAST_ID: i64 = 2147483647;

/// The rows of the table and the id that the next insert will assign.
pub struct TableView {
    /// The rows, the lowest id first.
    pub rows: Seq<TaskView>,
    pub next_id: int,
}

/// The tasks with a given id.
pub open spec fn has_id(id: int) -> spec_fn(TaskView) -> bool {
    |task: TaskView| task.id == id
}

/// The tasks with any other id.
pub open spec fn lacks_id(id: int) -> spec_fn(TaskView) -> bool {
    |task: TaskView| task.id != id
}

/// Puts new fields on the task with a given id, and leaves every other task.
pub open spec fn set_fields(id: int, fields: FieldsView) -> spec_fn(TaskView) -> TaskView {
    |task: TaskView|
        if task.id == id {
            task.replaced(fields)
        } else {
            task
        }
}

/// Whether the ids rise strictly from each task to the next.
pub open spec fn ascending(tasks: Seq<TaskView>) -> bool {
    forall|i: int, j: int| 0 <= i < j < tasks.len() ==> tasks[i].id < tasks[j].id
}

/// Whether the ids fall strictly from each task to the next.
pub open spec fn descending(tasks: Seq<TaskView>) -> bool {
    forall|i: int, j: int| 0 <= i < j < tasks.len() ==> tasks[i].id > tasks[j].id
}

/// Whether every id is at least 1 and below a bound.
pub open spec fn ids_below(tasks: Seq<TaskView>, bound: int) -> bool {
    forall|i: int| 0 <= i < tasks.len() ==> 1 <= (#[trigger] tasks[i]).id < bound
}

/// Whether some task has a given id.
pub open spec fn holds_id(tasks: Seq<TaskView>, id: int) -> bool {
    exists|i: int| 0 <= i < tasks.len() && (#[trigger] tasks[i]).id == id
}

/// What storage says when no id is left to assign.
pub open spec fn exhausted_message() -> Seq<char> {
    "no id is left to assign"@
}

impl TableView {
    /// A table without rows whose first insert will assign a given id.
    pub open spec fn fresh(first_id: int) -> TableView {
        TableView { rows: Seq::empty(), next_id: first_id }
    }

    /// The table before anything was stored: no row, and 1 as the first id.
    pub open spec fn empty() -> TableView {
        TableView::fresh(1)
    }

    /// The invariant of the table: ids are unique and kept in rising order,
    /// every id was assigned before, and ids are assigned from 1 upwards
    /// within 32 signed bits.
    pub open spec fn wf(self) -> bool {
        &&& 1 <= self.next_id <= LAST_ID + 1
        &&& ids_below(self.rows, self.next_id)
        &&& ascending(self.rows)
    }

    /// Whether every id has been assigned.
    pub open spec fn exhausted(self) -> bool {
        self.next_id > LAST_ID
    }

    /// Every task, the highest id first.
    pub open spec fn select_all(self) -> Seq<TaskView> {
        self.rows.reverse()
    }

    /// The tasks with a given id.
    pub open spec fn select(self, id: int) -> Seq<TaskView> {
        self.rows.filter(has_id(id))
    }

    /// The table with one more task, under the next id.
    pub open spec fn insert(self, fields: FieldsView) -> TableView {
        TableView { rows: self.rows.push(fields.with_id(self.next_id)), next_id: self.next_id + 1 }
    }

    /// The table with new fields on the task with a given id.
    pub open spec fn update(self, id: int, fields: FieldsView) -> TableView {
        TableView { rows: self.rows.map_values(set_fields(id, fields)), next_id: self.next_id }
    }

    /// The table without the task with a given id.
    pub open spec fn delete(self, id: int) -> TableView {
        TableView { rows: self.rows.filter(lacks_id(id)), next_id: self.next_id }
    }

    /// What a statement leaves behind and what it answers. A select changes
    /// nothing. An insert fails where no id is left, and changes nothing
    /// then. An update and a delete are done whether or not a task has the
    /// id.
    pub open spec fn run(self, statement: StatementView) -> (TableView, OutcomeView) {
        match statement {
            StatementView::SelectAll => (self, OutcomeView::Rows(self.select_all())),
            StatementView::SelectById { id } => (self, OutcomeView::Rows(self.select(id))),
            StatementView::Insert { fields } => if self.exhausted() {
                (self, OutcomeView::Failed(exhausted_message()))
            } else {
                (self.insert(fields), OutcomeView::Created(self.next_id))
            },
            StatementView::Update { id, fields } => (self.update(id, fields), OutcomeView::Done),
            StatementView::Delete { id } => (self.delete(id), OutcomeView::Done),
        }
    }

    /// What a request leaves behind and what it is answered: the reply of a
    /// request that is settled at once, else the response to what the
    /// statement answered.
    pub open spec fn serve(self, method: Method, path: Seq<u8>, body: Seq<u8>) -> (
        TableView,
        ResponseView,
    ) {
        match planned(method, path, body) {
            StepView::Reply(response) => (self, response),
            StepView::Run(statement) => (self.run(statement).0, reply_of(self.run(statement).1)),
        }
    }
}

/// A table of tasks kept in memory.
pub struct TaskTable {
    rows: Vec<TaskRow>,
    next_id: i64,
}

impl View for TaskTable {
    type V = TableView;

    closed spec fn view(&self) -> TableView {
        TableView { rows: rows_view(self.rows@), next_id: self.next_id as int }
    }
}

impl TaskTable {
    /// A table without rows, whose first id will be 1.
    pub fn new() -> (table: TaskTable)
        ensures
            table@ == TableView::empty(),
            table@.wf(),
    {
        let table = TaskTable { rows: Vec::new(), next_id: 1 };
        proof {
            assert(table@.rows =~= Seq::<TaskView>::empty());
        }
        table
    }

    /// A table without rows whose first insert will assign a given id, as
    /// after a restart of the id sequence. `None` exactly where the id is
    /// below 1.
    pub fn starting_at(first_id: i32) -> (made: Option<TaskTable>)
        ensures
            match made {
                Some(table) => first_id >= 1 && table@ == TableView::fresh(first_id as int)
                    && table@.wf(),
                None => first_id < 1,
            },
    {
        if first_id < 1 {
            None
        } else {
            let table = TaskTable { rows: Vec::new(), next_id: first_id as i64 };
            proof {
                assert(table@.rows =~= Seq::<TaskView>::empty());
            }
            Some(table)
        }
    }

    /// Every task, the highest id first.
    fn select_all(&self) -> (found: Vec<TaskRow>)
        ensures
            rows_view(found@) == self@.select_all(),
    {
        let mut found: Vec<TaskRow> = Vec::new();
        let mut at: usize = self.rows.len();
        while at > 0
            invariant
                at <= self.rows.len(),
                found.len() == self.rows.len() - at,
                forall|i: int|
                    0 <= i < found.len() ==> #[trigger] found@[i] == self.rows@[self.rows.len() - 1
                        - i],
            decreases at,
        {
            at -= 1;
            found.push(self.rows[at].duplicate());
        }
        found
    }

    /// The tasks with a given id.
    fn select(&self, id: i32) -> (found: Vec<TaskRow>)
        ensures
            rows_view(found@) == self@.select(id as int),
    {
        let mut found: Vec<TaskRow> = Vec::new();
        let mut at: usize = 0;
        let ghost all = rows_view(self.rows@);
        while at < self.rows.len()
            invariant
                at <= self.rows.len(),
                all == rows_view(self.rows@),
                rows_view(found@) == all.take(at as int).filter(has_id(id as int)),
            decreases self.rows.len() - at,
        {
            proof {
                reveal(Seq::filter);
                assert(all.take(at + 1).drop_last() =~= all.take(at as int));
            }
            if self.rows[at].id == id {
                found.push(self.rows[at].duplicate());
            }
            at += 1;
        }
        proof {
            assert(all.take(at as int) =~= all);
        }
        found
    }

    /// Takes out the task with a given id, if there is one.
    fn delete(&mut self, id: i32)
        ensures
            final(self)@ == old(self)@.delete(id as int),
    {
        let mut kept: Vec<TaskRow> = Vec::new();
        let mut at: usize = 0;
        let ghost all = rows_view(self.rows@);
        while at < self.rows.len()
            invariant
                at <= self.rows.len(),
                all == rows_view(self.rows@),
                rows_view(kept@) == all.take(at as int).filter(lacks_id(id as int)),
            decreases self.rows.len() - at,
        {
            proof {
                reveal(Seq::filter);
                assert(all.take(at + 1).drop_last() =~= all.take(at as int));
            }
            if self.rows[at].id != id {
                kept.push(self.rows[at].duplicate());
            }
            at += 1;
        }
        proof {
            assert(all.take(at as int) =~= all);
        }
        self.rows = kept;
    }

    /// Puts new fields on the task with a given id, if there is one.
    fn update(&mut self, id: i32, fields: &TaskFields)
        ensures
            final(self)@ == old(self)@.update(id as int, fields@),
    {
        let ghost all = rows_view(self.rows@);
        let ghost change = set_fields(id as int, fields@);
        let mut at: usize = 0;
        while at < self.rows.len()
            invariant
                at <= self.rows.len(),
                self.rows.len() == all.len(),
                self.next_id == old(self).next_id,
                change == set_fields(id as int, fields@),
                forall|i: int| 0 <= i < at ==> (#[trigger] self.rows@[i])@ == change(all[i]),
                forall|i: int| at <= i < all.len() ==> (#[trigger] self.rows@[i])@ == all[i],
            decreases self.rows.len() - at,
        {
            if self.rows[at].id == id {
                let row = TaskRow { id, name: fields.name.clone(), priority: fields.priority };
                self.rows.set(at, row);
            }
            at += 1;
        }
        proof {
            assert(rows_view(self.rows@) =~= all.map_values(change));
        }
    }

    /// Runs a statement: answers as [`TableView::run`] says, and leaves
    /// behind what it says.
    pub fn run(&mut self, statement: Statement) -> (outcome: Outcome)
        requires
            old(self)@.wf(),
        ensures
            final(self)@ == old(self)@.run(statement@).0,
            outcome@ == old(self)@.run(statement@).1,
            final(self)@.wf(),
    {
        proof {
            lemma_run_keeps_wf(self@, statement@);
        }
        match statement {
            Statement::SelectAll => Outcome::Rows(self.select_all()),
            Statement::SelectById { id } => Outcome::Rows(self.select(id)),
            Statement::Insert { fields } => {
                if self.next_id > LAST_ID {
                    Outcome::Failed("no id is left to assign".to_owned())
                } else {
                    let id = self.next_id as i32;
                    let ghost before = self.rows@;
                    let row = fields.into_row(id);
                    self.rows.push(row);
                    self.next_id = self.next_id + 1;
                    proof {
                        assert(rows_view(self.rows@) =~= rows_view(before).push(row@));
                    }
                    Outcome::Created(id)
                }
            },
            Statement::Update { id, fields } => {
                self.update(id, &fields);
                Outcome::Done
            },
            Statement::Delete { id } => {
                self.delete(id);
                Outcome::Done
            },
        }
    }

    /// Serves a request from end to end: plans it, runs the statement where
    /// there is one, and makes the response.
    pub fn serve(&mut self, method: Method, path: &[u8], body: &[u8]) -> (response: Response)
        requires
            old(self)@.wf(),
        ensures
            final(self)@ == old(self)@.serve(method, path@, body@).0,
            response@ == old(self)@.serve(method, path@, body@).1,
            final(self)@.wf(),
    {
        match plan(method, path, body) {
            Step::Reply(response) => response,
            Step::Run(statement) => {
                let outcome = self.run(statement);
                respond(outcome)
            },
        }
    }
}

/// A filter keeps exactly the tasks that pass, and never more than there
/// were.
pub proof fn lemma_filter_members(tasks: Seq<TaskView>, keep: spec_fn(TaskView) -> bool)
    ensures
        forall|i: int|
            0 <= i < tasks.filter(keep).len() ==> keep(#[trigger] tasks.filter(keep)[i])
                && tasks.contains(tasks.filter(keep)[i]),
        forall|i: int|
            0 <= i < tasks.len() && keep(tasks[i]) ==> tasks.filter(keep).contains(
                #[trigger] tasks[i],
            ),
        tasks.filter(keep).len() <= tasks.len(),
    decreases tasks.len(),
{
    reveal(Seq::filter);
    if tasks.len() > 0 {
        let front = tasks.drop_last();
        let kept = front.filter(keep);
        lemma_filter_members(front, keep);
        assert forall|i: int| 0 <= i < kept.len() implies tasks.contains(#[trigger] kept[i]) by {
            let j = choose|j: int| 0 <= j < front.len() && front[j] == kept[i];
            assert(tasks[j] == kept[i]);
        }
        assert(tasks.contains(tasks.last())) by {
            assert(tasks[tasks.len() - 1] == tasks.last());
        }
        assert forall|i: int| 0 <= i < tasks.len() && keep(tasks[i]) implies tasks.filter(
            keep,
        ).contains(#[trigger] tasks[i]) by {
            if i < front.len() {
                assert(front[i] == tasks[i]);
                let j = choose|j: int| 0 <= j < kept.len() && kept[j] == front[i];
                assert(tasks.filter(keep)[j] == tasks[i]);
            } else {
                assert(tasks.filter(keep)[kept.len() as int] == tasks[i]);
            }
        }
    }
}

/// A filter keeps the order of the ids.
pub proof fn lemma_filter_ascending(tasks: Seq<TaskView>, keep: spec_fn(TaskView) -> bool)
    requires
        ascending(tasks),
    ensures
        ascending(tasks.filter(keep)),
    decreases tasks.len(),
{
    reveal(Seq::filter);
    if tasks.len() > 0 {
        let front = tasks.drop_last();
        let kept = front.filter(keep);
        lemma_filter_ascending(front, keep);
        lemma_filter_members(front, keep);
        assert forall|i: int| 0 <= i < kept.len() implies (#[trigger] kept[i]).id
            < tasks.last().id by {
            let j = choose|j: int| 0 <= j < front.len() && front[j] == kept[i];
            assert(tasks[j] == kept[i]);
        }
    }
}

/// A filter that every task passes changes nothing.
pub proof fn lemma_filter_all(tasks: Seq<TaskView>, keep: spec_fn(TaskView) -> bool)
    requires
        forall|i: int| 0 <= i < tasks.len() ==> keep(#[trigger] tasks[i]),
    ensures
        tasks.filter(keep) == tasks,
    decreases tasks.len(),
{
    reveal(Seq::filter);
    if tasks.len() > 0 {
        let front = tasks.drop_last();
        assert forall|i: int| 0 <= i < front.len() implies keep(#[trigger] front[i]) by {
            assert(front[i] == tasks[i]);
        }
        lemma_filter_all(front, keep);
        assert(front.push(tasks.last()) =~= tasks);
    }
}

/// Where no task has an id, a read by that id finds nothing.
pub proof fn lemma_filter_none(tasks: Seq<TaskView>, id: int)
    requires
        !holds_id(tasks, id),
    ensures
        tasks.filter(has_id(id)) == Seq::<TaskView>::empty(),
{
    lemma_filter_members(tasks, has_id(id));
    let found = tasks.filter(has_id(id));
    if found.len() > 0 {
        let i = choose|i: int| 0 <= i < tasks.len() && tasks[i] == found[0];
        assert(tasks[i].id == id);
    }
    assert(found =~= Seq::<TaskView>::empty());
}

/// Where the ids rise, at most one task has a given id: taking it out
/// shortens the table by one.
pub proof fn lemma_filter_one_out(tasks: Seq<TaskView>, id: int)
    requires
        ascending(tasks),
    ensures
        tasks.filter(lacks_id(id)).len() == tasks.len() - (if holds_id(tasks, id) {
            1int
        } else {
            0int
        }),
        tasks.filter(has_id(id)).len() == (if holds_id(tasks, id) {
            1int
        } else {
            0int
        }),
    decreases tasks.len(),
{
    reveal(Seq::filter);
    if tasks.len() > 0 {
        let front = tasks.drop_last();
        lemma_filter_one_out(front, id);
        if holds_id(front, id) {
            let j = choose|j: int| 0 <= j < front.len() && (#[trigger] front[j]).id == id;
            assert(tasks[j].id == id);
            assert(tasks[j].id < tasks[tasks.len() - 1].id);
        } else if tasks.last().id == id {
            assert(tasks[tasks.len() - 1].id == id);
        } else if holds_id(tasks, id) {
            let j = choose|j: int| 0 <= j < tasks.len() && (#[trigger] tasks[j]).id == id;
            assert(front[j].id == id);
        }
    }
}

/// Every statement keeps the invariant of the table: ids stay unique, in
/// rising order, and below the next id to assign.
pub proof fn lemma_run_keeps_wf(table: TableView, statement: StatementView)
    requires
        table.wf(),
    ensures
        table.run(statement).0.wf(),
        table.run(statement).0.next_id >= table.next_id,
{
    match statement {
        StatementView::Delete { id } => {
            lemma_filter_ascending(table.rows, lacks_id(id));
            lemma_filter_members(table.rows, lacks_id(id));
        },
        _ => {},
    }
}

} // verus!
