//! What holds of the service on every table and every request.
//!
//! Each law is stated over [`TableView`], the meaning of the statements, and
//! over the replies that the service makes of their answers.

use vstd::prelude::*;
use crate::envelope::{
    created_doc, created_reply, done_doc, done_reply, failure_doc, priority_doc, success_doc,
    task_doc, tasks_doc, tasks_reply, STATUS_OK,
};
use crate::json::{json_text, member_of, JsonDoc};
use crate::request::fields_from;
use crate::route::{route_of, Method, Route, RouteError};
use crate::service::{planned, reply_of, StepView};
use crate::statement::{OutcomeView, StatementView};
use crate::table::{
    descending, has_id, holds_id, lacks_id, lemma_filter_all, lemma_filter_members,
    lemma_filter_none, lemma_filter_one_out, lemma_run_keeps_wf, TableView, LAST_ID,
};
use crate::task::{FieldsView, TaskView};

verus! {

/// The table after a run of creations on an empty table, in their order.
pub open spec fn after_creations(creations: Seq<FieldsView>) -> TableView
    decreases creations.len(),
{
    if creations.len() == 0 {
        TableView::empty()
    } else {
        after_creations(creations.drop_last()).insert(creations.last())
    }
}

/// The table after a run of statements on an empty table, in their order.
pub open spec fn after_statements(statements: Seq<StatementView>) -> TableView
    decreases statements.len(),
{
    if statements.len() == 0 {
        TableView::empty()
    } else {
        after_statements(statements.drop_last()).run(statements.last()).0
    }
}

/// How many of the statements are inserts.
pub open spec fn count_inserts(statements: Seq<StatementView>) -> int
    decreases statements.len(),
{
    if statements.len() == 0 {
        0
    } else {
        count_inserts(statements.drop_last()) + (if statements.last() is Insert {
            1int
        } else {
            0int
        })
    }
}

/// Whether none of the statements is a delete.
pub open spec fn no_delete(statements: Seq<StatementView>) -> bool {
    forall|i: int| 0 <= i < statements.len() ==> !(#[trigger] statements[i] is Delete)
}

/// The envelope in the body of the response to an answer of storage.
pub open spec fn envelope_of(outcome: OutcomeView) -> JsonDoc {
    match outcome {
        OutcomeView::Rows(rows) => success_doc(tasks_doc(rows)),
        OutcomeView::Created(id) => success_doc(created_doc(id)),
        OutcomeView::Done => done_doc(),
        OutcomeView::Failed(description) => failure_doc(description),
    }
}

/// Every response to an answer of storage carries one envelope: `success`
/// is there and says whether storage did its part; `data` is there for rows
/// and for a new id and for nothing else; `message` is there for a failure
/// only, and is the description as it came.
pub proof fn law_envelope_is_uniform(outcome: OutcomeView)
    ensures
        reply_of(outcome).body == json_text(envelope_of(outcome)),
        member_of(envelope_of(outcome), "success"@) == Some(JsonDoc::Bool(!(outcome is Failed))),
        member_of(envelope_of(outcome), "data"@) == (match outcome {
            OutcomeView::Rows(rows) => Some(tasks_doc(rows)),
            OutcomeView::Created(id) => Some(created_doc(id)),
            _ => None,
        }),
        member_of(envelope_of(outcome), "message"@) == (match outcome {
            OutcomeView::Failed(description) => Some(JsonDoc::Text(description)),
            _ => None,
        }),
{
    reveal_strlit("success");
    reveal_strlit("data");
    reveal_strlit("message");
    assert("data"@ != "success"@) by {
        assert("data"@.len() == 4);
        assert("success"@.len() == 7);
    }
    assert("message"@ != "success"@) by {
        assert("message"@[0] == 'm');
        assert("success"@[0] == 's');
    }
}

/// An update puts the new fields on the task with the id and leaves every
/// other task as it was; no id changes, and no row comes or goes.
pub proof fn law_update_replaces_fields_only(table: TableView, id: int, fields: FieldsView)
    ensures
        ({
            let after = table.run(StatementView::Update { id, fields }).0;
            &&& after.next_id == table.next_id
            &&& after.rows.len() == table.rows.len()
            &&& forall|i: int|
                0 <= i < table.rows.len() ==> #[trigger] after.rows[i] == (if table.rows[i].id
                    == id {
                    fields.with_id(id)
                } else {
                    table.rows[i]
                })
        }),
{
}

/// A listing has every row once, the highest id first.
pub proof fn law_listing_descends(table: TableView)
    requires
        table.wf(),
    ensures
        table.run(StatementView::SelectAll) == (table, OutcomeView::Rows(table.select_all())),
        table.select_all().len() == table.rows.len(),
        descending(table.select_all()),
        forall|i: int|
            0 <= i < table.rows.len() ==> table.select_all()[i] == table.rows[table.rows.len() - 1
                - i],
{
}

/// A task that was just created is found under the id that the creation
/// handed back, alone and with the fields it was given; a missing priority
/// is read back as `null`.
pub proof fn law_created_task_is_found(table: TableView, fields: FieldsView)
    requires
        table.wf(),
        !table.exhausted(),
    ensures
        ({
            let id = table.next_id;
            let created = table.run(StatementView::Insert { fields });
            let found = created.0.run(StatementView::SelectById { id });
            &&& created.1 == OutcomeView::Created(id)
            &&& reply_of(created.1) == created_reply(id)
            &&& found.0 == created.0
            &&& found.1 == OutcomeView::Rows(seq![fields.with_id(id)])
            &&& reply_of(found.1) == tasks_reply(seq![fields.with_id(id)])
            &&& member_of(task_doc(fields.with_id(id)), "priority"@) == Some(
                priority_doc(fields.priority),
            )
            &&& fields.priority is None ==> priority_doc(fields.priority) == JsonDoc::Null
        }),
{
    reveal(Seq::filter);
    let id = table.next_id;
    let after = table.insert(fields);
    assert(after.rows.drop_last() =~= table.rows);
    lemma_filter_none(table.rows, id);
    assert(after.rows.filter(has_id(id)) =~= seq![fields.with_id(id)]);
}

/// Over the routes: a create whose body gives task fields is answered 201
/// with the new id, and a read of that id right after is answered 200 with
/// that one task, whatever body the read carries.
pub proof fn law_create_then_read(
    table: TableView,
    create: (Method, Seq<u8>),
    body: Seq<u8>,
    read: (Method, Seq<u8>),
    read_body: Seq<u8>,
)
    requires
        table.wf(),
        !table.exhausted(),
        route_of(create.0, create.1) == Ok::<Route, RouteError>(Route::CreateTask),
        fields_from(body) is Ok,
        route_of(read.0, read.1) matches Ok(Route::GetTask { id }) && id == table.next_id,
    ensures
        ({
            let fields = fields_from(body)->Ok_0;
            let created = table.serve(create.0, create.1, body);
            let found = created.0.serve(read.0, read.1, read_body);
            &&& created.0 == table.insert(fields)
            &&& created.1 == created_reply(table.next_id)
            &&& found.0 == created.0
            &&& found.1 == tasks_reply(seq![fields.with_id(table.next_id)])
        }),
{
    law_created_task_is_found(table, fields_from(body)->Ok_0);
}

/// After any number of creations and no deletion, a listing has exactly one
/// row for each creation, the latest first, with ids counting down to 1.
pub proof fn law_creations_are_listed(creations: Seq<FieldsView>)
    requires
        creations.len() <= LAST_ID,
    ensures
        after_creations(creations).wf(),
        after_creations(creations).next_id == creations.len() + 1,
        after_creations(creations).select_all().len() == creations.len(),
        descending(after_creations(creations).select_all()),
        forall|i: int|
            0 <= i < creations.len() ==> after_creations(creations).select_all()[i]
                == creations[creations.len() - 1 - i].with_id(creations.len() - i),
    decreases creations.len(),
{
    if creations.len() > 0 {
        let front = creations.drop_last();
        law_creations_are_listed(front);
        let before = after_creations(front);
        let after = after_creations(creations);
        assert forall|i: int| 0 <= i < creations.len() implies after.select_all()[i]
            == creations[creations.len() - 1 - i].with_id(creations.len() - i) by {
            if i > 0 {
                assert(after.select_all()[i] == before.select_all()[i - 1]);
            }
        }
    }
}

/// After any statements of which none is a delete, a listing has exactly as
/// many rows as there were creations, the highest id first. Reads and updates
/// in between change nothing of that.
pub proof fn law_listing_counts_creations(statements: Seq<StatementView>)
    requires
        no_delete(statements),
        count_inserts(statements) <= LAST_ID,
    ensures
        after_statements(statements).wf(),
        after_statements(statements).next_id == count_inserts(statements) + 1,
        after_statements(statements).select_all().len() == count_inserts(statements),
        descending(after_statements(statements).select_all()),
    decreases statements.len(),
{
    if statements.len() > 0 {
        let front = statements.drop_last();
        assert(no_delete(front));
        law_listing_counts_creations(front);
        lemma_run_keeps_wf(after_statements(front), statements.last());
    }
}

/// A read by id finds one task where a task has the id, and none where none
/// has: never more than one.
pub proof fn law_read_finds_at_most_one(table: TableView, id: int)
    requires
        table.wf(),
    ensures
        table.select(id).len() == (if holds_id(table.rows, id) {
            1int
        } else {
            0int
        }),
        forall|i: int| 0 <= i < table.select(id).len() ==> (#[trigger] table.select(id)[i]).id == id,
{
    lemma_filter_one_out(table.rows, id);
    lemma_filter_members(table.rows, has_id(id));
}

/// Reading an id that no task has is a success with an empty array: status
/// 200, and nothing changes.
pub proof fn law_absent_id_reads_empty(table: TableView, id: int)
    requires
        !holds_id(table.rows, id),
    ensures
        table.run(StatementView::SelectById { id }) == (
            table,
            OutcomeView::Rows(Seq::<TaskView>::empty()),
        ),
        reply_of(OutcomeView::Rows(Seq::<TaskView>::empty())).status == STATUS_OK,
        reply_of(OutcomeView::Rows(Seq::<TaskView>::empty())).body == json_text(
            success_doc(JsonDoc::List(Seq::<JsonDoc>::empty())),
        ),
{
    lemma_filter_none(table.rows, id);
    assert(tasks_doc(Seq::<TaskView>::empty()) == JsonDoc::List(Seq::<JsonDoc>::empty())) by {
        assert(Seq::<TaskView>::empty().map_values(|task: TaskView| task_doc(task))
            =~= Seq::<JsonDoc>::empty());
    }
}

/// An update never adds or removes a row, and is answered `success: true`
/// whatever the id; on an id that no task has it changes nothing at all.
pub proof fn law_update_of_absent_id_changes_nothing(
    table: TableView,
    id: int,
    fields: FieldsView,
)
    ensures
        table.run(StatementView::Update { id, fields }).1 == OutcomeView::Done,
        reply_of(table.run(StatementView::Update { id, fields }).1) == done_reply(),
        table.run(StatementView::Update { id, fields }).0.rows.len() == table.rows.len(),
        !holds_id(table.rows, id) ==> table.run(StatementView::Update { id, fields }).0 == table,
{
    if !holds_id(table.rows, id) {
        assert(table.update(id, fields).rows =~= table.rows);
    }
}

/// A deletion takes out the task with the id and no other; a second deletion
/// of the same id finds nothing to take out. Both are answered
/// `success: true`.
pub proof fn law_delete_twice(table: TableView, id: int)
    requires
        table.wf(),
    ensures
        ({
            let first = table.run(StatementView::Delete { id });
            let second = first.0.run(StatementView::Delete { id });
            &&& first.1 == OutcomeView::Done
            &&& reply_of(first.1) == done_reply()
            &&& !holds_id(first.0.rows, id)
            &&& first.0.rows == table.rows.filter(lacks_id(id))
            &&& first.0.rows.len() == table.rows.len() - (if holds_id(table.rows, id) {
                1int
            } else {
                0int
            })
            &&& second.1 == OutcomeView::Done
            &&& reply_of(second.1) == done_reply()
            &&& second.0 == first.0
        }),
{
    let kept = table.rows.filter(lacks_id(id));
    lemma_filter_members(table.rows, lacks_id(id));
    lemma_filter_one_out(table.rows, id);
    lemma_filter_all(kept, lacks_id(id));
}

/// A create or an update whose body gives no task fields is refused with a
/// status from 400 to 499, and storage is not reached: no statement is
/// planned and the table stays as it was.
pub proof fn law_refused_body_never_reaches_storage(
    table: TableView,
    method: Method,
    path: Seq<u8>,
    body: Seq<u8>,
)
    requires
        route_of(method, path) matches Ok(route) && (route is CreateTask || route is UpdateTask),
        fields_from(body) is Err,
    ensures
        planned(method, path, body) matches StepView::Reply(response) && 400 <= response.status
            < 500,
        table.serve(method, path, body).0 == table,
        400 <= table.serve(method, path, body).1.status < 500,
{
}

/// Two creations under the same name are both accepted and get ids that
/// differ; both tasks are there afterwards.
pub proof fn law_same_name_distinct_ids(table: TableView, first: FieldsView, second: FieldsView)
    requires
        table.wf(),
        table.next_id < LAST_ID,
        first.name == second.name,
    ensures
        ({
            let one = table.run(StatementView::Insert { fields: first });
            let two = one.0.run(StatementView::Insert { fields: second });
            &&& one.1 matches OutcomeView::Created(first_id)
            &&& two.1 matches OutcomeView::Created(second_id)
            &&& first_id != second_id
            &&& two.0.rows.len() == table.rows.len() + 2
            &&& two.0.rows.contains(first.with_id(first_id))
            &&& two.0.rows.contains(second.with_id(second_id))
        }),
{
    let one = table.insert(first);
    let two = one.insert(second);
    assert(two.rows[table.rows.len() as int] == first.with_id(table.next_id));
    assert(two.rows[table.rows.len() as int + 1] == second.with_id(table.next_id + 1));
}

} // verus!
