use crate::entry::{all_rows_parse, row_parses, StoredRow};
use crate::error::ServiceError;
use crate::service::{entries_of_rows, Reply, Request, Statement, Step, StoreOutcome};
use vstd::prelude::*;

verus! {

/// A create request without a name, once it holds the lock, answers "no name" at once: no
/// statement is run, so no row is added; and its answer stays "no name" whatever is reported.
pub proof fn create_without_name_adds_nothing(step: Step, outcome: StoreOutcome, r: Result<Reply, ServiceError>)
    requires
        (Request::Create { name: None }).begins_with(true, step),
        (Request::Create { name: None }).finishes_with(outcome, r),
    ensures
        step == Step::Done(Ok(Reply::NoName)),
        !(step is Run),
        r == Ok::<Reply, ServiceError>(Reply::NoName),
{
}

/// A delete runs the one statement that removes exactly the requested id, and succeeds however
/// many rows the store removed, none included: deleting an id that is not stored is no error.
pub proof fn delete_is_exact_and_idempotent(id: i32, step: Step, n: usize, r: Result<Reply, ServiceError>)
    requires
        (Request::Delete { id }).begins_with(true, step),
        (Request::Delete { id }).finishes_with(StoreOutcome::Changed(n), r),
    ensures
        step == Step::Run(Statement::DeleteById { id }),
        r == Ok::<Reply, ServiceError>(Reply::Ack),
{
}

/// One stored row whose timestamp does not have the wire layout makes the whole list fail with
/// a storage error: the readable rows are not handed out either.
pub proof fn list_fails_on_one_unreadable_row(rows: Vec<StoredRow>, i: int, r: Result<Reply, ServiceError>)
    requires
        0 <= i < rows.len(),
        !row_parses(rows@[i]),
        Request::List.finishes_with(StoreOutcome::Rows(rows), r),
    ensures
        r == Err::<Reply, ServiceError>(ServiceError::StorageError),
{
    assert(!all_rows_parse(rows@));
}

/// The name of a create request reaches the insert statement unchanged, and a stored row with
/// that name is listed with that name unchanged: nothing is cut or escaped on the way.
pub proof fn name_round_trip(
    n: String,
    step: Step,
    rows: Vec<StoredRow>,
    i: int,
    r: Result<Reply, ServiceError>,
)
    requires
        (Request::Create { name: Some(n) }).begins_with(true, step),
        step matches Step::Run(Statement::Insert { name }) && 0 <= i < rows.len()
            && rows@[i].name@ == name@,
        Request::List.finishes_with(StoreOutcome::Rows(rows), r),
        r is Ok,
    ensures
        r matches Ok(Reply::Entries(es)) && es@[i].name@ == n@,
{
    assert(all_rows_parse(rows@));
    if let Ok(Reply::Entries(es)) = r {
        assert(entries_of_rows(rows@, es@));
    }
}

} // verus!
