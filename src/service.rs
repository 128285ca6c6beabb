use crate::entry::{all_rows_parse, row_maps_to, Entry, StoredRow};
use crate::error::ServiceError;
use vstd::prelude::*;

verus! {

/// The statement that stores a new entry; its one parameter is the name.
pub const INSERT_SQL: &'static str = "insert into entries (name) values (?);";

/// The statement that reads every entry, as id, timestamp text and name.
pub const SELECT_ALL_SQL: &'static str = "select id, created_at, name from entries;";

/// The statement that removes the entry with a given id; its one parameter is the id.
pub const DELETE_SQL: &'static str = "delete from entries where id = ?";

/// The body of a successful write.
pub const ACK_TEXT: &'static str = "ok";

/// The body of a create request that named nothing.
pub const NO_NAME_TEXT: &'static str = "no name";

/// A request to the service.
#[derive(Clone, Debug)]
pub enum Request {
    /// Store an entry; the body's `name` field, if it had one.
    Create { name: Option<String> },
    /// Read every entry.
    List,
    /// Remove the entry with this id.
    Delete { id: i32 },
}

/// One storage statement, with its parameter.
#[derive(Clone, Debug)]
pub enum Statement {
    Insert { name: String },
    SelectAll,
    DeleteById { id: i32 },
}

/// A successful answer.
#[derive(Clone, Debug)]
pub enum Reply {
    /// The write was done.
    Ack,
    /// A create request without a name: nothing was stored.
    NoName,
    /// Every stored entry.
    Entries(Vec<Entry>),
}

/// What a request does once the lock has been tried.
#[derive(Debug)]
pub enum Step {
    /// Run this statement while holding the lock, then hand its outcome to `finish`.
    Run(Statement),
    /// Answer at once; no statement is run.
    Done(Result<Reply, ServiceError>),
}

/// What the storage engine made of a statement.
#[derive(Clone, Debug)]
pub enum StoreOutcome {
    /// A write ran and touched this many rows (none, for an id that is not stored).
    Changed(usize),
    /// A read ran and gave these rows.
    Rows(Vec<StoredRow>),
    /// The statement could not be run, or its rows could not be fetched.
    Failed,
}

/// `es` is, row for row, what `rows` stand for.
pub open spec fn entries_of_rows(rows: Seq<StoredRow>, es: Seq<Entry>) -> bool {
    &&& es.len() == rows.len()
    &&& forall|i: int| 0 <= i < rows.len() ==> row_maps_to(rows[i], #[trigger] es[i])
}

impl Request {
    /// The step a request takes once the lock was tried.
    pub open spec fn begins_with(self, lock_acquired: bool, r: Step) -> bool {
        if !lock_acquired {
            r == Step::Done(Err(ServiceError::LockError))
        } else {
            match self {
                Request::Create { name: None } => r == Step::Done(Ok(Reply::NoName)),
                Request::Create { name: Some(n) } => match r {
                    Step::Run(Statement::Insert { name }) => name@ == n@,
                    _ => false,
                },
                Request::List => r == Step::Run(Statement::SelectAll),
                Request::Delete { id } => r == Step::Run(Statement::DeleteById { id }),
            }
        }
    }

    /// The answer a request gives for the outcome of its statement.
    pub open spec fn finishes_with(self, outcome: StoreOutcome, r: Result<Reply, ServiceError>) -> bool {
        match self {
            Request::Create { name: None } => r == Ok::<Reply, ServiceError>(Reply::NoName),
            Request::Create { name: Some(_) } | Request::Delete { .. } => match outcome {
                StoreOutcome::Changed(_) => r == Ok::<Reply, ServiceError>(Reply::Ack),
                _ => r == Err::<Reply, ServiceError>(ServiceError::StorageError),
            },
            Request::List => match outcome {
                StoreOutcome::Rows(rows) => if all_rows_parse(rows@) {
                    match r {
                        Ok(Reply::Entries(es)) => entries_of_rows(rows@, es@),
                        _ => false,
                    }
                } else {
                    r == Err::<Reply, ServiceError>(ServiceError::StorageError)
                },
                _ => r == Err::<Reply, ServiceError>(ServiceError::StorageError),
            },
        }
    }
}

impl Statement {
    pub open spec fn sql_text(self) -> Seq<char> {
        match self {
            Statement::Insert { .. } => INSERT_SQL@,
            Statement::SelectAll => SELECT_ALL_SQL@,
            Statement::DeleteById { .. } => DELETE_SQL@,
        }
    }
}

impl Reply {
    pub open spec fn text_spec(self) -> Option<Seq<char>> {
        match self {
            Reply::Ack => Some(ACK_TEXT@),
            Reply::NoName => Some(NO_NAME_TEXT@),
            Reply::Entries(_) => None,
        }
    }
}

impl Request {
    /// Decides what the request does after the lock round the storage connection was tried:
    /// without the lock it fails; a create without a name answers at once; any other request
    /// runs its one statement.
    pub fn begin(&self, lock_acquired: bool) -> (r: Step)
        ensures
            self.begins_with(lock_acquired, r),
    {
        if !lock_acquired {
            return Step::Done(Err(ServiceError::LockError));
        }
        match self {
            Request::Create { name: None } => Step::Done(Ok(Reply::NoName)),
            Request::Create { name: Some(n) } => Step::Run(Statement::Insert { name: n.clone() }),
            Request::List => Step::Run(Statement::SelectAll),
            Request::Delete { id } => Step::Run(Statement::DeleteById { id: *id }),
        }
    }

    /// Turns the outcome of the request's statement into its answer. A failed statement, or an
    /// outcome of the wrong kind, is a storage failure; a list fails whole if one row cannot
    /// be read; removing an id that is not stored succeeds.
    pub fn finish(&self, outcome: &StoreOutcome) -> (r: Result<Reply, ServiceError>)
        ensures
            self.finishes_with(*outcome, r),
    {
        match self {
            Request::Create { name: None } => Ok(Reply::NoName),
            Request::Create { name: Some(_) } | Request::Delete { .. } => match outcome {
                StoreOutcome::Changed(_) => Ok(Reply::Ack),
                _ => Err(ServiceError::StorageError),
            },
            Request::List => match outcome {
                StoreOutcome::Rows(rows) => match Entry::read_all(rows) {
                    Ok(es) => Ok(Reply::Entries(es)),
                    Err(e) => Err(e),
                },
                _ => Err(ServiceError::StorageError),
            },
        }
    }
}

impl Statement {
    /// The SQL text of the statement; its parameter is bound separately.
    pub fn sql(&self) -> (r: &'static str)
        ensures
            r@ == self.sql_text(),
    {
        match self {
            Statement::Insert { .. } => INSERT_SQL,
            Statement::SelectAll => SELECT_ALL_SQL,
            Statement::DeleteById { .. } => DELETE_SQL,
        }
    }
}

impl Reply {
    /// The plain-text body of a reply; the entries of a list are sent as JSON instead.
    pub fn text(&self) -> (r: Option<&'static str>)
        ensures
            r matches Some(t) ==> self.text_spec() == Some(t@),
            r is None ==> self.text_spec() is None,
    {
        match self {
            Reply::Ack => Some(ACK_TEXT),
            Reply::NoName => Some(NO_NAME_TEXT),
            Reply::Entries(_) => None,
        }
    }
}

} // verus!
