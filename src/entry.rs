use crate::error::ServiceError;
use crate::timestamp::{timestamp_of, Timestamp};
use vstd::prelude::*;

verus! {

/// The columns of one stored row, as the storage engine hands them out.
#[derive(Clone, Debug)]
pub struct StoredRow {
    pub id: i32,
    pub created_at: String,
    pub name: String,
}

/// One entry of the table, with its timestamp read.
#[derive(Clone, Debug)]
pub struct Entry {
    pub id: i32,
    pub created_at: Timestamp,
    pub name: String,
}

/// Whether the stored timestamp of a row has the wire layout.
pub open spec fn row_parses(row: StoredRow) -> bool {
    timestamp_of(row.created_at@) is Some
}

/// `e` is what `row` stands for: the same id and name, and the timestamp its text gives.
pub open spec fn row_maps_to(row: StoredRow, e: Entry) -> bool {
    &&& timestamp_of(row.created_at@) == Some(e.created_at)
    &&& e.id == row.id
    &&& e.name@ == row.name@
}

/// Every row of `rows` has a readable timestamp.
pub open spec fn all_rows_parse(rows: Seq<StoredRow>) -> bool {
    forall|i: int| 0 <= i < rows.len() ==> row_parses(#[trigger] rows[i])
}

impl Entry {
    pub open spec fn wf(self) -> bool {
        self.created_at.wf()
    }

    /// Reads one stored row; a timestamp without the wire layout is a storage failure.
    pub fn from_row(row: &StoredRow) -> (r: Result<Entry, ServiceError>)
        ensures
            r is Ok <==> row_parses(*row),
            r matches Ok(e) ==> row_maps_to(*row, e) && e.wf(),
            r matches Err(err) ==> err == ServiceError::StorageError,
    {
        match Timestamp::parse(row.created_at.as_str()) {
            Some(created_at) => Ok(Entry { id: row.id, created_at, name: row.name.clone() }),
            None => Err(ServiceError::StorageError),
        }
    }

    /// Reads every stored row, in the order given. One unreadable row fails the whole read:
    /// no entry is handed out then.
    pub fn read_all(rows: &Vec<StoredRow>) -> (r: Result<Vec<Entry>, ServiceError>)
        ensures
            r is Ok <==> all_rows_parse(rows@),
            r matches Ok(es) ==> {
                &&& es.len() == rows.len()
                &&& forall|i: int| 0 <= i < rows.len() ==> row_maps_to(rows@[i], #[trigger] es@[i])
                &&& forall|i: int| 0 <= i < es.len() ==> (#[trigger] es@[i]).wf()
            },
            r matches Err(err) ==> err == ServiceError::StorageError,
    {
        let mut out: Vec<Entry> = Vec::new();
        let mut i: usize = 0;
        while i < rows.len()
            invariant
                i <= rows.len(),
                out.len() == i,
                all_rows_parse(rows@.subrange(0, i as int)),
                forall|j: int| 0 <= j < i ==> row_maps_to(rows@[j], #[trigger] out@[j]),
                forall|j: int| 0 <= j < i ==> (#[trigger] out@[j]).wf(),
            decreases rows.len() - i,
        {
            match Entry::from_row(&rows[i]) {
                Ok(e) => {
                    out.push(e);
                },
                Err(err) => {
                    assert(!row_parses(rows@[i as int]));
                    return Err(err);
                },
            }
            i = i + 1;
            assert(forall|j: int| 0 <= j < i ==> rows@.subrange(0, i as int)[j] == rows@[j]);
        }
        assert(rows@.subrange(0, i as int) =~= rows@);
        Ok(out)
    }
}

} // verus!
