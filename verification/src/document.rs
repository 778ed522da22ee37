//! What an executed statement gives back.

use crate::record::{
    distinct_keys, has_key, lemma_held_key_has_position, lemma_zipped_upto, position, zipped,
    zipped_upto, Record, RecordModel,
};
use crate::value::ValueModel;
use vstd::prelude::*;

verus! {

/// What an executed statement gives back.
#[derive(Debug, PartialEq)]
pub enum ResultDocument {
    /// How many rows the statement changed.
    Changes(usize),
    /// The one row that was fetched.
    Row(Record),
    /// Every row, in the order in which the engine gave them.
    Rows(Vec<Record>),
}

/// The mathematical value of a [`ResultDocument`].
pub enum DocumentModel {
    Changes(nat),
    Row(RecordModel),
    Rows(Seq<RecordModel>),
}

/// Whether `entries` can be a row of a result: no column name twice, and in
/// every column a null, an integer, a real or a text.
pub open spec fn is_row(entries: RecordModel) -> bool {
    &&& distinct_keys(entries)
    &&& forall|i: int| 0 <= i < entries.len() ==> (#[trigger] entries[i]).1.is_cell()
}

/// Whether every one of `values` can be a cell of a result row.
pub open spec fn are_cells(values: Seq<ValueModel>) -> bool {
    forall|i: int| 0 <= i < values.len() ==> (#[trigger] values[i]).is_cell()
}

impl View for ResultDocument {
    type V = DocumentModel;

    open spec fn view(&self) -> DocumentModel {
        match self {
            ResultDocument::Changes(count) => DocumentModel::Changes(*count as nat),
            ResultDocument::Row(record) => DocumentModel::Row(record@),
            ResultDocument::Rows(records) => DocumentModel::Rows(
                records@.map_values(|record: Record| record@),
            ),
        }
    }
}

impl DocumentModel {
    /// Whether every row of the document can be a row of a result.
    pub open spec fn wf(self) -> bool {
        match self {
            DocumentModel::Changes(_) => true,
            DocumentModel::Row(entries) => is_row(entries),
            DocumentModel::Rows(rows) => forall|i: int|
                0 <= i < rows.len() ==> is_row(#[trigger] rows[i]),
        }
    }
}

/// A record made of cells is a row of a result.
pub proof fn lemma_row_of_cells(names: Seq<Seq<char>>, values: Seq<ValueModel>)
    requires
        forall|i: int| 0 <= i < values.len() ==> (#[trigger] values[i]).is_cell(),
    ensures
        is_row(zipped(names, values)),
{
    let count = if names.len() <= values.len() {
        names.len() as int
    } else {
        values.len() as int
    };
    lemma_cells_upto(names, values, count);
}

/// The same of the first `count` columns.
proof fn lemma_cells_upto(names: Seq<Seq<char>>, values: Seq<ValueModel>, count: int)
    requires
        0 <= count <= names.len(),
        count <= values.len(),
        forall|i: int| 0 <= i < values.len() ==> (#[trigger] values[i]).is_cell(),
    ensures
        is_row(zipped_upto(names, values, count)),
    decreases count,
{
    lemma_zipped_upto(names, values, count);
    if count > 0 {
        lemma_cells_upto(names, values, count - 1);
        let before = zipped_upto(names, values, count - 1);
        let after = zipped_upto(names, values, count);
        let key = names[count - 1];
        if has_key(before, key) {
            lemma_held_key_has_position(before, key);
        }
        assert forall|i: int| 0 <= i < after.len() implies (#[trigger] after[i]).1.is_cell() by {
            if has_key(before, key) && i != position(before, key) {
                assert(after[i] == before[i]);
            } else if !has_key(before, key) && i < before.len() {
                assert(after[i] == before[i]);
            } else {
                assert(after[i].1 == values[count - 1]);
            }
        }
    }
}

} // verus!
