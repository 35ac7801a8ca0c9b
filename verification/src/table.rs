//! One table: from the rows that the database returned to the bytes of its
//! CSV file.

use crate::category::{category_of, TypeCategory};
use crate::cell::{cell_text, serialize_cell, unsupported_text, RawValue, ValueModel};
use crate::error::ExportError;
use crate::sink::{
    close_sink, csv_file, csv_record, csv_width, csv_written, open_sink, uniform_width, write_record,
};
use vstd::prelude::*;

verus! {

/// What the result set reports of one column.
#[derive(Clone, Debug, PartialEq, Eq)]
pub struct ColumnMeta {
    /// The column's name, which becomes its header field.
    pub name: String,
    /// The declared type, as the driver names it.
    pub type_tag: String,
    /// The place of the column's value among the values of a row.
    pub ordinal: usize,
}

/// The mathematical content of a [`ColumnMeta`].
pub struct ColumnModel {
    pub name: Seq<char>,
    pub type_tag: Seq<char>,
    pub ordinal: nat,
}

impl View for ColumnMeta {
    type V = ColumnModel;

    open spec fn view(&self) -> ColumnModel {
        ColumnModel { name: self.name@, type_tag: self.type_tag@, ordinal: self.ordinal as nat }
    }
}

impl DeepView for ColumnMeta {
    type V = ColumnModel;

    open spec fn deep_view(&self) -> ColumnModel {
        self@
    }
}

/// One row of a result set: its columns, and the raw values that the
/// columns' ordinals point into.
#[derive(Clone, Debug, PartialEq, Eq)]
pub struct RowRecord {
    pub columns: Vec<ColumnMeta>,
    pub values: Vec<RawValue>,
}

/// The mathematical content of a [`RowRecord`].
pub struct RowModel {
    pub columns: Seq<ColumnModel>,
    pub values: Seq<ValueModel>,
}

impl View for RowRecord {
    type V = RowModel;

    open spec fn view(&self) -> RowModel {
        RowModel { columns: self.columns.deep_view(), values: self.values.deep_view() }
    }
}

impl DeepView for RowRecord {
    type V = RowModel;

    open spec fn deep_view(&self) -> RowModel {
        self@
    }
}

/// The raw value at a column's ordinal.  A row that holds no value there
/// gives `Null`, as a failed lookup does.
pub open spec fn value_at(row: RowModel, ordinal: nat) -> ValueModel {
    if ordinal < row.values.len() {
        row.values[ordinal as int]
    } else {
        ValueModel::Null
    }
}

/// The header record of a table: the names of the columns of a row, in
/// their order and unchanged.
pub open spec fn header_of(row: RowModel) -> Seq<Seq<char>> {
    Seq::new(row.columns.len(), |k: int| row.columns[k].name)
}

/// The record of one row: one text per column, in the order of the columns,
/// each rendered under its own column's type.
pub open spec fn serialized_row(row: RowModel) -> Seq<Seq<char>> {
    Seq::new(
        row.columns.len(),
        |k: int| cell_text(category_of(row.columns[k].type_tag), value_at(row, row.columns[k].ordinal)),
    )
}

/// The records of a table's file.  Without rows there is none, not even a
/// header; otherwise the header of the first row comes first, and then one
/// record for each row.
pub open spec fn table_records(rows: Seq<RowModel>) -> Seq<Seq<Seq<char>>> {
    if rows.len() == 0 {
        Seq::empty()
    } else {
        Seq::new(
            rows.len() + 1,
            |i: int|
                if i == 0 {
                    header_of(rows[0])
                } else {
                    serialized_row(rows[i - 1])
                },
        )
    }
}

/// A record has one cell for each column of its row, whatever the values
/// are and however many of them fail to decode; so has the header.
pub proof fn lemma_row_width(row: RowModel)
    ensures
        serialized_row(row).len() == row.columns.len(),
        header_of(row).len() == row.columns.len(),
{
}

/// In every row, the cell of a column of an unsupported type is the marker.
pub proof fn lemma_unsupported_column(row: RowModel, k: int)
    requires
        0 <= k < row.columns.len(),
        category_of(row.columns[k].type_tag) == TypeCategory::Unsupported,
    ensures
        serialized_row(row)[k] == unsupported_text(),
{
}

/// A table without rows gives a file without bytes: no header, no body.
pub proof fn lemma_empty_table(rows: Seq<RowModel>)
    requires
        rows.len() == 0,
    ensures
        table_records(rows).len() == 0,
        uniform_width(table_records(rows)),
        csv_file(table_records(rows)) == Seq::<u8>::empty(),
{
}

/// A table with rows gives one record more than it has rows: the header of
/// the first row, and then the record of each row in order.
pub proof fn lemma_record_count(rows: Seq<RowModel>)
    requires
        rows.len() > 0,
    ensures
        table_records(rows).len() == rows.len() + 1,
        table_records(rows)[0] == header_of(rows[0]),
        forall|i: int| 0 <= i < rows.len() ==> #[trigger] table_records(rows)[i + 1] == serialized_row(rows[i]),
{
}

/// The header record of the table that `row` belongs to.
pub fn header(row: &RowRecord) -> (names: Vec<String>)
    ensures
        names.deep_view() == header_of(row@),
{
    let mut names: Vec<String> = Vec::new();
    let mut k: usize = 0;
    while k < row.columns.len()
        invariant
            k <= row.columns@.len(),
            names@.len() == k,
            forall|j: int| 0 <= j < k ==> (#[trigger] names@[j])@ == row.columns@[j].name@,
        decreases row.columns@.len() - k,
    {
        names.push(row.columns[k].name.clone());
        k = k + 1;
    }
    assert(names.deep_view() =~= header_of(row@));
    names
}

/// Renders the cells of one row.  A cell that cannot be decoded is empty,
/// so the record is as wide as the row has columns whatever the values are.
pub fn serialize_row(row: &RowRecord) -> (cells: Vec<String>)
    ensures
        cells.deep_view() == serialized_row(row@),
        cells@.len() == row.columns@.len(),
{
    let mut cells: Vec<String> = Vec::new();
    let mut k: usize = 0;
    while k < row.columns.len()
        invariant
            k <= row.columns@.len(),
            cells@.len() == k,
            forall|j: int| 0 <= j < k ==> (#[trigger] cells@[j])@ == serialized_row(row@)[j],
        decreases row.columns@.len() - k,
    {
        let column = &row.columns[k];
        let cell = if column.ordinal < row.values.len() {
            serialize_cell(column.type_tag.as_str(), &row.values[column.ordinal])
        } else {
            serialize_cell(column.type_tag.as_str(), &RawValue::Null)
        };
        cells.push(cell);
        k = k + 1;
    }
    assert(cells.deep_view() =~= serialized_row(row@));
    cells
}

/// Renders the rows of one table into the bytes of its CSV file.
///
/// No rows give an empty file.  Otherwise the file holds the header of the
/// first row and one record per row.  The CSV writer insists that every
/// record be as wide as the first; a row with another number of columns
/// fails the table with a write error.
pub fn export_table(rows: &Vec<RowRecord>) -> (r: Result<Vec<u8>, ExportError>)
    ensures
        r is Ok <==> uniform_width(table_records(rows.deep_view())),
        r matches Ok(bytes) ==> bytes@ == csv_file(table_records(rows.deep_view())),
        r matches Err(e) ==> e == ExportError::Write,
        rows@.len() == 0 ==> r is Ok && r->Ok_0@ == Seq::<u8>::empty(),
{
    let ghost records = table_records(rows.deep_view());
    let mut w = open_sink();
    if rows.len() > 0 {
        let head = header(&rows[0]);
        assert(head.deep_view() == records[0]);
        match write_record(w, &head) {
            Ok(after) => {
                w = after;
            },
            Err(_) => {
                return Err(ExportError::Write);
            },
        }
        assert(records.take(1).drop_last() =~= Seq::<Seq<Seq<char>>>::empty());
        assert(csv_file(records.take(1)) =~= csv_file(Seq::<Seq<Seq<char>>>::empty()) + csv_record(records[0]));
        let mut i: usize = 0;
        while i < rows.len()
            invariant
                i <= rows@.len(),
                records == table_records(rows.deep_view()),
                records.len() == rows@.len() + 1,
                csv_written(w) == csv_file(records.take(i + 1)),
                csv_width(w) == Some(records[0].len()),
                forall|k: int| 0 <= k <= i ==> (#[trigger] records[k]).len() == records[0].len(),
            decreases rows@.len() - i,
        {
            let cells = serialize_row(&rows[i]);
            assert(cells.deep_view() == records[i + 1]);
            match write_record(w, &cells) {
                Ok(after) => {
                    w = after;
                },
                Err(_) => {
                    assert(records[i + 1].len() != records[0].len());
                    return Err(ExportError::Write);
                },
            }
            assert(records.take(i + 2).drop_last() =~= records.take(i + 1));
            i = i + 1;
        }
        assert(records.take(records.len() as int) =~= records);
    }
    match close_sink(w) {
        Some(bytes) => Ok(bytes),
        None => Err(ExportError::Write),
    }
}

} // verus!
