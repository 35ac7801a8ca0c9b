//! Counting the lines of a CSV file.
//!
//! A record ends with a line feed, and the writer adds no other: as long as
//! no field holds a line feed of its own, a file has as many lines as it has
//! records.

use crate::sink::{csv_field, csv_fields, csv_file, csv_record, doubled_quotes};
use crate::table::{header_of, serialized_row, table_records, RowModel};
use vstd::prelude::*;
use vstd::utf8::{encode_scalar, encode_utf8};

verus! {

/// The number of line feeds among some bytes.
pub open spec fn line_feeds(bytes: Seq<u8>) -> nat
    decreases bytes.len(),
{
    if bytes.len() == 0 {
        0
    } else if bytes.last() == 0x0A {
        line_feeds(bytes.drop_last()) + 1
    } else {
        line_feeds(bytes.drop_last())
    }
}

/// Whether a text holds no line feed.
pub open spec fn single_line(text: Seq<char>) -> bool {
    forall|i: int| 0 <= i < text.len() ==> text[i] != '\n'
}

/// Whether no field of a record holds a line feed.
pub open spec fn single_line_record(fields: Seq<Seq<char>>) -> bool {
    forall|k: int| 0 <= k < fields.len() ==> single_line(#[trigger] fields[k])
}

/// Whether no byte is a line feed.
spec fn free_of_line_feeds(bytes: Seq<u8>) -> bool {
    forall|i: int| 0 <= i < bytes.len() ==> bytes[i] != 0x0A
}

proof fn lemma_free_counts_zero(bytes: Seq<u8>)
    requires
        free_of_line_feeds(bytes),
    ensures
        line_feeds(bytes) == 0,
    decreases bytes.len(),
{
    if bytes.len() > 0 {
        lemma_free_counts_zero(bytes.drop_last());
    }
}

proof fn lemma_line_feeds_concat(a: Seq<u8>, b: Seq<u8>)
    ensures
        line_feeds(a + b) == line_feeds(a) + line_feeds(b),
    decreases b.len(),
{
    if b.len() == 0 {
        assert(a + b =~= a);
    } else {
        assert((a + b).drop_last() =~= a + b.drop_last());
        lemma_line_feeds_concat(a, b.drop_last());
    }
}

proof fn lemma_scalar_free(c: char)
    requires
        c != '\n',
    ensures
        free_of_line_feeds(encode_scalar(c as u32)),
{
    let v = c as u32;
    assert(v != 10);
    assert(v <= 0x7F && v != 10 ==> (v & 0x7F) as u8 != 0x0Au8) by (bit_vector);
    assert((0xC0u8 | ((v >> 6) & 0x1F) as u8) != 0x0Au8) by (bit_vector);
    assert((0xE0u8 | ((v >> 12) & 0x0F) as u8) != 0x0Au8) by (bit_vector);
    assert((0xF0u8 | ((v >> 18) & 0x7) as u8) != 0x0Au8) by (bit_vector);
    assert((0x80u8 | (v & 0x3F) as u8) != 0x0Au8) by (bit_vector);
    assert((0x80u8 | ((v >> 6) & 0x3F) as u8) != 0x0Au8) by (bit_vector);
    assert((0x80u8 | ((v >> 12) & 0x3F) as u8) != 0x0Au8) by (bit_vector);
}

proof fn lemma_utf8_free(text: Seq<char>)
    requires
        single_line(text),
    ensures
        free_of_line_feeds(encode_utf8(text)),
    decreases text.len(),
{
    if text.len() > 0 {
        lemma_scalar_free(text[0]);
        lemma_utf8_free(text.drop_first());
    }
}

proof fn lemma_doubled_free(field: Seq<u8>)
    requires
        free_of_line_feeds(field),
    ensures
        free_of_line_feeds(doubled_quotes(field)),
    decreases field.len(),
{
    if field.len() > 0 {
        lemma_doubled_free(field.drop_last());
    }
}

proof fn lemma_fields_free(fields: Seq<Seq<char>>)
    requires
        single_line_record(fields),
    ensures
        free_of_line_feeds(csv_fields(fields)),
    decreases fields.len(),
{
    if fields.len() > 0 {
        lemma_utf8_free(fields.last());
        lemma_doubled_free(encode_utf8(fields.last()));
        assert(free_of_line_feeds(csv_field(encode_utf8(fields.last()))));
        if fields.len() > 1 {
            lemma_fields_free(fields.drop_last());
        }
    }
}

/// A record without a line feed in its fields is one line: its bytes hold
/// one line feed, and that is their last.
pub proof fn lemma_record_is_one_line(fields: Seq<Seq<char>>)
    requires
        single_line_record(fields),
    ensures
        line_feeds(csv_record(fields)) == 1,
        csv_record(fields).last() == 0x0A,
{
    lemma_fields_free(fields);
    let record = csv_record(fields);
    assert(free_of_line_feeds(record.drop_last()));
    lemma_free_counts_zero(record.drop_last());
}

/// A file whose records hold no line feed in their fields has as many lines
/// as it has records.
pub proof fn lemma_file_lines(records: Seq<Seq<Seq<char>>>)
    requires
        forall|i: int| 0 <= i < records.len() ==> single_line_record(#[trigger] records[i]),
    ensures
        line_feeds(csv_file(records)) == records.len(),
    decreases records.len(),
{
    if records.len() > 0 {
        lemma_file_lines(records.drop_last());
        lemma_record_is_one_line(records.last());
        lemma_line_feeds_concat(csv_file(records.drop_last()), csv_record(records.last()));
    }
}

/// A table with rows, none of whose column names and rendered cells holds a
/// line feed, gives a file of exactly one line more than it has rows: the
/// header line and one line for each row.
pub proof fn lemma_table_lines(rows: Seq<RowModel>)
    requires
        rows.len() > 0,
        single_line_record(header_of(rows[0])),
        forall|i: int| 0 <= i < rows.len() ==> single_line_record(#[trigger] serialized_row(rows[i])),
    ensures
        line_feeds(csv_file(table_records(rows))) == rows.len() + 1,
{
    let records = table_records(rows);
    assert forall|i: int| 0 <= i < records.len() implies single_line_record(
        #[trigger] records[i],
    ) by {
        if i > 0 {
            assert(records[i] == serialized_row(rows[i - 1]));
        }
    }
    lemma_file_lines(records);
}

} // verus!
