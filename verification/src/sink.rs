//! An in-memory CSV writer of the `csv` crate, with the default settings:
//! comma-delimited, quoted only where needed, every record as wide as the
//! first.

use vstd::prelude::*;
use vstd::utf8::encode_utf8;

verus! {

/// A `csv::Writer` over a vector of bytes on which no write has failed: a
/// write that fails consumes the writer.  Its inside is hidden from the
/// verifier; what it holds is known through [`csv_written`] and
/// [`csv_width`].
#[verifier::external_body]
pub struct CsvSink {
    inner: csv::Writer<Vec<u8>>,
}

/// `csv::Error`, the error of the writer's calls.  It is only carried to
/// the place where it is turned into an error of this crate.
#[verifier::external_type_specification]
#[verifier::external_body]
pub struct ExCsvError(csv::Error);

/// The bytes that the writer has produced so far, those still in its buffer
/// included.
pub uninterp spec fn csv_written(w: CsvSink) -> Seq<u8>;

/// The number of fields of the first record that the writer has accepted;
/// `None` before the first record.
pub uninterp spec fn csv_width(w: CsvSink) -> Option<nat>;

/// The bytes that force a field into quotes: the comma, the quote, and the
/// two line-break characters.
pub open spec fn is_special(b: u8) -> bool {
    b == 0x2C || b == 0x22 || b == 0x0D || b == 0x0A
}

/// Whether a field must be quoted: it is when it holds a special byte.
pub open spec fn needs_quotes(field: Seq<u8>) -> bool {
    exists|i: int| 0 <= i < field.len() && is_special(#[trigger] field[i])
}

/// A field with each quote doubled.
pub open spec fn doubled_quotes(field: Seq<u8>) -> Seq<u8>
    decreases field.len(),
{
    if field.len() == 0 {
        Seq::empty()
    } else if field.last() == 0x22 {
        doubled_quotes(field.drop_last()) + seq![0x22u8, 0x22u8]
    } else {
        doubled_quotes(field.drop_last()).push(field.last())
    }
}

/// One field as it stands in the file: as it is, or between quotes with its
/// own quotes doubled where it must be quoted.
pub open spec fn csv_field(field: Seq<u8>) -> Seq<u8> {
    if needs_quotes(field) {
        seq![0x22u8] + doubled_quotes(field) + seq![0x22u8]
    } else {
        field
    }
}

/// The fields of a record in UTF-8, with a comma between neighbours.
pub open spec fn csv_fields(fields: Seq<Seq<char>>) -> Seq<u8>
    decreases fields.len(),
{
    if fields.len() == 0 {
        Seq::empty()
    } else if fields.len() == 1 {
        csv_field(encode_utf8(fields[0]))
    } else {
        csv_fields(fields.drop_last()) + seq![0x2Cu8] + csv_field(encode_utf8(fields.last()))
    }
}

/// One record as it stands in the file: its fields and a line feed.  A
/// record that would otherwise be an empty line, having no field or one
/// empty field, is written as a pair of quotes.
pub open spec fn csv_record(fields: Seq<Seq<char>>) -> Seq<u8> {
    let body = csv_fields(fields);
    if body.len() == 0 {
        seq![0x22u8, 0x22u8, 0x0Au8]
    } else {
        body.push(0x0Au8)
    }
}

/// The bytes of a CSV file that holds these records in this order.
pub open spec fn csv_file(records: Seq<Seq<Seq<char>>>) -> Seq<u8>
    decreases records.len(),
{
    if records.len() == 0 {
        Seq::empty()
    } else {
        csv_file(records.drop_last()) + csv_record(records.last())
    }
}

/// Whether every record has as many fields as the first.
pub open spec fn uniform_width(records: Seq<Seq<Seq<char>>>) -> bool {
    forall|i: int| 0 <= i < records.len() ==> (#[trigger] records[i]).len() == records[0].len()
}

/// `csv::Writer::from_writer` on an empty vector.
///
/// Trusted: the new writer has produced nothing and has seen no record.
#[verifier::external_body]
pub(crate) fn open_sink() -> (w: CsvSink)
    ensures
        csv_written(w) == Seq::<u8>::empty(),
        csv_width(w) is None,
{
    CsvSink { inner: csv::Writer::from_writer(Vec::new()) }
}

/// `csv::Writer::write_record`.
///
/// Trusted: on a writer on which no write has failed, the call succeeds
/// exactly when the record has as many fields as the first record written
/// (an in-memory writer has no other way to fail).  It then appends the
/// record in the documented default format, which [`csv_record`] spells
/// out, and remembers the width.  A failed call leaves fields of the
/// refused record behind in the writer, so the writer is taken by value and
/// handed back only on success.
#[verifier::external_body]
pub(crate) fn write_record(w: CsvSink, record: &Vec<String>) -> (r: Result<CsvSink, csv::Error>)
    ensures
        r is Ok <==> (csv_width(w) matches Some(n) ==> n == record@.len()),
        r matches Ok(after) ==> csv_written(after) == csv_written(w) + csv_record(
            record.deep_view(),
        ) && csv_width(after) == Some(record@.len()),
{
    let mut w = w;
    match w.inner.write_record(record) {
        Ok(()) => Ok(w),
        Err(error) => Err(error),
    }
}

/// `csv::Writer::into_inner`.
///
/// Trusted: flushing into a vector cannot fail, and the vector then holds
/// every byte the writer has produced.
#[verifier::external_body]
pub(crate) fn close_sink(w: CsvSink) -> (r: Option<Vec<u8>>)
    ensures
        r is Some,
        r matches Some(bytes) ==> bytes@ == csv_written(w),
{
    w.inner.into_inner().ok()
}

} // verus!
