//! Encoding of result rows as lines of a CSV table.

use vstd::prelude::*;

verus! {

#[verifier::external_type_specification]
#[verifier::external_body]
pub struct ExCsvError(csv::Error);

/// The bytes that csv writes for one record of `fields`.
pub uninterp spec fn csv_record(fields: Seq<Seq<char>>) -> Seq<u8>;

/// The text of each cell of `row`.
pub open spec fn cells(row: Seq<String>) -> Seq<Seq<char>> {
    row.map_values(|c: String| c@)
}

/// Relies on csv's `Writer::write_record` into an in-memory buffer, handed
/// back by `Writer::into_inner`: the bytes of one record, fixed by its
/// fields. A fresh writer's first record passes the field-count check, and
/// writes into a `Vec<u8>` never fail, so the encoding succeeds.
#[verifier::external_body]
fn encode_record(row: &Vec<String>) -> (r: Result<Vec<u8>, csv::Error>)
    ensures
        r is Ok,
        r is Ok ==> r->Ok_0@ == csv_record(cells(row@)),
{
    let mut writer = csv::Writer::from_writer(Vec::new());
    writer.write_record(row)?;
    writer.into_inner().map_err(|e| csv::Error::from(e.into_error()))
}

/// The bytes of `row` as one line of a results table: its cells separated
/// by commas, quoted where they need it, ended by a newline.
pub fn encode_row(row: &Vec<String>) -> (r: Vec<u8>)
    ensures
        r@ == csv_record(cells(row@)),
{
    encode_record(row).unwrap()
}

} // verus!
