//! Numbers, points, weights, unit conversions and the reading of parameter
//! lists.
pub mod coordinate;
pub mod decimal;
pub mod fixed;
pub mod point;
pub mod weight;

use vstd::prelude::*;
use crate::params::entered;
use crate::params::record_fault;
use crate::params::ParamError;
use crate::params::Params;
use crate::utils::fixed::floor_div;
use crate::utils::fixed::Fixed;

verus! {

/// The error type of the `csv` crate, `csv::Error`. Nothing is read from
/// it: that there is one is all that counts.
#[verifier::external_type_specification]
#[verifier::external_body]
pub struct ExCsvError(csv::Error);

/// The records that the `csv` crate reads from `data` with its default
/// settings, each record as the texts of its fields; `None` where it reports
/// an error.
pub uninterp spec fn csv_records(data: Seq<u8>) -> Option<Seq<Seq<Seq<char>>>>;

/// Reads all records of `data` with `csv::Reader::from_reader` and
/// `Reader::records`, and copies out the fields of each.
///
/// With the crate's default settings the first record is taken as a header
/// and left out, fields are separated by commas, and records must all have
/// the same number of fields. The contract only names the outcome: it is a
/// function of the bytes, and an error of the crate means there is none.
#[verifier::external_body]
fn read_records(data: &[u8]) -> (r: Result<Vec<Vec<String>>, csv::Error>)
    ensures
        match r {
            Ok(records) => csv_records(data@) == Some(records.deep_view()),
            Err(_) => csv_records(data@) is None,
        },
{
    let mut reader = csv::Reader::from_reader(data);
    let mut records: Vec<Vec<String>> = Vec::new();
    for record in reader.records() {
        records.push(record?.iter().map(String::from).collect());
    }
    Ok(records)
}

/// Enters into `params` what the text of a comma-separated list holds. Its
/// records are a symbol and its value; its first record is a header.
///
/// Fails with `Malformed` where the text is not a well-formed list, and
/// otherwise as [`Params::with_records`] does on the records read.
pub fn extend_params(params: Params, data: &[u8]) -> (r: Result<Params, ParamError>)
    ensures
        match csv_records(data@) {
            None => r == Err::<Params, ParamError>(ParamError::Malformed),
            Some(records) => match r {
                Ok(extended) => {
                    &&& forall|i: int|
                        0 <= i < records.len() ==> record_fault(
                            #[trigger] records[i],
                            i as usize,
                        ) is None
                    &&& extended@ == entered(params@, records, records.len() as int)
                },
                Err(e) => exists|i: int|
                    {
                        &&& 0 <= i < records.len()
                        &&& record_fault(#[trigger] records[i], i as usize) == Some(e)
                        &&& forall|j: int|
                            0 <= j < i ==> record_fault(#[trigger] records[j], j as usize) is None
                    },
            },
        },
{
    match read_records(data) {
        Err(_) => Err(ParamError::Malformed),
        Ok(records) => params.with_records(&records),
    }
}

/// Reads a parameter table from the text of a comma-separated list: what
/// [`extend_params`] enters into an empty table.
pub fn extract_params(data: &[u8]) -> (r: Result<Params, ParamError>)
    ensures
        match csv_records(data@) {
            None => r == Err::<Params, ParamError>(ParamError::Malformed),
            Some(records) => match r {
                Ok(params) => {
                    &&& forall|i: int|
                        0 <= i < records.len() ==> record_fault(
                            #[trigger] records[i],
                            i as usize,
                        ) is None
                    &&& params@ == entered(Map::empty(), records, records.len() as int)
                },
                Err(e) => exists|i: int|
                    {
                        &&& 0 <= i < records.len()
                        &&& record_fault(#[trigger] records[i], i as usize) == Some(e)
                        &&& forall|j: int|
                            0 <= j < i ==> record_fault(#[trigger] records[j], j as usize) is None
                    },
            },
        },
{
    extend_params(Params::new(), data)
}

/// Pounds in `kg` kilograms, at 2.20462 pounds to the kilogram.
pub fn kg_to_lb(kg: Fixed) -> (lb: Option<Fixed>)
    ensures
        lb == kg.ratio(220_462, 100_000),
{
    kg.scaled(220_462, 100_000)
}

/// Square feet in `m2` square metres, at 10.7639 square feet to the square
/// metre.
pub fn m2_to_ft2(m2: Fixed) -> (ft2: Option<Fixed>)
    ensures
        ft2 == m2.ratio(107_639, 10_000),
{
    m2.scaled(107_639, 10_000)
}

/// Radians in `deg` degrees, at 0.0174533 radians to the degree.
pub fn deg_to_rad(deg: Fixed) -> (rad: Option<Fixed>)
    ensures
        rad == deg.ratio(174_533, 10_000_000),
{
    deg.scaled(174_533, 10_000_000)
}

/// Feet in `inches` inches, rounded down to the next millionth.
pub fn in_to_ft(inches: Fixed) -> (ft: Fixed)
    ensures
        ft.raw == inches.raw / 12,
{
    let q: i128 = floor_div(inches.raw as i128, 12);
    Fixed { raw: q as i64 }
}

} // verus!
