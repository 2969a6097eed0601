use vstd::prelude::*;
use vstd::utf8::{decode_utf8, valid_utf8};

use crate::error::StepError;
use crate::json::{parse_json, parsed_json};
use crate::record::{records_from_json, records_of, Record, RecordTuple};
use crate::status::{status_outcome, validate_status};
use crate::text::decode_text;

verus! {

/// The recognised fields of each record of a decode result.
pub open spec fn records_view(r: Result<Vec<Record>, StepError>) -> Result<Seq<RecordTuple>, StepError> {
    match r {
        Ok(out) => Ok(out@.map_values(|x: Record| x@)),
        Err(e) => Err(e),
    }
}

/// What text decode followed by structured decode makes of a body.
pub open spec fn records_outcome(body: Seq<u8>) -> Result<Seq<RecordTuple>, StepError> {
    if !valid_utf8(body) {
        Err(StepError::EncodingError)
    } else {
        match parsed_json(decode_utf8(body)) {
            None => Err(StepError::SchemaError),
            Some(v) => match records_of(v) {
                None => Err(StepError::SchemaError),
                Some(rs) => Ok(rs),
            },
        }
    }
}

/// Decode Step for a listing: the body as UTF-8 text, then as a JSON array
/// of records. All or nothing: no record comes out of a body that fails.
pub fn decode_records(body: &[u8]) -> (r: Result<Vec<Record>, StepError>)
    ensures
        records_view(r) == records_outcome(body@),
{
    let text = match decode_text(body) {
        Ok(t) => t,
        Err(e) => return Err(e),
    };
    match parse_json(text.as_str()) {
        None => Err(StepError::SchemaError),
        Some(v) => {
            records_from_json(&v)
        },
    }
}

/// A fetched listing: the status is validated first, and the body is decoded
/// only when the status lets the pipeline go on.
pub fn fetch_records(status: u16, body: &[u8]) -> (r: Result<Vec<Record>, StepError>)
    ensures
        status_outcome(status) matches Err(e) ==> r == Err::<Vec<Record>, StepError>(e),
        status_outcome(status) is Ok ==> records_view(r) == records_outcome(body@),
{
    match validate_status(status) {
        Err(e) => Err(e),
        Ok(()) => decode_records(body),
    }
}

/// A fetched text: the status is validated first, then the body is read as
/// UTF-8.
pub fn fetch_text(status: u16, body: &[u8]) -> (r: Result<String, StepError>)
    ensures
        status_outcome(status) matches Err(e) ==> r == Err::<String, StepError>(e),
        status_outcome(status) is Ok ==> (r is Ok <==> valid_utf8(body@)),
        status_outcome(status) is Ok && !valid_utf8(body@) ==> r == Err::<String, StepError>(
            StepError::EncodingError,
        ),
        r matches Ok(s) ==> s@ == decode_utf8(body@),
{
    match validate_status(status) {
        Err(e) => Err(e),
        Ok(()) => decode_text(body),
    }
}

} // verus!
