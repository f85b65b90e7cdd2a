//! The table extractor: locates the row collection inside a decoded
//! response, whose shape varies across API versions.

use vstd::prelude::*;
use crate::model::ApiResponse;
use crate::model::AppError;
use crate::model::Standing;
use crate::model::StandingTable;

verus! {

/// Selects the overall standings table from a nested response: the
/// second sub-table of the list, whose rows are returned unchanged.
pub fn extract_standings(standing_tables: Vec<StandingTable>) -> (r: Vec<Standing>)
    requires
        standing_tables@.len() >= 2,
    ensures
        r@ == standing_tables@[1].table@,
{
    let mut tables = standing_tables;
    let second = tables.remove(1);
    second.table
}

/// Locates the row collection of a decoded response. A flat response is
/// its own row array and is returned unchanged; a nested response holds
/// the overall table as its second sub-table, and a nested list with
/// fewer than two sub-tables is a shape mismatch.
pub fn extract_rows(response: ApiResponse) -> (r: Result<Vec<Standing>, AppError>)
    ensures
        response matches ApiResponse::Flat(rows) ==> (r matches Ok(out) && out@ == rows@),
        response matches ApiResponse::Nested(tables) ==> ((tables@.len() >= 2 ==> (r matches Ok(
            out,
        ) && out@ == tables@[1].table@)) && (tables@.len() < 2 ==> (r matches Err(e)
            && e is DecodeError))),
{
    match response {
        ApiResponse::Flat(rows) => Ok(rows),
        ApiResponse::Nested(tables) => {
            if tables.len() >= 2 {
                Ok(extract_standings(tables))
            } else {
                Err(AppError::DecodeError)
            }
        },
    }
}

} // verus!
