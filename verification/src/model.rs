//! The data that one standings request produces: a competition, one row
//! per team, and the error taxonomy of the pipeline.

use vstd::prelude::*;

verus! {

/// A league tracked by numeric id and display name.
#[derive(Debug)]
pub struct Competition {
    pub id: u16,
    pub name: String,
}

/// A team, as the API reports it inside a standings row.
#[derive(Debug)]
pub struct Team {
    pub id: u16,
    pub name: String,
}

/// One team's row in a competition table. All fields come verbatim from
/// the API response; goal difference is signed, the rest never are.
#[derive(Debug)]
pub struct Standing {
    pub position: u8,
    pub team: Team,
    pub played_games: u8,
    pub won: u8,
    pub draw: u8,
    pub lost: u8,
    pub points: u8,
    pub goals_for: u8,
    pub goals_against: u8,
    pub goal_difference: i8,
}

/// One sub-table of a response that nests several tables.
#[derive(Debug)]
pub struct StandingTable {
    pub table: Vec<Standing>,
}

/// The decoded shape of a standings response. API versions vary: some
/// return the row array directly, others wrap it in a list of sub-tables
/// where the overall table is the second element.
#[derive(Debug)]
pub enum ApiResponse {
    /// The response is itself the row array.
    Flat(Vec<Standing>),
    /// The response nests a list of sub-tables.
    Nested(Vec<StandingTable>),
}

/// What can go wrong in one unit of work. Every error is fatal to the
/// unit it occurs in: there is no retry or partial-output policy.
#[derive(PartialEq, Eq, Structural, Clone, Copy, Debug)]
pub enum AppError {
    /// Network or HTTP-level failure.
    TransportError,
    /// Malformed JSON, or a response of an unexpected shape.
    DecodeError,
    /// Missing API key or missing argument.
    ConfigError,
    /// File creation or write failure.
    IoError,
}

impl AppError {
    /// The short tag under which the error is reported.
    pub fn tag(&self) -> (r: &'static str)
        ensures
            *self is TransportError ==> r@ == "http error"@,
            *self is DecodeError ==> r@ == "json parsing error"@,
            *self is ConfigError ==> r@ == "config error"@,
            *self is IoError ==> r@ == "io error"@,
    {
        match self {
            AppError::TransportError => "http error",
            AppError::DecodeError => "json parsing error",
            AppError::ConfigError => "config error",
            AppError::IoError => "io error",
        }
    }
}

} // verus!
