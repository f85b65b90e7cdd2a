//! Football league standings, rendered as fixed-width text tables.
//!
//! The library builds request plans for a standings API, extracts the
//! relevant table from the decoded response, and formats the rows into
//! aligned plain-text output, including a gophermap index page.

pub mod clock;
pub mod extract;
pub mod gophermap;
pub mod lines;
pub mod model;
pub mod numfmt;
pub mod parse;
pub mod plan;
pub mod registry;
pub mod table;
