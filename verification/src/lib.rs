//! A weather summary for a postal code: resolving the inputs of one lookup,
//! naming the request, converting the temperatures that come back and laying
//! out the colour-coded lines of the summary.

pub mod decimal;
pub mod temperature;
pub mod style;
pub mod error;
pub mod query;
pub mod report;
pub mod run;
