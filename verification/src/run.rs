//! The course of a run: what to do with the inputs, and what to do with the
//! answer. Requesting and printing are left to the caller; every decision is
//! made here.

use vstd::prelude::*;
use crate::decimal::decimal;
use crate::error::{diagnostic, exit_status, WeatherError};
use crate::query::{
    credential_text, first_argument, request_text, resolution, resolve_query, WeatherQuery,
};
use crate::report::{
    is_summary, render_report, texts, ZipResponse, WeatherResponse, REPORT_LINES,
};
use crate::style::has_infix;

verus! {

/// What the caller is to do next.
#[derive(Clone, Debug, PartialEq, Eq)]
pub enum Step {
    /// Request `url` once, and come back with the answer.
    Fetch { query: WeatherQuery, url: String },
    /// Print the lines, one after the other, and exit with status 0.
    Print { lines: Vec<String> },
    /// Print the message and exit with the status, which is never 0.
    Abort { error: WeatherError, exit_code: i32, message: String },
}

/// The step that ends a run on `error`.
pub fn abort(error: WeatherError) -> (step: Step)
    ensures
        step.ends_on(error),
{
    Step::Abort { error, exit_code: error.exit_code(), message: error.message() }
}

impl Step {
    /// Whether this step ends the run on `error`, with its status and its
    /// diagnostic.
    pub open spec fn ends_on(&self, error: WeatherError) -> bool {
        &&& *self matches Step::Abort { error: e, exit_code, message }
        &&& e == error
        &&& exit_code == exit_status(error)
        &&& exit_code != 0
        &&& message@ == diagnostic(error)
    }
}

/// The first step of a run, from the arguments as the process got them, the
/// program's name first, and the credential if the environment holds one.
/// A request is made only for inputs that resolve: without a first argument,
/// or without a credential, the run ends at once with a status other than 0.
pub fn first_step(args: &Vec<String>, api_key: Option<String>) -> (step: Step)
    ensures
        match resolution(first_argument(args@), credential_text(api_key)) {
            Ok((postal_code, key)) => {
                &&& step matches Step::Fetch { query, url }
                &&& query.postal_code == postal_code
                &&& query.api_key@ == key
                &&& url@ == request_text(postal_code as int, key)
            },
            Err(error) => step.ends_on(error),
        },
        args@.len() < 2 ==> step.ends_on(WeatherError::InvalidArgument),
        api_key is None ==> step.ends_on(WeatherError::InvalidArgument) || step.ends_on(
            WeatherError::MissingCredential,
        ),
{
    match resolve_query(args, api_key) {
        Ok(query) => {
            let url = query.request_url();
            Step::Fetch { query, url }
        },
        Err(error) => abort(error),
    }
}

/// The last step of a run, from the answer to the request for `query`, if
/// one came. No answer, or one without a description, ends the run on a
/// fetch error; any other is summarized and printed.
pub fn last_step(query: &WeatherQuery, reply: Option<ZipResponse>) -> (step: Step)
    ensures
        match reply {
            Some(answer) if answer.weather@.len() > 0 => {
                &&& step matches Step::Print { lines }
                &&& lines@.len() == REPORT_LINES
                &&& is_summary(
                    query.postal_code as int,
                    answer.weather@[0].description@,
                    answer.main,
                    texts(lines@),
                )
                &&& has_infix(lines@[1]@, decimal(query.postal_code as int))
            },
            _ => step.ends_on(WeatherError::FetchError),
        },
{
    match reply {
        None => abort(WeatherError::FetchError),
        Some(answer) => match WeatherResponse::from_reply(&answer) {
            Err(error) => abort(error),
            Ok(response) => Step::Print { lines: render_report(query.postal_code, &response) },
        },
    }
}

} // verus!
