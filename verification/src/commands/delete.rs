//! Deleting a gist.
use crate::commands::locator;
use crate::commands::locator::parse_gist_id;
use crate::error;
use crate::error::CliError;
use crate::output::Segment;
use vstd::prelude::*;

verus! {

/// What is shown while the gist is deleted.
pub const PROGRESS: &'static str = "Deleting gist...";

/// The identifier of the gist to delete.
pub fn execute(url: &str) -> (r: Result<String, CliError>)
    ensures
        match r {
            Ok(id) => locator::gist_id_in(url@) == Some(id@),
            Err(e) => {
                &&& locator::gist_id_in(url@) is None
                &&& e is Api
                &&& e.text() == "could not parse gist ID from: "@ + url@
                &&& e.advice() is None
            },
        },
{
    parse_gist_id(url)
}

/// The line to print for a gist that was deleted.
pub fn report() -> (r: Vec<Segment>)
    ensures
        r.deep_view() == error::success_line("gist deleted"@),
{
    error::print_success("gist deleted")
}

} // verus!
