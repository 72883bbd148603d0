//! Building the page URLs and the output lines that the run reports.

use vstd::prelude::*;
use vstd::string::*;

use crate::records::ReducedResult;
use crate::text::{decimal_string, spec_decimal};

verus! {

/// The URL of one page: the fixed base query with the zero-based page index
/// appended as a decimal numeral.
pub fn page_url(base: &str, page_index: usize) -> (r: String)
    ensures
        r@ == base@ + spec_decimal(page_index as int),
{
    let mut s = String::from_str(base);
    s.append(decimal_string(page_index).as_str());
    s
}

/// The line reporting how many results were accumulated.
pub fn count_line(count: usize) -> (r: String)
    ensures
        r@ == "Number of open PRs: "@ + spec_decimal(count as int),
{
    let mut s = String::from_str("Number of open PRs: ");
    s.append(decimal_string(count).as_str());
    s
}

/// The line reporting the oldest open pull request, by repo-qualified number
/// and title.
pub fn oldest_line(repo: &str, rec: &ReducedResult) -> (r: String)
    ensures
        r@ == "Oldest: "@ + repo@ + "#"@ + spec_decimal(rec.number as int) + ": "@ + rec.title@,
{
    let mut s = String::from_str("Oldest: ");
    s.append(repo);
    s.append("#");
    s.append(decimal_string(rec.number).as_str());
    s.append(": ");
    s.append(rec.title.as_str());
    s
}

/// The line reporting the pull request with the longest body, by
/// repo-qualified number and title.
pub fn longest_line(repo: &str, rec: &ReducedResult) -> (r: String)
    ensures
        r@ == "Longest body: "@ + repo@ + ":#"@ + spec_decimal(rec.number as int) + ": "@
            + rec.title@,
{
    let mut s = String::from_str("Longest body: ");
    s.append(repo);
    s.append(":#");
    s.append(decimal_string(rec.number).as_str());
    s.append(": ");
    s.append(rec.title.as_str());
    s
}

} // verus!
