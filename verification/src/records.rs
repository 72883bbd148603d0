//! The data model: one pull request as a search page returns it, and the
//! reduced record that the accumulator retains.

use vstd::prelude::*;
use vstd::utf8::encode_utf8;

verus! {

/// One pull request as returned by the search API.
pub struct IssueSummary {
    /// The repository-local number of the pull request.
    pub number: usize,
    /// The title.
    pub title: String,
    /// The creation date, opaque timestamp text.
    pub created_at: String,
    /// The URL of the pull request.
    pub url: String,
    /// The full body text, unbounded length.
    pub body: String,
}

/// The mathematical value of an `IssueSummary`.
pub struct IssueView {
    pub number: int,
    pub title: Seq<char>,
    pub created_at: Seq<char>,
    pub url: Seq<char>,
    pub body: Seq<char>,
}

impl View for IssueSummary {
    type V = IssueView;

    open spec fn view(&self) -> IssueView {
        IssueView {
            number: self.number as int,
            title: self.title@,
            created_at: self.created_at@,
            url: self.url@,
            body: self.body@,
        }
    }
}

impl DeepView for IssueSummary {
    type V = IssueView;

    open spec fn deep_view(&self) -> IssueView {
        self.view()
    }
}

/// The retained, accumulated form of one pull request: the body text is
/// replaced by its length in UTF-8 bytes, so that the accumulator never
/// holds full bodies.
pub struct ReducedResult {
    pub number: usize,
    pub title: String,
    pub created_at: String,
    pub url: String,
    pub body_length: usize,
}

/// The mathematical value of a `ReducedResult`.
pub struct ReducedView {
    pub number: int,
    pub title: Seq<char>,
    pub created_at: Seq<char>,
    pub url: Seq<char>,
    pub body_length: int,
}

impl View for ReducedResult {
    type V = ReducedView;

    open spec fn view(&self) -> ReducedView {
        ReducedView {
            number: self.number as int,
            title: self.title@,
            created_at: self.created_at@,
            url: self.url@,
            body_length: self.body_length as int,
        }
    }
}

impl DeepView for ReducedResult {
    type V = ReducedView;

    open spec fn deep_view(&self) -> ReducedView {
        self.view()
    }
}

/// What projecting one issue yields: every field is kept, except that the
/// body is replaced by its length in UTF-8 bytes, the encoding the API
/// returns text in.
pub open spec fn spec_reduce(i: IssueView) -> ReducedView {
    ReducedView {
        number: i.number,
        title: i.title,
        created_at: i.created_at,
        url: i.url,
        body_length: encode_utf8(i.body).len() as int,
    }
}

impl IssueSummary {
    /// Project this issue to its reduced record: the body is replaced by its
    /// length in UTF-8 bytes, and no other field is altered.
    pub fn reduce(&self) -> (r: ReducedResult)
        ensures
            r@ == spec_reduce(self@),
    {
        let body_length = self.body.as_str().as_bytes().len();
        ReducedResult {
            number: self.number,
            title: self.title.clone(),
            created_at: self.created_at.clone(),
            url: self.url.clone(),
            body_length,
        }
    }
}

/// One decoded page of search results.
pub struct SearchPage {
    /// The issues of the page, in the order the API returned them.
    pub items: Vec<IssueSummary>,
}

} // verus!
