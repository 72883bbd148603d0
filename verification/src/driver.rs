//! The pagination driver: how each response advances the accumulator, the
//! page index and the termination flag, and a runner over a scripted sequence
//! of responses.
//!
//! The caller that talks to the real endpoint owns the fetch loop: it fetches
//! the page at the driver's current index and feeds the status and body back
//! through `process_response` until the driver reports itself done.

use vstd::prelude::*;

use crate::decode::{decode_page, spec_page};
use crate::records::{IssueView, ReducedResult, ReducedView, spec_reduce};

verus! {

/// The driver's whole state: the index of the next page to fetch, the
/// accumulator of reduced records, and whether pagination has terminated.
pub struct Paginator {
    /// The zero-based index of the next page to request.
    pub page_index: usize,
    /// The accumulated reduced records, in the order the pages returned them.
    pub results: Vec<ReducedResult>,
    /// Whether pagination has terminated.
    pub done: bool,
}

/// The mathematical value of a `Paginator`.
pub struct PaginatorView {
    pub page_index: int,
    pub results: Seq<ReducedView>,
    pub done: bool,
}

impl View for Paginator {
    type V = PaginatorView;

    open spec fn view(&self) -> PaginatorView {
        PaginatorView {
            page_index: self.page_index as int,
            results: self.results.deep_view(),
            done: self.done,
        }
    }
}

/// The initial driver state: page zero, an empty accumulator, not terminated.
pub open spec fn spec_init() -> PaginatorView {
    PaginatorView { page_index: 0, results: Seq::empty(), done: false }
}

/// How one response advances the driver. A non-success status terminates
/// pagination. A body that does not decode contributes nothing and pagination
/// goes on to the next index. A decoded page with no items terminates. A
/// nonempty page appends its issues, in order, each reduced, and pagination
/// goes on.
pub open spec fn spec_step(st: PaginatorView, status_ok: bool, body: Seq<char>) -> PaginatorView {
    if !status_ok {
        PaginatorView { page_index: st.page_index, results: st.results, done: true }
    } else {
        match spec_page(body) {
            None => PaginatorView {
                page_index: st.page_index + 1,
                results: st.results,
                done: st.done,
            },
            Some(items) => if items.len() == 0 {
                PaginatorView { page_index: st.page_index, results: st.results, done: true }
            } else {
                PaginatorView {
                    page_index: st.page_index + 1,
                    results: st.results + items.map_values(|iv: IssueView| spec_reduce(iv)),
                    done: st.done,
                }
            },
        }
    }
}

impl Paginator {
    /// A fresh driver, about to request page zero with nothing accumulated.
    pub fn new() -> (p: Paginator)
        ensures
            p@ == spec_init(),
    {
        let p = Paginator { page_index: 0, results: Vec::new(), done: false };
        proof {
            assert(p@.results =~= Seq::<ReducedView>::empty());
        }
        p
    }

    /// Feed the driver the response for the page at its current index.
    pub fn process_response(&mut self, status_ok: bool, body: &str)
        requires
            !old(self).done,
            old(self).page_index < usize::MAX,
        ensures
            final(self)@ == spec_step(old(self)@, status_ok, body@),
    {
        if !status_ok {
            self.done = true;
            return;
        }
        let page = match decode_page(body) {
            Some(p) => p,
            None => {
                self.page_index += 1;
                return;
            },
        };
        if page.items.len() == 0 {
            self.done = true;
            return;
        }
        let ghost items_v: Seq<IssueView> = page.items.deep_view();
        let n = page.items.len();
        let mut k: usize = 0;
        while k < n
            invariant
                n == items_v.len(),
                k <= n,
                page.items.deep_view() == items_v,
                self.page_index == old(self).page_index,
                self.done == old(self).done,
                self.results.deep_view() == old(self).results.deep_view()
                    + items_v.take(k as int).map_values(|iv: IssueView| spec_reduce(iv)),
            decreases n - k,
        {
            let r = page.items[k].reduce();
            let ghost prev = self.results.deep_view();
            self.results.push(r);
            k += 1;
            proof {
                assert(self.results.deep_view() =~= prev.push(r@));
                assert(items_v.take(k as int)
                    =~= items_v.take(k as int - 1).push(items_v[k as int - 1]));
                assert(items_v.take(k as int).map_values(|iv: IssueView| spec_reduce(iv))
                    =~= items_v.take(k as int - 1).map_values(|iv: IssueView| spec_reduce(iv))
                        .push(spec_reduce(items_v[k as int - 1])));
                assert(self.results.deep_view() =~= old(self).results.deep_view()
                    + items_v.take(k as int).map_values(|iv: IssueView| spec_reduce(iv)));
            }
        }
        proof {
            assert(items_v.take(n as int) =~= items_v);
        }
        self.page_index += 1;
    }
}

/// One scripted response: the success flag and the body text the endpoint
/// would return for one page index.
pub struct ScriptedResponse {
    pub status_ok: bool,
    pub body: String,
}

/// The mathematical value of a `ScriptedResponse`.
pub struct ResponseView {
    pub status_ok: bool,
    pub body: Seq<char>,
}

impl View for ScriptedResponse {
    type V = ResponseView;

    open spec fn view(&self) -> ResponseView {
        ResponseView { status_ok: self.status_ok, body: self.body@ }
    }
}

impl DeepView for ScriptedResponse {
    type V = ResponseView;

    open spec fn deep_view(&self) -> ResponseView {
        self.view()
    }
}

/// Where the driver ends up when, from state `st`, every page it requests is
/// answered by the scripted response at that page's index. The run stops at
/// the driver's own termination, or when the script has no response for the
/// requested index.
pub open spec fn spec_run(responses: Seq<ResponseView>, st: PaginatorView) -> PaginatorView
    decreases responses.len() - st.page_index,
{
    if st.done || st.page_index < 0 || st.page_index >= responses.len() {
        st
    } else {
        let st2 = spec_step(
            st,
            responses[st.page_index].status_ok,
            responses[st.page_index].body,
        );
        if st2.done {
            st2
        } else {
            spec_run(responses, st2)
        }
    }
}

/// Run the driver from its initial state against a scripted endpoint: the
/// response for each requested page index is the script's entry there.
pub fn run_script(responses: &Vec<ScriptedResponse>) -> (p: Paginator)
    ensures
        p@ == spec_run(responses.deep_view(), spec_init()),
{
    let ghost rd: Seq<ResponseView> = responses.deep_view();
    let mut p = Paginator::new();
    while !p.done && p.page_index < responses.len()
        invariant
            responses.deep_view() == rd,
            rd.len() == responses.len(),
            spec_run(rd, p@) == spec_run(rd, spec_init()),
        decreases (responses.len() - p.page_index) + (if p.done { 0int } else { 1int }),
    {
        let entry = &responses[p.page_index];
        p.process_response(entry.status_ok, entry.body.as_str());
    }
    p
}

/// The concatenation, in page-index order, of the reduced items of each
/// decoded page of the script from index `from` on, up to and excluding the
/// first terminating page (a non-success status or an empty decoded page);
/// a page that does not decode contributes nothing.
pub open spec fn spec_pages_items(responses: Seq<ResponseView>, from: int) -> Seq<ReducedView>
    decreases responses.len() - from,
{
    if from < 0 || from >= responses.len() {
        Seq::empty()
    } else if !responses[from].status_ok {
        Seq::empty()
    } else {
        match spec_page(responses[from].body) {
            None => spec_pages_items(responses, from + 1),
            Some(items) => if items.len() == 0 {
                Seq::empty()
            } else {
                items.map_values(|iv: IssueView| spec_reduce(iv))
                    + spec_pages_items(responses, from + 1)
            },
        }
    }
}

/// Whether a response terminates pagination: a non-success status, or a
/// success page that decodes to zero items.
pub open spec fn is_terminator(r: ResponseView) -> bool {
    ||| !r.status_ok
    ||| (spec_page(r.body) matches Some(items) && items.len() == 0)
}

/// The index of the first terminating response of the script at or after
/// `from`, if there is one.
pub open spec fn spec_first_stop(responses: Seq<ResponseView>, from: int) -> Option<int>
    decreases responses.len() - from,
{
    if from < 0 || from >= responses.len() {
        None
    } else if is_terminator(responses[from]) {
        Some(from)
    } else {
        spec_first_stop(responses, from + 1)
    }
}

/// Termination: a run of the driver stops exactly at the first terminating
/// page — a non-success status or an empty decoded page — and never requests
/// a page past it; a page that does not decode is no terminator. With no
/// terminating page the run consumes the whole script and is still going.
pub proof fn lemma_run_termination(responses: Seq<ResponseView>, st: PaginatorView)
    requires
        !st.done,
        0 <= st.page_index,
    ensures
        (match spec_first_stop(responses, st.page_index) {
            Some(i) => spec_run(responses, st).done && spec_run(responses, st).page_index == i,
            None => !spec_run(responses, st).done && spec_run(responses, st).page_index == (
                if st.page_index >= responses.len() {
                    st.page_index
                } else {
                    responses.len() as int
                }
            ),
        }),
    decreases responses.len() - st.page_index,
{
    if st.page_index < responses.len() && !is_terminator(responses[st.page_index]) {
        let st2 = spec_step(st, responses[st.page_index].status_ok, responses[st.page_index].body);
        lemma_run_termination(responses, st2);
    }
}

/// Order preservation: a run of the driver appends to the accumulator it
/// starts with exactly the concatenation, in page-index order, of each
/// decoded page's reduced items — nothing is reordered, dropped or
/// deduplicated.
pub proof fn lemma_order_preservation(responses: Seq<ResponseView>, st: PaginatorView)
    requires
        !st.done,
    ensures
        spec_run(responses, st).results == st.results + spec_pages_items(responses, st.page_index),
    decreases responses.len() - st.page_index,
{
    if st.page_index < 0 || st.page_index >= responses.len() {
        assert(st.results + spec_pages_items(responses, st.page_index) =~= st.results);
    } else {
        let st2 = spec_step(st, responses[st.page_index].status_ok, responses[st.page_index].body);
        if st2.done {
            assert(st2.results == st.results);
            assert(st.results + spec_pages_items(responses, st.page_index) =~= st.results);
        } else {
            lemma_order_preservation(responses, st2);
            assert(st.results + spec_pages_items(responses, st.page_index)
                =~= st2.results + spec_pages_items(responses, st.page_index + 1));
        }
    }
}

} // verus!
