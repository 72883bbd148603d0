//! Decoding one response body into a page of issues.
//!
//! The JSON text is parsed by `serde_json`; the parsed value is opaque here,
//! so each accessor that the decoder relies on gets a name for its result,
//! and the decoded page is characterised exactly in terms of those names.

use vstd::prelude::*;

use crate::records::{IssueSummary, IssueView, SearchPage};

verus! {

#[verifier::external_type_specification]
#[verifier::external_body]
pub struct ExValue(serde_json::Value);

/// What `serde_json::from_str::<serde_json::Value>` returns on a text:
/// `None` where the text is not well-formed JSON.
pub uninterp spec fn parsed_json(s: Seq<char>) -> Option<serde_json::Value>;

/// What `serde_json::Value::get` returns: the member of an object under a
/// string key, `None` where the value is no object or has no such member.
pub uninterp spec fn json_member(v: serde_json::Value, key: Seq<char>) -> Option<serde_json::Value>;

/// What `serde_json::Value::as_array` returns: the elements of an array
/// value in order, `None` where the value is no array.
pub uninterp spec fn json_elements(v: serde_json::Value) -> Option<Seq<serde_json::Value>>;

/// What `serde_json::Value::as_u64` returns: the value of a number that was
/// written as an unsigned integer fitting a `u64`, `None` otherwise (also
/// for numbers written with a fraction or exponent).
pub uninterp spec fn json_u64(v: serde_json::Value) -> Option<u64>;

/// What `serde_json::Value::as_str` returns: the characters of a string
/// value, `None` where the value is no string.
pub uninterp spec fn json_text(v: serde_json::Value) -> Option<Seq<char>>;

/// Relies on `serde_json::from_str::<serde_json::Value>`: the parse of a
/// text depends on the text alone; an ill-formed text gives an error.
#[verifier::external_body]
fn parse_json(text: &str) -> (r: Option<serde_json::Value>)
    ensures
        r == parsed_json(text@),
{
    serde_json::from_str(text).ok()
}

/// Relies on `serde_json::Value::get` with a string index: the member of an
/// object under the key, depending on the value and the key alone.
#[verifier::external_body]
fn get_member<'a>(v: &'a serde_json::Value, key: &str) -> (r: Option<&'a serde_json::Value>)
    ensures
        (match r {
            Some(m) => json_member(*v, key@) == Some(*m),
            None => json_member(*v, key@) is None,
        }),
{
    v.get(key)
}

/// Relies on `serde_json::Value::as_array`: the elements of an array value,
/// in order, depending on the value alone.
#[verifier::external_body]
fn get_elements<'a>(v: &'a serde_json::Value) -> (r: Option<&'a Vec<serde_json::Value>>)
    ensures
        (match r {
            Some(a) => json_elements(*v) == Some(a@),
            None => json_elements(*v) is None,
        }),
{
    v.as_array()
}

/// Relies on `serde_json::Value::as_u64`: the value of an unsigned-integer
/// number that fits a `u64`, depending on the value alone.
#[verifier::external_body]
fn get_u64(v: &serde_json::Value) -> (r: Option<u64>)
    ensures
        r == json_u64(*v),
{
    v.as_u64()
}

/// Relies on `serde_json::Value::as_str`: the characters of a string value,
/// depending on the value alone.
#[verifier::external_body]
fn get_text(v: &serde_json::Value) -> (r: Option<String>)
    ensures
        (match r {
            Some(s) => json_text(*v) == Some(s@),
            None => json_text(*v) is None,
        }),
{
    v.as_str().map(str::to_string)
}

/// The issue that one element of the `items` array decodes to: all five
/// members must be present with the right kinds, and the number must fit
/// the machine's word; otherwise the element is invalid.
pub open spec fn spec_item(v: serde_json::Value) -> Option<IssueView> {
    match (
        json_member(v, "number"@),
        json_member(v, "title"@),
        json_member(v, "created_at"@),
        json_member(v, "url"@),
        json_member(v, "body"@),
    ) {
        (Some(n), Some(t), Some(c), Some(u), Some(b)) => match (
            json_u64(n),
            json_text(t),
            json_text(c),
            json_text(u),
            json_text(b),
        ) {
            (Some(number), Some(title), Some(created_at), Some(url), Some(body)) => {
                if number <= usize::MAX as u64 {
                    Some(IssueView { number: number as int, title, created_at, url, body })
                } else {
                    None
                }
            },
            _ => None,
        },
        _ => None,
    }
}

/// The issues that a sequence of array elements decodes to, from index `i`
/// on: all elements must be valid, else the whole page is invalid.
pub open spec fn spec_items_from(vs: Seq<serde_json::Value>, i: int) -> Option<Seq<IssueView>>
    decreases vs.len() - i,
{
    if i < 0 || i >= vs.len() {
        Some(Seq::empty())
    } else {
        match spec_item(vs[i]) {
            Some(first) => match spec_items_from(vs, i + 1) {
                Some(rest) => Some(seq![first] + rest),
                None => None,
            },
            None => None,
        }
    }
}

/// The page that a response body decodes to: a JSON object whose `items`
/// member is an array of valid issue elements. `None` on any malformed body.
pub open spec fn spec_page(s: Seq<char>) -> Option<Seq<IssueView>> {
    match parsed_json(s) {
        Some(v) => match json_member(v, "items"@) {
            Some(m) => match json_elements(m) {
                Some(vs) => spec_items_from(vs, 0),
                None => None,
            },
            None => None,
        },
        None => None,
    }
}

/// Decode one element of the `items` array into an issue.
fn decode_item(v: &serde_json::Value) -> (r: Option<IssueSummary>)
    ensures
        (match r {
            Some(i) => spec_item(*v) == Some(i@),
            None => spec_item(*v) is None,
        }),
{
    let number_v = match get_member(v, "number") {
        Some(m) => m,
        None => { return None; },
    };
    let title_v = match get_member(v, "title") {
        Some(m) => m,
        None => { return None; },
    };
    let created_at_v = match get_member(v, "created_at") {
        Some(m) => m,
        None => { return None; },
    };
    let url_v = match get_member(v, "url") {
        Some(m) => m,
        None => { return None; },
    };
    let body_v = match get_member(v, "body") {
        Some(m) => m,
        None => { return None; },
    };
    let number_u64 = match get_u64(number_v) {
        Some(n) => n,
        None => { return None; },
    };
    let title = match get_text(title_v) {
        Some(s) => s,
        None => { return None; },
    };
    let created_at = match get_text(created_at_v) {
        Some(s) => s,
        None => { return None; },
    };
    let url = match get_text(url_v) {
        Some(s) => s,
        None => { return None; },
    };
    let body = match get_text(body_v) {
        Some(s) => s,
        None => { return None; },
    };
    if number_u64 > usize::MAX as u64 {
        return None;
    }
    let number = number_u64 as usize;
    Some(IssueSummary { number, title, created_at, url, body })
}

/// Attempt to decode a response body as a page of search results: the exact
/// decode is `spec_page`, and `None` is returned precisely on the bodies on
/// which it fails.
pub fn decode_page(text: &str) -> (r: Option<SearchPage>)
    ensures
        (match r {
            Some(p) => spec_page(text@) == Some(p.items.deep_view()),
            None => spec_page(text@) is None,
        }),
{
    let root = match parse_json(text) {
        Some(v) => v,
        None => { return None; },
    };
    let items_v = match get_member(&root, "items") {
        Some(m) => m,
        None => { return None; },
    };
    let elements = match get_elements(items_v) {
        Some(a) => a,
        None => { return None; },
    };
    let ghost vs: Seq<serde_json::Value> = elements@;
    assert(spec_page(text@) == spec_items_from(vs, 0));
    let mut items: Vec<IssueSummary> = Vec::new();
    let n = elements.len();
    let mut i: usize = 0;
    while i < n
        invariant
            n == vs.len(),
            i <= n,
            elements@ == vs,
            spec_page(text@) == spec_items_from(vs, 0),
            items.deep_view().len() == i as int,
            (forall|k: int| 0 <= k < i ==> spec_item(vs[k]) == Some(#[trigger] items.deep_view()[k])),
        decreases n - i,
    {
        let item = match decode_item(&elements[i]) {
            Some(it) => it,
            None => {
                proof {
                    lemma_invalid_element(vs, i as int);
                }
                return None;
            },
        };
        let ghost prev = items.deep_view();
        items.push(item);
        i += 1;
        proof {
            assert(items.deep_view() =~= prev.push(item.deep_view()));
        }
    }
    proof {
        lemma_all_valid(vs, items.deep_view());
    }
    Some(SearchPage { items })
}

/// An invalid element at index `i` makes the whole sequence invalid.
proof fn lemma_invalid_element(vs: Seq<serde_json::Value>, i: int)
    requires
        0 <= i < vs.len(),
        spec_item(vs[i]) is None,
    ensures
        spec_items_from(vs, 0) is None,
{
    lemma_invalid_from(vs, 0, i);
}

proof fn lemma_invalid_from(vs: Seq<serde_json::Value>, j: int, i: int)
    requires
        0 <= j <= i < vs.len(),
        spec_item(vs[i]) is None,
    ensures
        spec_items_from(vs, j) is None,
    decreases i - j,
{
    if j < i {
        lemma_invalid_from(vs, j + 1, i);
    }
}

/// A sequence all of whose elements decode to the issues of `out`, index by
/// index, decodes to exactly `out`.
proof fn lemma_all_valid(vs: Seq<serde_json::Value>, out: Seq<IssueView>)
    requires
        out.len() == vs.len(),
        (forall|k: int| 0 <= k < vs.len() ==> spec_item(vs[k]) == Some(#[trigger] out[k])),
    ensures
        spec_items_from(vs, 0) == Some(out),
{
    lemma_all_valid_from(vs, out, 0);
}

proof fn lemma_all_valid_from(vs: Seq<serde_json::Value>, out: Seq<IssueView>, j: int)
    requires
        0 <= j <= vs.len(),
        out.len() == vs.len(),
        (forall|k: int| j <= k < vs.len() ==> spec_item(vs[k]) == Some(#[trigger] out[k])),
    ensures
        spec_items_from(vs, j) == Some(out.skip(j)),
    decreases vs.len() - j,
{
    if j >= vs.len() {
        assert(out.skip(j) =~= Seq::empty());
    } else {
        lemma_all_valid_from(vs, out, j + 1);
        assert(seq![out[j]] + out.skip(j + 1) =~= out.skip(j));
    }
}

} // verus!
