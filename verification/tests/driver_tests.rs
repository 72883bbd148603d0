use github_prs::driver::{run_script, Paginator, ScriptedResponse};

fn ok(body: &str) -> ScriptedResponse {
    ScriptedResponse { status_ok: true, body: body.to_string() }
}

fn error_status() -> ScriptedResponse {
    ScriptedResponse { status_ok: false, body: String::new() }
}

fn item_json(number: usize, body: &str) -> String {
    format!(
        "{{\"number\":{},\"title\":\"t{}\",\"created_at\":\"c\",\"url\":\"u\",\"body\":\"{}\"}}",
        number, number, body
    )
}

fn page_json(items: &[String]) -> String {
    format!("{{\"items\":[{}]}}", items.join(","))
}

const EMPTY_PAGE: &str = "{\"items\":[]}";

#[test]
fn accumulation_preserves_page_and_item_order() {
    let script = vec![
        ok(&page_json(&[item_json(1, "a"), item_json(2, "bb")])),
        ok(&page_json(&[item_json(3, "ccc")])),
        ok(EMPTY_PAGE),
    ];
    let p = run_script(&script);
    let numbers: Vec<usize> = p.results.iter().map(|r| r.number).collect();
    assert_eq!(numbers, vec![1, 2, 3]);
    let lengths: Vec<usize> = p.results.iter().map(|r| r.body_length).collect();
    assert_eq!(lengths, vec![1, 2, 3]);
}

#[test]
fn empty_success_page_terminates_pagination() {
    // Pages 0 and 1 carry items, page 2 is an empty success page; the entry
    // at index 3 would add another item if it were ever requested.
    let script = vec![
        ok(&page_json(&[item_json(1, "a")])),
        ok(&page_json(&[item_json(2, "bb")])),
        ok(EMPTY_PAGE),
        ok(&page_json(&[item_json(9, "never")])),
    ];
    let p = run_script(&script);
    assert!(p.done);
    assert_eq!(p.page_index, 2);
    let numbers: Vec<usize> = p.results.iter().map(|r| r.number).collect();
    assert_eq!(numbers, vec![1, 2]);
}

#[test]
fn error_status_terminates_pagination() {
    let script = vec![
        ok(&page_json(&[item_json(1, "a"), item_json(2, "bb")])),
        error_status(),
        ok(&page_json(&[item_json(9, "never")])),
    ];
    let p = run_script(&script);
    assert!(p.done);
    assert_eq!(p.page_index, 1);
    let numbers: Vec<usize> = p.results.iter().map(|r| r.number).collect();
    assert_eq!(numbers, vec![1, 2]);
}

#[test]
fn malformed_page_is_skipped_and_pagination_goes_on() {
    let script = vec![
        ok(&page_json(&[item_json(1, "a")])),
        ok("this is not json, with a success status"),
        ok(EMPTY_PAGE),
        ok(&page_json(&[item_json(9, "never")])),
    ];
    let p = run_script(&script);
    assert!(p.done);
    assert_eq!(p.page_index, 2);
    let numbers: Vec<usize> = p.results.iter().map(|r| r.number).collect();
    assert_eq!(numbers, vec![1]);
}

#[test]
fn immediately_empty_page_gives_an_empty_accumulator() {
    let script = vec![ok(EMPTY_PAGE)];
    let p = run_script(&script);
    assert!(p.done);
    assert_eq!(p.results.len(), 0);
    assert!(github_prs::stats::oldest(&p.results).is_none());
    assert!(github_prs::stats::longest_body(&p.results).is_none());
}

#[test]
fn one_response_advances_one_page() {
    let mut p = Paginator::new();
    assert_eq!(p.page_index, 0);
    assert!(!p.done);
    p.process_response(true, &page_json(&[item_json(5, "12345")]));
    assert_eq!(p.page_index, 1);
    assert!(!p.done);
    assert_eq!(p.results.len(), 1);
    assert_eq!(p.results[0].number, 5);
    assert_eq!(p.results[0].body_length, 5);
    p.process_response(false, "");
    assert!(p.done);
    assert_eq!(p.results.len(), 1);
}
