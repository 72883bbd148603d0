use github_prs::records::ReducedResult;
use github_prs::report::{count_line, longest_line, oldest_line, page_url};
use github_prs::text::decimal_string;

fn rec(number: usize, title: &str) -> ReducedResult {
    ReducedResult {
        number,
        title: title.to_string(),
        created_at: "c".to_string(),
        url: "u".to_string(),
        body_length: 0,
    }
}

#[test]
fn decimal_of_zero_is_one_digit() {
    assert_eq!(decimal_string(0), "0");
}

#[test]
fn decimal_of_a_multi_digit_number() {
    assert_eq!(decimal_string(1234), "1234");
    assert_eq!(decimal_string(100), "100");
    assert_eq!(decimal_string(9), "9");
}

#[test]
fn page_url_appends_the_index() {
    assert_eq!(page_url("https://example.invalid/search?page=", 12), "https://example.invalid/search?page=12");
    assert_eq!(page_url("b", 0), "b0");
}

#[test]
fn count_line_reports_the_count() {
    assert_eq!(count_line(0), "Number of open PRs: 0");
    assert_eq!(count_line(57), "Number of open PRs: 57");
}

#[test]
fn oldest_line_names_the_record() {
    let line = oldest_line("rust-lang/rust", &rec(65819, "Add an impl"));
    assert_eq!(line, "Oldest: rust-lang/rust#65819: Add an impl");
}

#[test]
fn longest_line_names_the_record() {
    let line = longest_line("rust-lang/rust", &rec(79135, "stabilize a feature"));
    assert_eq!(line, "Longest body: rust-lang/rust:#79135: stabilize a feature");
}
