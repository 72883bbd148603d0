use github_prs::records::IssueSummary;

fn issue(number: usize, title: &str, created_at: &str, url: &str, body: &str) -> IssueSummary {
    IssueSummary {
        number,
        title: title.to_string(),
        created_at: created_at.to_string(),
        url: url.to_string(),
        body: body.to_string(),
    }
}

#[test]
fn projection_replaces_body_with_its_length() {
    let i = issue(42, "a title", "2020-01-01T00:00:00Z", "https://example.invalid/42", "hello");
    let r = i.reduce();
    assert_eq!(r.number, 42);
    assert_eq!(r.title, "a title");
    assert_eq!(r.created_at, "2020-01-01T00:00:00Z");
    assert_eq!(r.url, "https://example.invalid/42");
    assert_eq!(r.body_length, 5);
}

#[test]
fn projection_of_empty_body_is_zero() {
    let r = issue(1, "t", "c", "u", "").reduce();
    assert_eq!(r.body_length, 0);
}

#[test]
fn projection_counts_utf8_bytes() {
    let r = issue(1, "t", "c", "u", "héllo").reduce();
    assert_eq!(r.body_length, 6);
}
