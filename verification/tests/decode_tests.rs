use github_prs::decode::decode_page;

fn item_json(number: usize, title: &str, body: &str) -> String {
    format!(
        "{{\"number\":{},\"title\":\"{}\",\"created_at\":\"2020-01-01\",\"url\":\"u\",\"body\":\"{}\"}}",
        number, title, body
    )
}

fn page_json(items: &[String]) -> String {
    format!("{{\"items\":[{}]}}", items.join(","))
}

#[test]
fn decode_of_a_valid_page_yields_its_items_in_order() {
    let text = page_json(&[item_json(1, "first", "abc"), item_json(2, "second", "")]);
    let page = decode_page(&text).expect("the page is well-formed");
    assert_eq!(page.items.len(), 2);
    assert_eq!(page.items[0].number, 1);
    assert_eq!(page.items[0].title, "first");
    assert_eq!(page.items[0].created_at, "2020-01-01");
    assert_eq!(page.items[0].url, "u");
    assert_eq!(page.items[0].body, "abc");
    assert_eq!(page.items[1].number, 2);
    assert_eq!(page.items[1].title, "second");
}

#[test]
fn decode_of_an_empty_items_array_yields_an_empty_page() {
    let page = decode_page("{\"items\":[]}").expect("the page is well-formed");
    assert_eq!(page.items.len(), 0);
}

#[test]
fn decode_of_unparsable_text_fails() {
    assert!(decode_page("this is not json").is_none());
}

#[test]
fn decode_without_an_items_member_fails() {
    assert!(decode_page("{\"total_count\":0}").is_none());
}

#[test]
fn decode_with_items_not_an_array_fails() {
    assert!(decode_page("{\"items\":3}").is_none());
}

#[test]
fn decode_with_a_missing_field_fails() {
    let text = "{\"items\":[{\"number\":1,\"title\":\"t\",\"created_at\":\"c\",\"url\":\"u\"}]}";
    assert!(decode_page(text).is_none());
}

#[test]
fn decode_with_a_field_of_the_wrong_kind_fails() {
    let text =
        "{\"items\":[{\"number\":\"one\",\"title\":\"t\",\"created_at\":\"c\",\"url\":\"u\",\"body\":\"b\"}]}";
    assert!(decode_page(text).is_none());
}

#[test]
fn decode_with_a_negative_number_fails() {
    let text =
        "{\"items\":[{\"number\":-1,\"title\":\"t\",\"created_at\":\"c\",\"url\":\"u\",\"body\":\"b\"}]}";
    assert!(decode_page(text).is_none());
}

#[test]
fn decode_ignores_members_it_does_not_consume() {
    let text = "{\"total_count\":1,\"items\":[{\"number\":7,\"state\":\"open\",\"title\":\"t\",\"created_at\":\"c\",\"url\":\"u\",\"body\":\"bb\"}]}";
    let page = decode_page(text).expect("the page is well-formed");
    assert_eq!(page.items.len(), 1);
    assert_eq!(page.items[0].number, 7);
    assert_eq!(page.items[0].body, "bb");
}
