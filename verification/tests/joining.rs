use csv_converter::extras::{bracketed, join_present};
use csv_converter::mapper::text_or_empty;

#[test]
fn bracketed_closes_what_it_opens() {
    assert_eq!(bracketed("[favourite:", "true"), "[favourite:true]");
    assert_eq!(bracketed("[reprompt:", ""), "[reprompt:]");
    assert_eq!(bracketed("", ""), "]");
}

#[test]
fn join_present_of_nothing_is_empty() {
    assert_eq!(join_present(&Vec::new(), ", "), "");
    assert_eq!(join_present(&vec![None, None], ", "), "");
}

#[test]
fn join_present_skips_what_is_absent() {
    let items = vec![None, Some("a".to_string()), None, Some("b".to_string()), None];
    assert_eq!(join_present(&items, ", "), "a, b");
}

#[test]
fn join_present_of_one_item_has_no_separator() {
    assert_eq!(join_present(&vec![Some("only".to_string())], ", "), "only");
    assert_eq!(join_present(&vec![None, Some("only".to_string())], ", "), "only");
}

#[test]
fn join_present_keeps_empty_items() {
    let items = vec![Some(String::new()), Some("x".to_string()), Some(String::new())];
    assert_eq!(join_present(&items, "-"), "-x-");
}

#[test]
fn join_present_of_three_items() {
    let items = vec![Some("a".to_string()), Some("b".to_string()), Some("c".to_string())];
    assert_eq!(join_present(&items, ", "), "a, b, c");
}

#[test]
fn text_or_empty_gives_the_text_or_nothing() {
    assert_eq!(text_or_empty(Some("1".to_string())), "1");
    assert_eq!(text_or_empty(Some(String::new())), "");
    assert_eq!(text_or_empty(None), "");
}
