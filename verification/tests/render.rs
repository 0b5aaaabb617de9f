use errorsx::errorsx::decimal::to_decimal;
use errorsx::errorsx::location::Location;
use errorsx::errorsx::render::{join, layout};
use errorsx::errorsx::Errorsx;

#[test]
fn decimal_notation() {
    assert_eq!(to_decimal(0), "0");
    assert_eq!(to_decimal(7), "7");
    assert_eq!(to_decimal(10), "10");
    assert_eq!(to_decimal(1905), "1905");
    assert_eq!(to_decimal(u32::MAX), "4294967295");
}

#[test]
fn location_is_described_in_parentheses() {
    assert_eq!(Location::new("src/main.rs", 17).describe(), "(at: src/main.rs, line_no: 17)");
    assert_eq!(Location::new("", 0).describe(), "(at: , line_no: 0)");
}

#[test]
fn join_puts_the_separator_between() {
    let parts = vec![String::from("a"), String::from("b"), String::from("c")];
    assert_eq!(join(&parts, ","), "a,b,c");
    assert_eq!(join(&parts, " -> "), "a -> b -> c");
    assert_eq!(join(&parts, ""), "abc");
}

#[test]
fn join_of_one_and_of_none() {
    assert_eq!(join(&vec![String::from("only")], ","), "only");
    assert_eq!(join(&Vec::new(), ","), "");
}

#[test]
fn join_keeps_empty_parts() {
    let parts = vec![String::new(), String::from("b"), String::new()];
    assert_eq!(join(&parts, ","), ",b,");
}

#[test]
fn layout_of_an_error() {
    let context = vec![String::from("a"), String::from("b")];
    let text = layout(&Location::new("src/main.rs", 17), &context, "TRACE");
    assert_eq!(text, "Location: (at: src/main.rs, line_no: 17),\nContext: a,b\nSource:\n TRACE");
}

#[test]
fn layout_without_context() {
    let text = layout(&Location::new("x.rs", 1), &Vec::new(), "");
    assert_eq!(text, "Location: (at: x.rs, line_no: 1),\nContext: \nSource:\n ");
}

#[test]
fn render_shows_location_context_and_snapshot() {
    let error = Errorsx::builder("not shown", Location::new("src/job.rs", 250))
        .with_context("loading")
        .with_context("parsing")
        .build();
    let text = error.render();
    let trace = format!("{:#?}", error.backtrace());
    let expected = format!(
        "Location: (at: src/job.rs, line_no: 250),\nContext: loading,parsing\nSource:\n {}",
        trace
    );
    assert_eq!(text, expected);
    assert!(!trace.is_empty());
    assert!(!text.contains("not shown"));
}
