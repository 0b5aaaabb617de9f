use errorsx::errorsx::capability::{
    HasDebug, HasDetails, HasId, HasReason, HasRequestId, HasStatus, HasStatusCode,
};
use errorsx::errorsx::details::{DetailValue, Details};
use errorsx::errorsx::location::Location;
use errorsx::errorsx::{root_cause, ChainedError, Errorsx, ErrorsxBuilder, PlainError};

fn here() -> Location {
    Location::new("src/service.rs", 42)
}

fn same_error(left: &ChainedError, right: &ChainedError) -> bool {
    std::ptr::eq(left, right)
}

fn needs_send_and_sync<T: Send + Sync>(_value: &T) {}

fn shown_status<E: HasStatusCode + HasStatus>(error: &E) -> String {
    match error.status() {
        Some(text) => format!("{} {}", error.status_code(), text),
        None => format!("{}", error.status_code()),
    }
}

#[test]
fn message_is_kept_verbatim() {
    assert_eq!(Errorsx::new("x", here()).message(), "x");
    assert_eq!(Errorsx::new("Failed to process file", here()).message(), "Failed to process file");
}

#[test]
fn empty_message_is_kept() {
    assert_eq!(Errorsx::new("", here()).message(), "");
}

#[test]
fn new_has_nothing_but_message_and_location() {
    let error = Errorsx::new("x", here());
    assert!(error.context().is_empty());
    assert!(error.source().is_none());
    assert_eq!(error.status_code(), 500);
    assert!(error.status().is_none());
    assert!(error.details().is_none());
}

#[test]
fn builder_new_and_builder_agree() {
    let one = ErrorsxBuilder::new("m", here()).with_context("a").build();
    let two = Errorsx::builder("m", here()).with_context("a").build();
    assert_eq!(one.message(), two.message());
    assert_eq!(one.context(), two.context());
    assert_eq!(one.location().file(), two.location().file());
    assert_eq!(one.location().line(), two.location().line());
}

#[test]
fn context_order_is_preserved() {
    let error = Errorsx::builder("m", here()).with_context("a").with_context("b").build();
    assert_eq!(error.context(), &vec![String::from("a"), String::from("b")]);
}

#[test]
fn context_is_empty_not_absent() {
    let error = Errorsx::builder("m", here()).build();
    assert_eq!(error.context().len(), 0);
}

#[test]
fn context_survives_other_steps() {
    let error = Errorsx::builder("m", here())
        .with_context("first")
        .with_status_code(400)
        .with_context("second")
        .with_reason("why")
        .with_context("third")
        .build();
    assert_eq!(
        error.context(),
        &vec![String::from("first"), String::from("second"), String::from("third")]
    );
}

#[test]
fn location_is_the_one_given() {
    let error = Errorsx::new("m", Location::new("src/lib.rs", 7));
    assert_eq!(error.location().file(), "src/lib.rs");
    assert_eq!(error.location().line(), 7);
}

#[test]
fn status_code_defaults_to_500() {
    let error = Errorsx::builder("m", here()).with_context("a").with_status("Oops").build();
    assert_eq!(error.status_code(), 500);
}

#[test]
fn status_code_override() {
    let error = Errorsx::builder("m", here()).with_status_code(404).build();
    assert_eq!(error.status_code(), 404);
}

#[test]
fn status_code_set_twice_keeps_the_last() {
    let error = Errorsx::builder("m", here()).with_status_code(404).with_status_code(503).build();
    assert_eq!(error.status_code(), 503);
}

#[test]
fn status_code_zero_is_not_the_default() {
    let error = Errorsx::builder("m", here()).with_status_code(0).build();
    assert_eq!(error.status_code(), 0);
}

#[test]
fn source_is_the_error_given() {
    let inner = ChainedError::Plain(PlainError::new("inner"));
    let error = Errorsx::builder("outer", here()).with_source(inner).build();
    let source = error.source().unwrap();
    assert_eq!(source.message(), "inner");
    assert!(matches!(source, ChainedError::Plain(_)));
    assert!(source.source().is_none());
}

#[test]
fn source_set_twice_keeps_the_last() {
    let error = Errorsx::builder("outer", here())
        .with_source(ChainedError::Plain(PlainError::new("one")))
        .with_source(ChainedError::Plain(PlainError::new("two")))
        .build();
    assert_eq!(error.source().unwrap().message(), "two");
}

#[test]
fn source_may_be_an_enriched_error() {
    let inner = Errorsx::builder("inner", here()).with_status_code(409).build();
    let error = Errorsx::builder("outer", here()).with_source(ChainedError::Enriched(inner)).build();
    match error.source() {
        Some(ChainedError::Enriched(cause)) => {
            assert_eq!(cause.message(), "inner");
            assert_eq!(cause.status_code(), 409);
        }
        _ => panic!("the cause is an enriched error"),
    }
}

#[test]
fn root_cause_of_a_chain_of_three() {
    let c = ChainedError::Plain(PlainError::new("C"));
    let b = ChainedError::Plain(PlainError::new("B").with_source(c));
    let a = ChainedError::Enriched(Errorsx::builder("A", here()).with_source(b).build());
    let root = root_cause(&a);
    assert_eq!(root.message(), "C");
    assert!(root.source().is_none());
    let third = a.source().unwrap().source().unwrap();
    assert!(same_error(root, third));
}

#[test]
fn root_cause_of_an_error_without_source_is_itself() {
    let a = ChainedError::Enriched(Errorsx::new("A", here()));
    let root = root_cause(&a);
    assert!(same_error(root, &a));
    assert_eq!(root.message(), "A");
}

#[test]
fn root_cause_of_a_chain_of_two() {
    let b = ChainedError::Enriched(Errorsx::new("B", here()));
    let a = ChainedError::Plain(PlainError::new("A").with_source(b));
    let root = root_cause(&a);
    assert_eq!(root.message(), "B");
    assert!(same_error(root, a.source().unwrap()));
}

#[test]
fn root_cause_of_a_long_chain() {
    let mut chain = ChainedError::Plain(PlainError::new("0"));
    for depth in 1..200 {
        chain = ChainedError::Plain(PlainError::new(&format!("{}", depth)).with_source(chain));
    }
    assert_eq!(chain.message(), "199");
    assert_eq!(root_cause(&chain).message(), "0");
}

#[test]
fn plain_error_keeps_text_and_source() {
    let plain = PlainError::new("disk full");
    assert_eq!(plain.message(), "disk full");
    assert!(plain.source().is_none());
    let wrapped = PlainError::new("write failed").with_source(ChainedError::Plain(plain));
    assert_eq!(wrapped.message(), "write failed");
    assert_eq!(wrapped.source().unwrap().message(), "disk full");
}

#[test]
fn reading_twice_gives_the_same() {
    let mut details = Details::new();
    details.insert("attempt", DetailValue::Unsigned(3));
    let error = Errorsx::builder("m", here())
        .with_context("a")
        .with_source(ChainedError::Plain(PlainError::new("inner")))
        .with_status_code(418)
        .with_status("teapot")
        .with_reason("r")
        .with_debug("d")
        .with_request_id("req-1")
        .with_id("id-1")
        .with_details(details)
        .build();
    assert_eq!(error.message(), error.message());
    assert_eq!(error.context(), error.context());
    assert_eq!(error.location().file(), error.location().file());
    assert_eq!(error.location().line(), error.location().line());
    assert!(std::ptr::eq(error.backtrace(), error.backtrace()));
    assert!(same_error(error.source().unwrap(), error.source().unwrap()));
    assert_eq!(error.status_code(), error.status_code());
    assert_eq!(error.status(), error.status());
    assert_eq!(error.reason(), error.reason());
    assert_eq!(error.debug(), error.debug());
    assert_eq!(error.request_id(), error.request_id());
    assert_eq!(error.id(), error.id());
    let first = error.details().as_ref().unwrap().get_unsigned("attempt");
    let second = error.details().as_ref().unwrap().get_unsigned("attempt");
    assert_eq!(first, Some(3));
    assert_eq!(first, second);
}

#[test]
fn unset_optional_fields_are_absent() {
    let error = Errorsx::builder("m", here()).with_context("a").with_status_code(400).build();
    assert_eq!(error.reason(), &None);
    assert_eq!(error.debug(), &None);
    assert_eq!(error.request_id(), &None);
    assert_eq!(error.id(), &None);
    assert_eq!(error.status(), &None);
    assert!(error.details().is_none());
    assert!(error.source().is_none());
}

#[test]
fn optional_fields_report_what_was_set() {
    let error = Errorsx::builder("m", here())
        .with_status("Not Found")
        .with_reason("no such user")
        .with_debug("lookup(17)")
        .with_request_id("req-9")
        .with_id("e-1")
        .build();
    assert_eq!(error.status(), &Some(String::from("Not Found")));
    assert_eq!(error.reason(), &Some(String::from("no such user")));
    assert_eq!(error.debug(), &Some(String::from("lookup(17)")));
    assert_eq!(error.request_id(), &Some(String::from("req-9")));
    assert_eq!(error.id(), &Some(String::from("e-1")));
}

#[test]
fn optional_field_set_twice_keeps_the_last() {
    let error = Errorsx::builder("m", here())
        .with_status("one")
        .with_status("two")
        .with_reason("a")
        .with_reason("b")
        .build();
    assert_eq!(error.status(), &Some(String::from("two")));
    assert_eq!(error.reason(), &Some(String::from("b")));
}

#[test]
fn empty_text_is_not_absent() {
    let error = Errorsx::builder("m", here()).with_reason("").with_id("").build();
    assert_eq!(error.reason(), &Some(String::new()));
    assert_eq!(error.id(), &Some(String::new()));
    assert_eq!(error.debug(), &None);
}

#[test]
fn capabilities_report_what_the_accessors_do() {
    let mut details = Details::new();
    details.insert("k", DetailValue::Flag(true));
    let error = Errorsx::builder("m", here())
        .with_status_code(429)
        .with_status("Too Many Requests")
        .with_reason("quota")
        .with_debug("bucket empty")
        .with_request_id("req-2")
        .with_id("e-2")
        .with_details(details)
        .build();
    assert_eq!(HasStatusCode::status_code(&error), 429);
    assert_eq!(HasStatus::status(&error), &Some(String::from("Too Many Requests")));
    assert_eq!(HasReason::reason(&error), &Some(String::from("quota")));
    assert_eq!(HasDebug::debug(&error), &Some(String::from("bucket empty")));
    assert_eq!(HasRequestId::request_id(&error), &Some(String::from("req-2")));
    assert_eq!(HasId::id(&error), &Some(String::from("e-2")));
    assert_eq!(HasDetails::details(&error).as_ref().unwrap().get_flag("k"), Some(true));
}

#[test]
fn capabilities_report_the_defaults() {
    let error = Errorsx::new("m", here());
    assert_eq!(HasStatusCode::status_code(&error), 500);
    assert_eq!(HasStatus::status(&error), &None);
    assert_eq!(HasReason::reason(&error), &None);
    assert_eq!(HasDebug::debug(&error), &None);
    assert_eq!(HasRequestId::request_id(&error), &None);
    assert_eq!(HasId::id(&error), &None);
    assert!(HasDetails::details(&error).is_none());
}

#[test]
fn capabilities_serve_generic_code() {
    let plain = Errorsx::new("m", here());
    assert_eq!(shown_status(&plain), "500");
    let coded = Errorsx::builder("m", here()).with_status_code(404).with_status("Not Found").build();
    assert_eq!(shown_status(&coded), "404 Not Found");
}

#[test]
fn error_values_are_send_and_sync() {
    let error = Errorsx::builder("m", here())
        .with_source(ChainedError::Plain(PlainError::new("inner")))
        .build();
    needs_send_and_sync(&error);
    needs_send_and_sync(&ChainedError::Plain(PlainError::new("p")));
    needs_send_and_sync(&Details::new());
    needs_send_and_sync(&Errorsx::builder("m", here()));
}

#[test]
fn backtrace_is_captured_at_build() {
    let error = Errorsx::new("m", here());
    assert_eq!(error.backtrace().status(), std::backtrace::BacktraceStatus::Captured);
}
