//! What holds of every enriched error, stated over the views of the builder
//! and of the finished value.
//!
//! A builder is started and then taken through a sequence of steps, one for
//! each `with_` call. `Step` names such a call with its argument, and
//! `apply_all` is the view that a sequence of them leads to.

use crate::errorsx::details::{flag_at, signed_at, text_at, unsigned_at, DetailValueView};
use crate::errorsx::location::LocationView;
use crate::errorsx::{ChainedError, Errorsx, ErrorsxView, DEFAULT_STATUS_CODE};
use std::backtrace::Backtrace;
use vstd::prelude::*;

verus! {

/// One call on a builder, with its argument.
pub enum Step {
    Context(Seq<char>),
    Source(ChainedError),
    StatusCode(u32),
    Status(Seq<char>),
    Reason(Seq<char>),
    Debug(Seq<char>),
    RequestId(Seq<char>),
    Id(Seq<char>),
    Details(Map<Seq<char>, DetailValueView>),
}

/// The view after one step.
pub open spec fn apply(view: ErrorsxView, step: Step) -> ErrorsxView {
    match step {
        Step::Context(text) => view.with_context(text),
        Step::Source(source) => view.with_source(source),
        Step::StatusCode(code) => view.with_status_code(code),
        Step::Status(text) => view.with_status(text),
        Step::Reason(text) => view.with_reason(text),
        Step::Debug(text) => view.with_debug(text),
        Step::RequestId(text) => view.with_request_id(text),
        Step::Id(text) => view.with_id(text),
        Step::Details(details) => view.with_details(details),
    }
}

/// The view after the steps of `steps`, taken in order.
pub open spec fn apply_all(view: ErrorsxView, steps: Seq<Step>) -> ErrorsxView
    decreases steps.len(),
{
    if steps.len() == 0 {
        view
    } else {
        apply(apply_all(view, steps.drop_last()), steps.last())
    }
}

/// The texts of the context steps among `steps`, in order.
pub open spec fn context_steps(steps: Seq<Step>) -> Seq<Seq<char>>
    decreases steps.len(),
{
    if steps.len() == 0 {
        Seq::empty()
    } else {
        match steps.last() {
            Step::Context(text) => context_steps(steps.drop_last()).push(text),
            _ => context_steps(steps.drop_last()),
        }
    }
}

/// The message and the capture site are those that the builder was started
/// with, whatever steps follow.
pub proof fn lemma_message_and_location_stay(
    message: Seq<char>,
    location: LocationView,
    steps: Seq<Step>,
)
    ensures
        apply_all(ErrorsxView::fresh(message, location), steps).message == message,
        apply_all(ErrorsxView::fresh(message, location), steps).location == location,
    decreases steps.len(),
{
    if steps.len() > 0 {
        lemma_message_and_location_stay(message, location, steps.drop_last());
    }
}

/// The context trail grows at its end, by the context steps in the order in
/// which they were taken; no other step touches it.
pub proof fn lemma_context_keeps_order(view: ErrorsxView, steps: Seq<Step>)
    ensures
        apply_all(view, steps).context == view.context + context_steps(steps),
    decreases steps.len(),
{
    if steps.len() == 0 {
        assert(view.context + context_steps(steps) =~= view.context);
    } else {
        lemma_context_keeps_order(view, steps.drop_last());
        assert(apply_all(view, steps).context =~= view.context + context_steps(steps));
    }
}

/// Two context entries added to a fresh builder make a trail of exactly
/// these two, the first one first.
pub proof fn lemma_two_contexts(
    message: Seq<char>,
    location: LocationView,
    first: Seq<char>,
    second: Seq<char>,
)
    ensures
        ErrorsxView::fresh(message, location).with_context(first).with_context(second).context
            == seq![first, second],
{
    assert(Seq::<Seq<char>>::empty().push(first).push(second) =~= seq![first, second]);
}

/// A value made without a status-code step reports the default, 500.
pub proof fn lemma_default_status_code(message: Seq<char>, location: LocationView, steps: Seq<Step>)
    requires
        forall|i: int| 0 <= i < steps.len() ==> !(steps[i] is StatusCode),
    ensures
        apply_all(ErrorsxView::fresh(message, location), steps).status_code is None,
        apply_all(ErrorsxView::fresh(message, location), steps).effective_status_code()
            == DEFAULT_STATUS_CODE,
        DEFAULT_STATUS_CODE == 500,
    decreases steps.len(),
{
    if steps.len() > 0 {
        lemma_default_status_code(message, location, steps.drop_last());
    }
}

/// A status code that was set is the one reported, whatever was set before
/// and whatever steps of another kind follow.
pub proof fn lemma_status_code_override(view: ErrorsxView, code: u32, steps: Seq<Step>)
    requires
        forall|i: int| 0 <= i < steps.len() ==> !(steps[i] is StatusCode),
    ensures
        apply_all(view.with_status_code(code), steps).effective_status_code() == code,
    decreases steps.len(),
{
    if steps.len() > 0 {
        lemma_status_code_override(view, code, steps.drop_last());
    }
}

/// The cause that was set last is the one held, whatever was set before and
/// whatever steps of another kind follow.
pub proof fn lemma_source_is_kept(view: ErrorsxView, source: ChainedError, steps: Seq<Step>)
    requires
        forall|i: int| 0 <= i < steps.len() ==> !(steps[i] is Source),
    ensures
        apply_all(view.with_source(source), steps).source == Some(source),
    decreases steps.len(),
{
    if steps.len() > 0 {
        lemma_source_is_kept(view, source, steps.drop_last());
    }
}

/// An optional text is absent unless a step set it: without a step for the
/// status text, the reason, the debug text, the request id or the id, that
/// field is `None`. The same holds of the cause and of the details map.
pub proof fn lemma_unset_fields_are_absent(
    message: Seq<char>,
    location: LocationView,
    steps: Seq<Step>,
)
    ensures
        ({
            let built = apply_all(ErrorsxView::fresh(message, location), steps);
            &&& (forall|i: int| 0 <= i < steps.len() ==> !(steps[i] is Status))
                ==> built.status is None
            &&& (forall|i: int| 0 <= i < steps.len() ==> !(steps[i] is Reason))
                ==> built.reason is None
            &&& (forall|i: int| 0 <= i < steps.len() ==> !(steps[i] is Debug))
                ==> built.debug is None
            &&& (forall|i: int| 0 <= i < steps.len() ==> !(steps[i] is RequestId))
                ==> built.request_id is None
            &&& (forall|i: int| 0 <= i < steps.len() ==> !(steps[i] is Id)) ==> built.id is None
            &&& (forall|i: int| 0 <= i < steps.len() ==> !(steps[i] is Source))
                ==> built.source is None
            &&& (forall|i: int| 0 <= i < steps.len() ==> !(steps[i] is Details))
                ==> built.details is None
        }),
    decreases steps.len(),
{
    if steps.len() > 0 {
        lemma_unset_fields_are_absent(message, location, steps.drop_last());
        let earlier = steps.drop_last();
        assert(forall|i: int| 0 <= i < earlier.len() ==> earlier[i] == steps[i]);
    }
}

/// A text that was set to the empty string is present and empty, which is
/// not the same as absent.
pub proof fn lemma_empty_is_not_absent(view: ErrorsxView)
    ensures
        view.with_status(Seq::empty()).status == Some(Seq::<char>::empty()),
        view.with_reason(Seq::empty()).reason == Some(Seq::<char>::empty()),
        view.with_debug(Seq::empty()).debug == Some(Seq::<char>::empty()),
        view.with_request_id(Seq::empty()).request_id == Some(Seq::<char>::empty()),
        view.with_id(Seq::empty()).id == Some(Seq::<char>::empty()),
{
}

/// An error without a cause is its own root cause.
pub proof fn lemma_root_without_cause(error: ChainedError)
    requires
        error.cause() is None,
    ensures
        error.root() == error,
{
}

/// The root cause of an error with a cause is the root cause of that cause.
pub proof fn lemma_root_through_cause(error: ChainedError, cause: ChainedError)
    requires
        error.cause() == Some(cause),
    ensures
        error.root() == cause.root(),
        error.depth() == cause.depth() + 1,
{
}

/// The root cause is the end of the chain: it lies `depth` links down, it
/// has no cause, and every error before it has one.
pub proof fn lemma_root_ends_chain(error: ChainedError)
    ensures
        error.nth_cause(error.depth()) == Some(error.root()),
        error.root().cause() is None,
        forall|steps: nat|
            steps < error.depth() ==> (#[trigger] error.nth_cause(steps)) is Some
                && error.nth_cause(steps).unwrap().cause() is Some,
    decreases error.depth(),
{
    match error.cause() {
        Some(next) => {
            lemma_root_ends_chain(next);
            assert(error.nth_cause(error.depth()) == next.nth_cause(next.depth()));
            assert forall|steps: nat| steps < error.depth() implies (#[trigger] error.nth_cause(
                steps,
            )) is Some && error.nth_cause(steps).unwrap().cause() is Some by {
                if steps > 0 {
                    assert(error.nth_cause(steps) == next.nth_cause((steps - 1) as nat));
                }
            }
        },
        None => {},
    }
}

/// Where some number of links down from `error` lies an error without a
/// cause, that error is the root cause of `error`. For a chain of three, the
/// root cause of the first is the third.
pub proof fn lemma_root_of_chain(error: ChainedError, links: nat, end: ChainedError)
    requires
        error.nth_cause(links) == Some(end),
        end.cause() is None,
    ensures
        error.root() == end,
        error.depth() == links,
    decreases links,
{
    if links > 0 {
        lemma_root_of_chain(error.cause().unwrap(), (links - 1) as nat, end);
    }
}

/// What the accessors of an enriched error return on one reading.
pub struct Reading {
    pub message: Seq<char>,
    pub context: Seq<Seq<char>>,
    pub location: LocationView,
    pub backtrace: Backtrace,
    pub source: Option<ChainedError>,
    pub status_code: u32,
    pub status: Option<Seq<char>>,
    pub reason: Option<Seq<char>>,
    pub debug: Option<Seq<char>>,
    pub request_id: Option<Seq<char>>,
    pub id: Option<Seq<char>>,
    pub details: Option<Map<Seq<char>, DetailValueView>>,
}

/// Whether `reading` is what the accessors may return on `error`: each
/// field meets what the accessor of that name ensures.
pub open spec fn reads_as(error: Errorsx, reading: Reading) -> bool {
    &&& reading.message == error@.message
    &&& reading.context == error@.context
    &&& reading.location == error@.location
    &&& reading.backtrace == error.snapshot()
    &&& reading.source == error@.source
    &&& reading.status_code == error@.effective_status_code()
    &&& reading.status == error@.status
    &&& reading.reason == error@.reason
    &&& reading.debug == error@.debug
    &&& reading.request_id == error@.request_id
    &&& reading.id == error@.id
    &&& reading.details == error@.details
}

/// Reading is repeatable: two readings of one error agree in every field.
pub proof fn lemma_reading_is_repeatable(error: Errorsx, first: Reading, second: Reading)
    requires
        reads_as(error, first),
        reads_as(error, second),
    ensures
        first == second,
{
}

/// A value stored under a key is read back by the reader of its kind, and
/// reads as absent by the readers of every other kind; the other keys read
/// as before.
pub proof fn lemma_details_round_trip(
    map: Map<Seq<char>, DetailValueView>,
    key: Seq<char>,
    value: DetailValueView,
)
    ensures
        flag_at(map.insert(key, value), key) == match value {
            DetailValueView::Flag(b) => Some(b),
            _ => None,
        },
        signed_at(map.insert(key, value), key) == match value {
            DetailValueView::Signed(n) => Some(n),
            _ => None,
        },
        unsigned_at(map.insert(key, value), key) == match value {
            DetailValueView::Unsigned(n) => Some(n),
            _ => None,
        },
        text_at(map.insert(key, value), key) == match value {
            DetailValueView::Text(t) => Some(t),
            _ => None,
        },
        forall|other: Seq<char>|
            other != key ==> {
                &&& flag_at(map.insert(key, value), other) == flag_at(map, other)
                &&& signed_at(map.insert(key, value), other) == signed_at(map, other)
                &&& unsigned_at(map.insert(key, value), other) == unsigned_at(map, other)
                &&& text_at(map.insert(key, value), other) == text_at(map, other)
            },
{
}

/// A key that was never stored reads as absent, with every reader.
pub proof fn lemma_missing_key_is_absent(key: Seq<char>)
    ensures
        flag_at(Map::empty(), key) is None,
        signed_at(Map::empty(), key) is None,
        unsigned_at(Map::empty(), key) is None,
        text_at(Map::empty(), key) is None,
{
}

} // verus!
