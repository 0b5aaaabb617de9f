//! Enriched error values: a message with its capture site, a stack snapshot,
//! a context trail, an optional cause and optional classification fields.
//!
//! An `Errorsx` is made by an `ErrorsxBuilder` and is read-only afterwards.
//! Its cause is a `ChainedError`: either another enriched error or a plain
//! one, which holds the text of a failure of any other kind.

pub mod capability;
pub mod decimal;
pub mod details;
pub mod laws;
pub mod location;
pub mod render;
pub mod trace;

use crate::errorsx::details::{DetailValueView, Details};
use crate::errorsx::location::{Location, LocationView};
use crate::errorsx::render::{display_text, layout};
use crate::errorsx::trace::trace_text;
use std::backtrace::Backtrace;
use vstd::prelude::*;

verus! {

/// The status code that a value reports where none was set.
pub const DEFAULT_STATUS_CODE: u32 = 500;

/// The text of an optional string.
pub open spec fn opt_text(text: Option<String>) -> Option<Seq<char>> {
    match text {
        Some(t) => Some(t@),
        None => None,
    }
}

/// The contents of an optional details map.
pub open spec fn opt_details(details: Option<Details>) -> Option<Map<Seq<char>, DetailValueView>> {
    match details {
        Some(d) => Some(d@),
        None => None,
    }
}

/// The texts of a sequence of strings, in the same order.
pub open spec fn texts_of(strings: Seq<String>) -> Seq<Seq<char>> {
    Seq::new(strings.len(), |i: int| strings[i]@)
}

/// What an enriched error, or the builder of one, holds: everything but the
/// stack snapshot.
pub struct ErrorsxView {
    pub message: Seq<char>,
    pub location: LocationView,
    pub context: Seq<Seq<char>>,
    pub source: Option<ChainedError>,
    pub status_code: Option<u32>,
    pub status: Option<Seq<char>>,
    pub reason: Option<Seq<char>>,
    pub debug: Option<Seq<char>>,
    pub request_id: Option<Seq<char>>,
    pub id: Option<Seq<char>>,
    pub details: Option<Map<Seq<char>, DetailValueView>>,
}

impl ErrorsxView {
    /// A value with a message and a capture site and nothing else: an empty
    /// context trail, no cause, every optional field absent.
    pub open spec fn fresh(message: Seq<char>, location: LocationView) -> ErrorsxView {
        ErrorsxView {
            message,
            location,
            context: Seq::empty(),
            source: None,
            status_code: None,
            status: None,
            reason: None,
            debug: None,
            request_id: None,
            id: None,
            details: None,
        }
    }

    /// One more entry at the end of the context trail.
    pub open spec fn with_context(self, text: Seq<char>) -> ErrorsxView {
        ErrorsxView { context: self.context.push(text), ..self }
    }

    /// The cause set to `source`, in place of any earlier one.
    pub open spec fn with_source(self, source: ChainedError) -> ErrorsxView {
        ErrorsxView { source: Some(source), ..self }
    }

    /// The status code set to `code`.
    pub open spec fn with_status_code(self, code: u32) -> ErrorsxView {
        ErrorsxView { status_code: Some(code), ..self }
    }

    /// The status text set to `text`.
    pub open spec fn with_status(self, text: Seq<char>) -> ErrorsxView {
        ErrorsxView { status: Some(text), ..self }
    }

    /// The reason set to `text`.
    pub open spec fn with_reason(self, text: Seq<char>) -> ErrorsxView {
        ErrorsxView { reason: Some(text), ..self }
    }

    /// The debug text set to `text`.
    pub open spec fn with_debug(self, text: Seq<char>) -> ErrorsxView {
        ErrorsxView { debug: Some(text), ..self }
    }

    /// The request id set to `text`.
    pub open spec fn with_request_id(self, text: Seq<char>) -> ErrorsxView {
        ErrorsxView { request_id: Some(text), ..self }
    }

    /// The id set to `text`.
    pub open spec fn with_id(self, text: Seq<char>) -> ErrorsxView {
        ErrorsxView { id: Some(text), ..self }
    }

    /// The details map set to `details`.
    pub open spec fn with_details(self, details: Map<Seq<char>, DetailValueView>) -> ErrorsxView {
        ErrorsxView { details: Some(details), ..self }
    }

    /// The status code that readers see: the one that was set, or the
    /// default where none was.
    pub open spec fn effective_status_code(self) -> u32 {
        match self.status_code {
            Some(code) => code,
            None => DEFAULT_STATUS_CODE,
        }
    }
}

/// An error enriched with a capture site, a stack snapshot, a context trail,
/// an optional cause and optional classification fields. It has no setter:
/// every field keeps the value that the builder gave it.
#[derive(Debug)]
pub struct Errorsx {
    message: String,
    backtrace: Backtrace,
    location: Location,
    context: Vec<String>,
    source: Option<Box<ChainedError>>,
    status_code: Option<u32>,
    status: Option<String>,
    reason: Option<String>,
    debug: Option<String>,
    request_id: Option<String>,
    id: Option<String>,
    details: Option<Details>,
}

/// The single-use accumulator that makes an `Errorsx`.
#[derive(Debug)]
pub struct ErrorsxBuilder {
    message: String,
    context: Vec<String>,
    location: Location,
    source: Option<Box<ChainedError>>,
    status_code: Option<u32>,
    status: Option<String>,
    reason: Option<String>,
    debug: Option<String>,
    request_id: Option<String>,
    id: Option<String>,
    details: Option<Details>,
}

/// An error of another kind than `Errorsx`, as a cause chain holds it: the
/// text that describes it and, where it has one, its own cause.
#[derive(Debug)]
pub struct PlainError {
    message: String,
    source: Option<Box<ChainedError>>,
}

/// Any error that can stand in a cause chain.
#[derive(Debug)]
pub enum ChainedError {
    Enriched(Errorsx),
    Plain(PlainError),
}

/// The error that an owned link of a cause chain leads to.
pub open spec fn unboxed(link: Option<Box<ChainedError>>) -> Option<ChainedError> {
    match link {
        Some(next) => Some(*next),
        None => None,
    }
}

impl View for Errorsx {
    type V = ErrorsxView;

    closed spec fn view(&self) -> ErrorsxView {
        ErrorsxView {
            message: self.message@,
            location: self.location@,
            context: texts_of(self.context@),
            source: unboxed(self.source),
            status_code: self.status_code,
            status: opt_text(self.status),
            reason: opt_text(self.reason),
            debug: opt_text(self.debug),
            request_id: opt_text(self.request_id),
            id: opt_text(self.id),
            details: opt_details(self.details),
        }
    }
}

impl View for ErrorsxBuilder {
    type V = ErrorsxView;

    closed spec fn view(&self) -> ErrorsxView {
        ErrorsxView {
            message: self.message@,
            location: self.location@,
            context: texts_of(self.context@),
            source: unboxed(self.source),
            status_code: self.status_code,
            status: opt_text(self.status),
            reason: opt_text(self.reason),
            debug: opt_text(self.debug),
            request_id: opt_text(self.request_id),
            id: opt_text(self.id),
            details: opt_details(self.details),
        }
    }
}

impl ErrorsxBuilder {
    /// Starts a builder with the given message, made at the place
    /// `location`.
    pub fn new(message: &str, location: Location) -> (builder: ErrorsxBuilder)
        ensures
            builder@ == ErrorsxView::fresh(message@, location@),
    {
        let builder = ErrorsxBuilder {
            message: String::from_str(message),
            context: Vec::new(),
            location,
            source: None,
            status_code: None,
            status: None,
            reason: None,
            debug: None,
            request_id: None,
            id: None,
            details: None,
        };
        assert(builder@.context =~= Seq::<Seq<char>>::empty());
        builder
    }

    /// Adds one entry at the end of the context trail.
    pub fn with_context(self, context: &str) -> (builder: ErrorsxBuilder)
        ensures
            builder@ == self@.with_context(context@),
    {
        let mut builder = self;
        builder.context.push(String::from_str(context));
        assert(texts_of(builder.context@) =~= texts_of(self.context@).push(context@));
        builder
    }

    /// Sets the error that caused this one, in place of any earlier one.
    pub fn with_source(self, source: ChainedError) -> (builder: ErrorsxBuilder)
        ensures
            builder@ == self@.with_source(source),
    {
        let mut builder = self;
        builder.source = Some(Box::new(source));
        builder
    }

    /// Sets the status code.
    pub fn with_status_code(self, status_code: u32) -> (builder: ErrorsxBuilder)
        ensures
            builder@ == self@.with_status_code(status_code),
    {
        let mut builder = self;
        builder.status_code = Some(status_code);
        builder
    }

    /// Sets the status text.
    pub fn with_status(self, status: &str) -> (builder: ErrorsxBuilder)
        ensures
            builder@ == self@.with_status(status@),
    {
        let mut builder = self;
        builder.status = Some(String::from_str(status));
        builder
    }

    /// Sets the reason.
    pub fn with_reason(self, reason: &str) -> (builder: ErrorsxBuilder)
        ensures
            builder@ == self@.with_reason(reason@),
    {
        let mut builder = self;
        builder.reason = Some(String::from_str(reason));
        builder
    }

    /// Sets the debug text.
    pub fn with_debug(self, debug: &str) -> (builder: ErrorsxBuilder)
        ensures
            builder@ == self@.with_debug(debug@),
    {
        let mut builder = self;
        builder.debug = Some(String::from_str(debug));
        builder
    }

    /// Sets the request id.
    pub fn with_request_id(self, request_id: &str) -> (builder: ErrorsxBuilder)
        ensures
            builder@ == self@.with_request_id(request_id@),
    {
        let mut builder = self;
        builder.request_id = Some(String::from_str(request_id));
        builder
    }

    /// Sets the id.
    pub fn with_id(self, id: &str) -> (builder: ErrorsxBuilder)
        ensures
            builder@ == self@.with_id(id@),
    {
        let mut builder = self;
        builder.id = Some(String::from_str(id));
        builder
    }

    /// Sets the details map.
    pub fn with_details(self, details: Details) -> (builder: ErrorsxBuilder)
        ensures
            builder@ == self@.with_details(details@),
    {
        let mut builder = self;
        builder.details = Some(details);
        builder
    }

    /// Finishes the error: takes the stack snapshot, at this moment, and
    /// hands every field over as it stands.
    pub fn build(self) -> (error: Errorsx)
        ensures
            error@ == self@,
    {
        Errorsx {
            message: self.message,
            context: self.context,
            location: self.location,
            backtrace: Backtrace::force_capture(),
            source: self.source,
            status_code: self.status_code,
            status: self.status,
            reason: self.reason,
            debug: self.debug,
            request_id: self.request_id,
            id: self.id,
            details: self.details,
        }
    }
}

impl Errorsx {
    /// The stack snapshot that this error carries.
    pub closed spec fn snapshot(&self) -> Backtrace {
        self.backtrace
    }

    /// An error with just a message, made at the place `location`.
    pub fn new(message: &str, location: Location) -> (error: Errorsx)
        ensures
            error@ == ErrorsxView::fresh(message@, location@),
    {
        ErrorsxBuilder::new(message, location).build()
    }

    /// A builder for an error with the given message, made at the place
    /// `location`.
    pub fn builder(message: &str, location: Location) -> (builder: ErrorsxBuilder)
        ensures
            builder@ == ErrorsxView::fresh(message@, location@),
    {
        ErrorsxBuilder::new(message, location)
    }

    /// The message.
    pub fn message(&self) -> (message: &str)
        ensures
            message@ == self@.message,
    {
        self.message.as_str()
    }

    /// The context trail, oldest entry first.
    pub fn context(&self) -> (context: &Vec<String>)
        ensures
            texts_of(context@) == self@.context,
            context@.len() == self@.context.len(),
    {
        &self.context
    }

    /// The place where the error was made.
    pub fn location(&self) -> (location: &Location)
        ensures
            location@ == self@.location,
    {
        &self.location
    }

    /// The stack snapshot taken when the error was built.
    pub fn backtrace(&self) -> (backtrace: &Backtrace)
        ensures
            *backtrace == self.snapshot(),
    {
        &self.backtrace
    }

    /// The error that caused this one, if there is one.
    pub fn source(&self) -> (source: Option<&ChainedError>)
        ensures
            match source {
                Some(cause) => self@.source == Some(*cause),
                None => self@.source is None,
            },
    {
        match &self.source {
            Some(cause) => Some(&**cause),
            None => None,
        }
    }

    /// The status code: the one that was set, or 500 where none was.
    pub fn status_code(&self) -> (status_code: u32)
        ensures
            status_code == self@.effective_status_code(),
    {
        match self.status_code {
            Some(code) => code,
            None => DEFAULT_STATUS_CODE,
        }
    }

    /// The status text, if one was set.
    pub fn status(&self) -> (status: &Option<String>)
        ensures
            opt_text(*status) == self@.status,
    {
        &self.status
    }

    /// The reason, if one was set.
    pub fn reason(&self) -> (reason: &Option<String>)
        ensures
            opt_text(*reason) == self@.reason,
    {
        &self.reason
    }

    /// The debug text, if one was set.
    pub fn debug(&self) -> (debug: &Option<String>)
        ensures
            opt_text(*debug) == self@.debug,
    {
        &self.debug
    }

    /// The request id, if one was set.
    pub fn request_id(&self) -> (request_id: &Option<String>)
        ensures
            opt_text(*request_id) == self@.request_id,
    {
        &self.request_id
    }

    /// The id, if one was set.
    pub fn id(&self) -> (id: &Option<String>)
        ensures
            opt_text(*id) == self@.id,
    {
        &self.id
    }

    /// The details map, if one was set.
    pub fn details(&self) -> (details: &Option<Details>)
        ensures
            opt_details(*details) == self@.details,
    {
        &self.details
    }

    /// The rendering of the error for logs and diagnostics: the capture
    /// site, the context trail joined by commas, and the stack snapshot in
    /// the standard library's pretty debug format.
    pub fn render(&self) -> (text: String)
        ensures
            exists|trace: Seq<char>|
                text@ == #[trigger] display_text(self@.location, self@.context, trace),
    {
        let trace: String = trace_text(&self.backtrace);
        let text: String = layout(&self.location, &self.context, trace.as_str());
        assert(text@ == display_text(self@.location, self@.context, trace@));
        text
    }
}

/// What a `PlainError` holds.
pub struct PlainErrorView {
    pub message: Seq<char>,
    pub source: Option<ChainedError>,
}

impl View for PlainError {
    type V = PlainErrorView;

    closed spec fn view(&self) -> PlainErrorView {
        PlainErrorView { message: self.message@, source: unboxed(self.source) }
    }
}

impl PlainError {
    /// A plain error with the given text and no cause.
    pub fn new(message: &str) -> (error: PlainError)
        ensures
            error@ == (PlainErrorView { message: message@, source: None }),
    {
        PlainError { message: String::from_str(message), source: None }
    }

    /// Sets the error that caused this one, in place of any earlier one.
    pub fn with_source(self, source: ChainedError) -> (error: PlainError)
        ensures
            error@ == (PlainErrorView { message: self@.message, source: Some(source) }),
    {
        PlainError { message: self.message, source: Some(Box::new(source)) }
    }

    /// The text that describes the error.
    pub fn message(&self) -> (message: &str)
        ensures
            message@ == self@.message,
    {
        self.message.as_str()
    }

    /// The error that caused this one, if there is one.
    pub fn source(&self) -> (source: Option<&ChainedError>)
        ensures
            match source {
                Some(cause) => self@.source == Some(*cause),
                None => self@.source is None,
            },
    {
        match &self.source {
            Some(cause) => Some(&**cause),
            None => None,
        }
    }
}

impl ChainedError {
    /// The text that describes the error.
    pub open spec fn text(self) -> Seq<char> {
        match self {
            ChainedError::Enriched(error) => error@.message,
            ChainedError::Plain(error) => error@.message,
        }
    }

    /// The next error of the chain: the one that caused this one.
    pub open spec fn cause(self) -> Option<ChainedError> {
        match self {
            ChainedError::Enriched(error) => error@.source,
            ChainedError::Plain(error) => error@.source,
        }
    }

    /// The number of links from this error down to the end of its chain.
    pub open spec fn depth(self) -> nat
        decreases self,
    {
        match self.cause() {
            Some(next) => next.depth() + 1,
            None => 0,
        }
    }

    /// The error that `steps` links down the chain lead to, if the chain is
    /// that long.
    pub open spec fn nth_cause(self, steps: nat) -> Option<ChainedError>
        decreases steps,
    {
        if steps == 0 {
            Some(self)
        } else {
            match self.cause() {
                Some(next) => next.nth_cause((steps - 1) as nat),
                None => None,
            }
        }
    }

    /// The deepest error of the chain: the one reached by following the
    /// causes until an error has none. It is this error itself where this
    /// one has no cause.
    pub open spec fn root(self) -> ChainedError
        decreases self,
    {
        match self.cause() {
            Some(next) => next.root(),
            None => self,
        }
    }

    /// The text that describes the error.
    pub fn message(&self) -> (message: &str)
        ensures
            message@ == self.text(),
    {
        match self {
            ChainedError::Enriched(error) => error.message(),
            ChainedError::Plain(error) => error.message(),
        }
    }

    /// The error that caused this one, if there is one.
    pub fn source(&self) -> (source: Option<&ChainedError>)
        ensures
            match source {
                Some(cause) => self.cause() == Some(*cause),
                None => self.cause() is None,
            },
    {
        match self {
            ChainedError::Enriched(error) => error.source(),
            ChainedError::Plain(error) => error.source(),
        }
    }
}

/// Follows the causes of `error` down to the error that has none, and
/// returns that one; `error` itself where it has no cause.
pub fn root_cause(error: &ChainedError) -> (deepest: &ChainedError)
    ensures
        *deepest == error.root(),
{
    let mut current: &ChainedError = error;
    loop
        invariant
            current.root() == error.root(),
        decreases current.depth(),
    {
        match current.source() {
            Some(next) => {
                current = next;
            },
            None => {
                return current;
            },
        }
    }
}

} // verus!
