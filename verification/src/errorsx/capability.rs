//! The capabilities of an error value: one trait for each piece of metadata
//! that a value can report. A type implements those that it carries, and
//! code that presents errors asks for whichever it needs.
//!
//! What is reported where nothing was set differs by field. The status code
//! falls back to a constant. A text is reported as absent, which is not the
//! empty text: a text that was set to the empty string is reported as
//! present and empty.

use crate::errorsx::details::{DetailValueView, Details};
use crate::errorsx::{opt_details, opt_text, Errorsx, DEFAULT_STATUS_CODE};
use vstd::prelude::*;

verus! {

/// A value that reports a status code.
pub trait HasStatusCode {
    /// The status code that was set, if one was.
    spec fn stored_status_code(&self) -> Option<u32>;

    /// The status code: the one that was set, or 500 where none was.
    fn status_code(&self) -> (status_code: u32)
        ensures
            status_code == match self.stored_status_code() {
                Some(code) => code,
                None => DEFAULT_STATUS_CODE,
            },
    ;
}

/// A value that reports a status text.
pub trait HasStatus {
    /// The status text that was set, if one was.
    spec fn stored_status(&self) -> Option<Seq<char>>;

    /// The status text, or `None` where none was set.
    fn status(&self) -> (status: &Option<String>)
        ensures
            opt_text(*status) == self.stored_status(),
    ;
}

/// A value that reports a reason.
pub trait HasReason {
    /// The reason that was set, if one was.
    spec fn stored_reason(&self) -> Option<Seq<char>>;

    /// The reason, or `None` where none was set.
    fn reason(&self) -> (reason: &Option<String>)
        ensures
            opt_text(*reason) == self.stored_reason(),
    ;
}

/// A value that reports a debug text.
pub trait HasDebug {
    /// The debug text that was set, if one was.
    spec fn stored_debug(&self) -> Option<Seq<char>>;

    /// The debug text, or `None` where none was set.
    fn debug(&self) -> (debug: &Option<String>)
        ensures
            opt_text(*debug) == self.stored_debug(),
    ;
}

/// A value that reports a request id.
pub trait HasRequestId {
    /// The request id that was set, if one was.
    spec fn stored_request_id(&self) -> Option<Seq<char>>;

    /// The request id, or `None` where none was set.
    fn request_id(&self) -> (request_id: &Option<String>)
        ensures
            opt_text(*request_id) == self.stored_request_id(),
    ;
}

/// A value that reports a id.
pub trait HasId {
    /// The id that was set, if one was.
    spec fn stored_id(&self) -> Option<Seq<char>>;

    /// The id, or `None` where none was set.
    fn id(&self) -> (id: &Option<String>)
        ensures
            opt_text(*id) == self.stored_id(),
    ;
}

/// A value that reports a details map.
pub trait HasDetails {
    /// The details map that was set, if one was.
    spec fn stored_details(&self) -> Option<Map<Seq<char>, DetailValueView>>;

    /// The details map, or `None` where none was set.
    fn details(&self) -> (details: &Option<Details>)
        ensures
            opt_details(*details) == self.stored_details(),
    ;
}

impl HasStatusCode for Errorsx {
    open spec fn stored_status_code(&self) -> Option<u32> {
        self@.status_code
    }

    fn status_code(&self) -> (status_code: u32) {
        Errorsx::status_code(self)
    }
}

impl HasStatus for Errorsx {
    open spec fn stored_status(&self) -> Option<Seq<char>> {
        self@.status
    }

    fn status(&self) -> (status: &Option<String>) {
        Errorsx::status(self)
    }
}

impl HasReason for Errorsx {
    open spec fn stored_reason(&self) -> Option<Seq<char>> {
        self@.reason
    }

    fn reason(&self) -> (reason: &Option<String>) {
        Errorsx::reason(self)
    }
}

impl HasDebug for Errorsx {
    open spec fn stored_debug(&self) -> Option<Seq<char>> {
        self@.debug
    }

    fn debug(&self) -> (debug: &Option<String>) {
        Errorsx::debug(self)
    }
}

impl HasRequestId for Errorsx {
    open spec fn stored_request_id(&self) -> Option<Seq<char>> {
        self@.request_id
    }

    fn request_id(&self) -> (request_id: &Option<String>) {
        Errorsx::request_id(self)
    }
}

impl HasId for Errorsx {
    open spec fn stored_id(&self) -> Option<Seq<char>> {
        self@.id
    }

    fn id(&self) -> (id: &Option<String>) {
        Errorsx::id(self)
    }
}

impl HasDetails for Errorsx {
    open spec fn stored_details(&self) -> Option<Map<Seq<char>, DetailValueView>> {
        self@.details
    }

    fn details(&self) -> (details: &Option<Details>) {
        Errorsx::details(self)
    }
}

} // verus!
