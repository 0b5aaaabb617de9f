//! The capture site of an error: a source file and a line in it.

use crate::errorsx::decimal::{decimal_text, to_decimal};
use vstd::prelude::*;

verus! {

/// A place in the source code: where an error value was made.
#[derive(Debug)]
pub struct Location {
    file: String,
    line: u32,
}

/// What a `Location` holds.
pub struct LocationView {
    pub file: Seq<char>,
    pub line: u32,
}

impl View for Location {
    type V = LocationView;

    closed spec fn view(&self) -> LocationView {
        LocationView { file: self.file@, line: self.line }
    }
}

/// The text by which a capture site is shown: the file and the line number
/// in decimal notation, in parentheses.
pub open spec fn location_text(at: LocationView) -> Seq<char> {
    "(at: "@ + at.file + ", line_no: "@ + decimal_text(at.line as nat) + ")"@
}

impl Location {
    /// The place at line `line` of the file `file`.
    pub fn new(file: &str, line: u32) -> (at: Location)
        ensures
            at@ == (LocationView { file: file@, line: line }),
    {
        Location { file: String::from_str(file), line }
    }

    /// The name of the source file.
    pub fn file(&self) -> (file: &str)
        ensures
            file@ == self@.file,
    {
        self.file.as_str()
    }

    /// The line number in that file.
    pub fn line(&self) -> (line: u32)
        ensures
            line == self@.line,
    {
        self.line
    }

    /// The text by which this place is shown, such as
    /// `(at: src/main.rs, line_no: 17)`.
    pub fn describe(&self) -> (text: String)
        ensures
            text@ == location_text(self@),
    {
        let mut text: String = String::from_str("(at: ");
        text.append(self.file.as_str());
        text.append(", line_no: ");
        let line_text: String = to_decimal(self.line);
        text.append(line_text.as_str());
        text.append(")");
        text
    }
}

} // verus!
