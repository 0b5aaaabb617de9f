//! The textual rendering of an enriched error.
//!
//! The layout is the labelled one: a `Location:` line with the capture site,
//! a `Context:` line with the context trail joined by commas, and a
//! `Source:` block with the stack snapshot. The message and the
//! classification fields are not part of it.

use crate::errorsx::location::{location_text, Location, LocationView};
use crate::errorsx::texts_of;
use vstd::prelude::*;

verus! {

/// The texts of `parts` in order, with `separator` between each two.
pub open spec fn joined(parts: Seq<Seq<char>>, separator: Seq<char>) -> Seq<char>
    decreases parts.len(),
{
    if parts.len() == 0 {
        Seq::empty()
    } else if parts.len() == 1 {
        parts[0]
    } else {
        joined(parts.drop_last(), separator) + separator + parts.last()
    }
}

/// The rendering of an error made at `location`, with the context trail
/// `context` and a stack snapshot whose own rendering is `trace`.
pub open spec fn display_text(
    location: LocationView,
    context: Seq<Seq<char>>,
    trace: Seq<char>,
) -> Seq<char> {
    "Location: "@ + location_text(location) + ",\nContext: "@ + joined(context, ","@)
        + "\nSource:\n "@ + trace
}

/// Joins `parts` with `separator` between each two.
pub fn join(parts: &Vec<String>, separator: &str) -> (text: String)
    ensures
        text@ == joined(texts_of(parts@), separator@),
{
    let ghost all = texts_of(parts@);
    let mut text: String = String::new();
    let mut i: usize = 0;
    while i < parts.len()
        invariant
            i <= parts.len(),
            all == texts_of(parts@),
            text@ == joined(all.take(i as int), separator@),
        decreases parts.len() - i,
    {
        if i > 0 {
            text.append(separator);
        }
        text.append(parts[i].as_str());
        proof {
            let next = all.take(i + 1);
            assert(next.drop_last() =~= all.take(i as int));
            assert(next.last() == parts[i as int]@);
            if i == 0 {
                assert(text@ =~= next[0]);
            }
        }
        i += 1;
    }
    assert(all.take(i as int) =~= all);
    text
}

/// Lays out the rendering of an error from its capture site, its context
/// trail and the rendering of its stack snapshot.
pub fn layout(location: &Location, context: &Vec<String>, trace: &str) -> (text: String)
    ensures
        text@ == display_text(location@, texts_of(context@), trace@),
{
    let mut text: String = String::from_str("Location: ");
    let place: String = location.describe();
    text.append(place.as_str());
    text.append(",\nContext: ");
    let trail: String = join(context, ",");
    text.append(trail.as_str());
    text.append("\nSource:\n ");
    text.append(trace);
    text
}

} // verus!
