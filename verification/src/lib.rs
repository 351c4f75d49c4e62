//! Archive pipeline for a chat bot that saves a server's custom image
//! assets ("emoji") to local storage.
//!
//! The verified core covers the run state machine (trigger detection,
//! asset enumeration, per-asset outcome tracking, completion signaling),
//! the path planner (name sanitization, extension derivation, path
//! composition) and the text formatting the pipeline relies on.
//! Network and filesystem access live outside this crate and hand the
//! core plain values.

pub mod errors;
pub mod model;
pub mod plan;
pub mod run;
pub mod text;

use vstd::prelude::*;

verus! {

/// Appends one character to a string.
///
/// Relies on `String::push`: appends the given `char` to the end of
/// the string.
#[verifier::external_body]
pub(crate) fn push_char(s: &mut String, c: char)
    ensures
        final(s)@ == old(s)@.push(c),
{
    s.push(c);
}

} // verus!
