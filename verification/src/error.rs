//! A serialisable error value.
//!
//! Errors that cross the wire keep their display text, their debug text, the
//! alternate forms of both, and the chain of source errors, so that a client
//! can render them without holding the error type that produced them.

use vstd::prelude::*;

verus! {

/// An error flattened to its rendered forms plus its source chain.
#[derive(Debug, PartialEq, Eq)]
pub struct SerdeError {
    pub display: String,
    pub alt_display: String,
    pub debug: String,
    pub alt_debug: String,
    pub source: Option<Box<SerdeError>>,
}

/// The mathematical value of a `SerdeError`.
pub struct SerdeErrorView {
    pub display: Seq<char>,
    pub alt_display: Seq<char>,
    pub debug: Seq<char>,
    pub alt_debug: Seq<char>,
    pub source: Option<Box<SerdeErrorView>>,
}

/// The value of an error, source chain included.
pub open spec fn serde_error_view(e: SerdeError) -> SerdeErrorView
    decreases e,
{
    SerdeErrorView {
        display: e.display@,
        alt_display: e.alt_display@,
        debug: e.debug@,
        alt_debug: e.alt_debug@,
        source: match e.source {
            None => None,
            Some(b) => Some(Box::new(serde_error_view(*b))),
        },
    }
}

impl View for SerdeError {
    type V = SerdeErrorView;

    open spec fn view(&self) -> SerdeErrorView {
        serde_error_view(*self)
    }
}

impl Clone for SerdeError {
    fn clone(&self) -> (r: Self)
        ensures
            r@ == self@,
        decreases *self,
    {
        SerdeError {
            display: self.display.clone(),
            alt_display: self.alt_display.clone(),
            debug: self.debug.clone(),
            alt_debug: self.alt_debug.clone(),
            source: match &self.source {
                None => None,
                Some(b) => Some(Box::new((**b).clone())),
            },
        }
    }
}

impl SerdeError {
    /// Assembles an error from its rendered forms and an optional source.
    pub fn new(
        display: String,
        alt_display: String,
        debug: String,
        alt_debug: String,
        source: Option<Box<SerdeError>>,
    ) -> (r: Self)
        ensures
            r == (SerdeError { display, alt_display, debug, alt_debug, source }),
    {
        SerdeError { display, alt_display, debug, alt_debug, source }
    }

    /// An error whose four rendered forms are all the given message, with no
    /// source.
    pub fn from_message(message: String) -> (r: Self)
        ensures
            r.display == message,
            r.alt_display == message,
            r.debug == message,
            r.alt_debug == message,
            r.source is None,
    {
        SerdeError {
            display: message.clone(),
            alt_display: message.clone(),
            debug: message.clone(),
            alt_debug: message,
            source: None,
        }
    }

    /// The display text.
    pub fn message(&self) -> (r: &String)
        ensures
            r == &self.display,
    {
        &self.display
    }
}

} // verus!
