//! Panic payloads and the text they carry.

use vstd::prelude::*;

verus! {

/// Text of a panic whose payload is neither kind of string.
pub const DEFAULT_MESSAGE: &'static str = "panic occurred";

/// What a caught panic carried, as far as its text goes: the payload of
/// `panic!("literal")`, the payload of a formatted `panic!`, or anything else.
pub enum PanicPayload {
    /// A `&'static str` payload.
    Static(&'static str),
    /// A `String` payload.
    Owned(String),
    /// A payload of another type.
    Other,
}

/// Panic error.
pub struct Panic(pub PanicPayload);

/// The text that a panic payload reads as.
pub open spec fn message_of(payload: PanicPayload) -> Seq<char> {
    match payload {
        PanicPayload::Static(text) => text@,
        PanicPayload::Owned(text) => text@,
        PanicPayload::Other => DEFAULT_MESSAGE@,
    }
}

impl Panic {
    /// The panic's text: the payload's string if it is one, else the default
    /// message.
    pub fn downcast_ref(&self) -> (r: &str)
        ensures
            r@ == message_of(self.0),
    {
        match &self.0 {
            PanicPayload::Static(text) => text,
            PanicPayload::Owned(text) => text.as_str(),
            PanicPayload::Other => DEFAULT_MESSAGE,
        }
    }

    /// Retrieves the panic payload.
    pub fn as_inner(&self) -> (r: &PanicPayload)
        ensures
            *r == self.0,
    {
        &self.0
    }

    /// Retrieves the panic payload.
    pub fn into_inner(self) -> (r: PanicPayload)
        ensures
            r == self.0,
    {
        self.0
    }
}

} // verus!
