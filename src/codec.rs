use vstd::prelude::*;

use crate::event::{ClickEvent, EventKind, NavigationEvent};
use crate::payload::{number_field, Payload};

verus! {

/// Why a payload could not be read as an event of the expected kind.
#[derive(Clone, Copy, Debug, PartialEq, Eq)]
pub enum DecodeError {
    /// The payload is not an object.
    NotAnObject(EventKind),
    /// The object has no number under the named field.
    MissingNumber(EventKind, &'static str),
}

/// What decoding `p` as an event of `kind` gives.
pub open spec fn decode_spec(kind: EventKind, p: Payload) -> Result<NavigationEvent, DecodeError> {
    match kind {
        EventKind::Click => if !(p is Object) {
            Err(DecodeError::NotAnObject(kind))
        } else if number_field(p, "x"@) is None {
            Err(DecodeError::MissingNumber(kind, "x"))
        } else if number_field(p, "y"@) is None {
            Err(DecodeError::MissingNumber(kind, "y"))
        } else {
            Ok(
                NavigationEvent::Click(
                    ClickEvent { x: number_field(p, "x"@)->0, y: number_field(p, "y"@)->0 },
                ),
            )
        },
    }
}

/// Reads `p` as an event of `kind`. Never panics: a malformed payload gives
/// an error that names what was wrong.
pub fn decode(kind: EventKind, p: &Payload) -> (r: Result<NavigationEvent, DecodeError>)
    ensures
        r == decode_spec(kind, *p),
        r matches Ok(e) ==> crate::event::kind_of(e) == kind,
{
    match kind {
        EventKind::Click => {
            if !matches!(p, Payload::Object(_)) {
                return Err(DecodeError::NotAnObject(kind));
            }
            let x = match p.number("x") {
                Some(x) => x,
                None => return Err(DecodeError::MissingNumber(kind, "x")),
            };
            let y = match p.number("y") {
                Some(y) => y,
                None => return Err(DecodeError::MissingNumber(kind, "y")),
            };
            Ok(NavigationEvent::Click(ClickEvent { x, y }))
        },
    }
}

impl DecodeError {
    /// The kind the payload was meant to be.
    pub fn kind(&self) -> (r: EventKind)
        ensures
            r == match *self {
                DecodeError::NotAnObject(k) => k,
                DecodeError::MissingNumber(k, _) => k,
            },
    {
        match self {
            DecodeError::NotAnObject(k) => *k,
            DecodeError::MissingNumber(k, _) => *k,
        }
    }

    /// A human-readable cause.
    pub fn cause(&self) -> (r: &'static str)
        ensures
            *self is NotAnObject ==> r@ == "payload is not an object"@,
            *self is MissingNumber ==> r@ == "payload has no number in a required field"@,
    {
        match self {
            DecodeError::NotAnObject(_) => "payload is not an object",
            DecodeError::MissingNumber(_, _) => "payload has no number in a required field",
        }
    }

    /// The field that was missing or not a number, if the error is about one.
    pub fn field(&self) -> (r: Option<&'static str>)
        ensures
            r == match *self {
                DecodeError::NotAnObject(_) => None,
                DecodeError::MissingNumber(_, f) => Some(f),
            },
    {
        match self {
            DecodeError::NotAnObject(_) => None,
            DecodeError::MissingNumber(_, f) => Some(*f),
        }
    }
}

} // verus!
