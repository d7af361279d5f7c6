//! Error and result type for file transport
//!
//! A send either fully succeeds or fails with exactly one cause. The causes
//! form a closed taxonomy: an internal client error (a precondition violated
//! by the caller, terminal in the cause chain), an I/O failure from the
//! filesystem layer, or a JSON serialization failure from the encoder. The
//! latter two keep the original failure object unchanged as their payload, so
//! nothing is lost by wrapping.

use vstd::prelude::*;
use vstd::std_specs::convert::FromSpec;
use vstd::string::to_string_from_display_ensures;

verus! {

/// An enum of all error kinds.
#[derive(Debug)]
pub enum Error {
    /// Internal client error
    Client(&'static str),
    /// IO error
    Io(std::io::Error),
    /// JSON serialization error
    JsonSerialization(serde_json::Error),
}

/// A borrowed view of the lower-layer failure wrapped by an `Error`, for
/// walking the cause chain.
pub enum Cause<'a> {
    /// The wrapped I/O failure
    Io(&'a std::io::Error),
    /// The wrapped JSON serialization failure
    JsonSerialization(&'a serde_json::Error),
}

impl Error {
    /// Whether this error wraps a lower-layer failure. `Client` errors
    /// originate internally and are terminal in the cause chain.
    pub open spec fn has_cause(self) -> bool {
        !(self is Client)
    }

    /// The I/O failure this error wraps, if it is the `Io` variant.
    pub open spec fn io_payload(self) -> Option<std::io::Error> {
        match self {
            Error::Io(e) => Some(e),
            _ => None,
        }
    }

    /// The serialization failure this error wraps, if it is the
    /// `JsonSerialization` variant.
    pub open spec fn json_payload(self) -> Option<serde_json::Error> {
        match self {
            Error::JsonSerialization(e) => Some(e),
            _ => None,
        }
    }

    /// What a description of this error may be: the `Client` message verbatim,
    /// or whatever the wrapped failure's own `Display` implementation renders.
    pub open spec fn describes(self, r: String) -> bool {
        match self {
            Error::Client(msg) => r@ == msg@,
            Error::Io(e) => to_string_from_display_ensures::<std::io::Error>(&e, r),
            Error::JsonSerialization(e) => to_string_from_display_ensures::<serde_json::Error>(
                &e,
                r,
            ),
        }
    }

    /// A human-readable message: the `Client` message itself, or the wrapped
    /// failure's own description.
    pub fn description(&self) -> (r: String)
        ensures
            self.describes(r),
    {
        match self {
            Error::Client(msg) => String::from_str(*msg),
            Error::Io(e) => e.to_string(),
            Error::JsonSerialization(e) => e.to_string(),
        }
    }

    /// The wrapped lower-layer failure, if any, for chained inspection.
    /// `Client` errors have none.
    pub fn cause<'a>(&'a self) -> (r: Option<Cause<'a>>)
        ensures
            r is Some <==> self.has_cause(),
            (match r {
                Some(Cause::Io(c)) => self.io_payload() == Some(*c),
                Some(Cause::JsonSerialization(c)) => self.json_payload() == Some(*c),
                None => !self.has_cause(),
            }),
    {
        match self {
            Error::Client(_) => None,
            Error::Io(e) => Some(Cause::Io(e)),
            Error::JsonSerialization(e) => Some(Cause::JsonSerialization(e)),
        }
    }
}

impl core::convert::From<std::io::Error> for Error {
    /// An I/O failure converts into the `Io` variant, carried unchanged.
    fn from(err: std::io::Error) -> Error {
        Error::Io(err)
    }
}

impl vstd::std_specs::convert::FromSpecImpl<std::io::Error> for Error {
    open spec fn obeys_from_spec() -> bool {
        true
    }

    open spec fn from_spec(err: std::io::Error) -> Error {
        Error::Io(err)
    }
}

impl core::convert::From<serde_json::Error> for Error {
    /// A serialization failure converts into the `JsonSerialization` variant,
    /// carried unchanged.
    fn from(err: serde_json::Error) -> Error {
        Error::JsonSerialization(err)
    }
}

impl vstd::std_specs::convert::FromSpecImpl<serde_json::Error> for Error {
    open spec fn obeys_from_spec() -> bool {
        true
    }

    open spec fn from_spec(err: serde_json::Error) -> Error {
        Error::JsonSerialization(err)
    }
}

impl core::convert::From<&'static str> for Error {
    /// A static message converts into the `Client` variant, kept verbatim.
    fn from(msg: &'static str) -> Error {
        Error::Client(msg)
    }
}

impl vstd::std_specs::convert::FromSpecImpl<&'static str> for Error {
    open spec fn obeys_from_spec() -> bool {
        true
    }

    open spec fn from_spec(msg: &'static str) -> Error {
        Error::Client(msg)
    }
}

/// File transport result type: a send either fully succeeds with no payload
/// or fails with exactly one `Error`.
pub type FileResult = Result<(), Error>;

/// Law: converting a static message yields the `Client` variant holding the
/// message, and every description of that error is the message verbatim.
pub proof fn lemma_client_conversion(msg: &'static str, r: String)
    ensures
        <Error as FromSpec<&'static str>>::from_spec(msg) == Error::Client(msg),
        Error::Client(msg).describes(r) <==> r@ == msg@,
{
}

/// Law: a `Client` error is terminal in the cause chain — it wraps no
/// lower-layer failure of either kind.
pub proof fn lemma_client_no_cause(msg: &'static str)
    ensures
        !Error::Client(msg).has_cause(),
        Error::Client(msg).io_payload() is None,
        Error::Client(msg).json_payload() is None,
{
}

/// Law: wrapping an I/O failure loses nothing — conversion yields the `Io`
/// variant carrying the failure itself, the cause chain exposes exactly that
/// failure, and every description of the error is a rendering of the failure
/// by its own `Display` implementation.
pub proof fn lemma_io_conversion(err: std::io::Error, r: String)
    ensures
        <Error as FromSpec<std::io::Error>>::from_spec(err) == Error::Io(err),
        Error::Io(err).has_cause(),
        Error::Io(err).io_payload() == Some(err),
        Error::Io(err).describes(r) <==> to_string_from_display_ensures::<std::io::Error>(
            &err,
            r,
        ),
{
}

/// Law: wrapping a serialization failure loses nothing — conversion yields
/// the `JsonSerialization` variant carrying the failure itself, the cause
/// chain exposes exactly that failure, and every description of the error is
/// a rendering of the failure by its own `Display` implementation.
pub proof fn lemma_json_conversion(err: serde_json::Error, r: String)
    ensures
        <Error as FromSpec<serde_json::Error>>::from_spec(err) == Error::JsonSerialization(err),
        Error::JsonSerialization(err).has_cause(),
        Error::JsonSerialization(err).json_payload() == Some(err),
        Error::JsonSerialization(err).describes(r)
            <==> to_string_from_display_ensures::<serde_json::Error>(&err, r),
{
}

/// Law: a send outcome has exactly two observable states — success carrying
/// no payload, or failure carrying exactly one error. No third state exists.
pub proof fn lemma_outcome_two_states(outcome: FileResult)
    ensures
        outcome is Ok || outcome is Err,
        !(outcome is Ok && outcome is Err),
        outcome is Ok ==> outcome == FileResult::Ok(()),
        outcome is Err ==> exists|e: Error| outcome == FileResult::Err(e),
{
    match outcome {
        Ok(u) => {
            assert(u == ());
            assert(outcome == FileResult::Ok(()));
        },
        Err(e) => {
            assert(outcome == FileResult::Err(e));
        },
    }
}

} // verus!
