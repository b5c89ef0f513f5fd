//! Error types and helpers.

use vstd::prelude::*;

verus! {

/// Declares `anyhow::Error` so that it can stand in fields and signatures.
/// Values of it are opaque here; anyhow alone builds and renders them.
#[verifier::external_type_specification]
#[verifier::external_body]
pub struct ExAnyhowError(anyhow::Error);

/// An enum describing the errors that can occur in CO₂.
///
/// Every fallible operation in the system reports its failure through this
/// one type, so callers never need to match on cipher-specific error types.
#[derive(Debug)]
pub enum CO2Error {
    /// An arbitrary, human-readable message.
    Msg(String),
    /// Some other error, wrapped from an [`anyhow::Error`] cause.
    Other(anyhow::Error),
}

/// A convenient type alias for a [`Result`] with an error type of [`CO2Error`].
pub type CO2Result<T> = Result<T, CO2Error>;

impl From<anyhow::Error> for CO2Error {
    /// Wraps an arbitrary underlying cause into the [`CO2Error::Other`] arm.
    fn from(cause: anyhow::Error) -> (err: CO2Error)
        ensures
            err == CO2Error::Other(cause),
    {
        CO2Error::Other(cause)
    }
}

impl vstd::std_specs::convert::FromSpecImpl<anyhow::Error> for CO2Error {
    open spec fn obeys_from_spec() -> bool {
        true
    }

    open spec fn from_spec(cause: anyhow::Error) -> CO2Error {
        CO2Error::Other(cause)
    }
}

impl CO2Error {
    /// Renders the error for a human reader: a [`CO2Error::Msg`] is exactly
    /// its message text; a [`CO2Error::Other`] is rendered by its cause.
    pub fn message(&self) -> (text: String)
        ensures
            self matches CO2Error::Msg(m) ==> text@ == m@,
    {
        match self {
            CO2Error::Msg(m) => m.clone(),
            CO2Error::Other(cause) => render_cause(cause),
        }
    }
}

/// Relies on the `Display` implementation of `anyhow::Error`, which renders
/// the outermost underlying cause.
#[verifier::external_body]
fn render_cause(cause: &anyhow::Error) -> String {
    format!("{}", cause)
}

} // verus!
