//! Errors raised while preparing, building and linking factors.
use vstd::prelude::*;

verus! {

/// Why the builder of a factor could not be handed out.
#[derive(Clone, Copy, Debug, PartialEq, Eq, Structural)]
pub enum BuilderUnavailable {
    /// The factor is part of the set, but its builder has not been prepared yet.
    NotYetPrepared,
    /// No factor of the requested type is part of the set.
    NoSuchFactor,
}

/// The text that explains a [`BuilderUnavailable`].
pub open spec fn unavailable_text(reason: BuilderUnavailable) -> Seq<char> {
    match reason {
        BuilderUnavailable::NotYetPrepared => "builder not yet prepared"@,
        BuilderUnavailable::NoSuchFactor => "no such factor"@,
    }
}

impl BuilderUnavailable {
    /// The text that explains this reason.
    pub fn text(&self) -> (s: &'static str)
        ensures
            s@ == unavailable_text(*self),
    {
        match self {
            BuilderUnavailable::NotYetPrepared => "builder not yet prepared",
            BuilderUnavailable::NoSuchFactor => "no such factor",
        }
    }
}

/// An error of the factor runtime.
#[derive(Debug)]
pub enum FactorError {
    /// A factor asked for the builder of a factor type that it could not get.
    BuilderUnavailable { factor_type: String, reason: BuilderUnavailable },
    /// A factor's own preparation, build or linking step failed with this message.
    Other(String),
}

/// The message of an error: for an unavailable builder,
/// `could not get builder for {type}: {reason}`.
pub open spec fn error_message(e: FactorError) -> Seq<char> {
    match e {
        FactorError::BuilderUnavailable { factor_type, reason } =>
            "could not get builder for "@ + factor_type@ + ": "@ + unavailable_text(reason),
        FactorError::Other(message) => message@,
    }
}

impl FactorError {
    /// An error for a builder of `factor_type` that is unavailable for `reason`.
    pub fn builder_unavailable(factor_type: &str, reason: BuilderUnavailable) -> (e: FactorError)
        ensures
            e == (FactorError::BuilderUnavailable { factor_type: e->factor_type, reason }),
            e->factor_type@ == factor_type@,
    {
        FactorError::BuilderUnavailable { factor_type: String::from_str(factor_type), reason }
    }

    /// An error carrying a message of a factor's own.
    pub fn msg(message: &str) -> (e: FactorError)
        ensures
            e is Other,
            e->Other_0@ == message@,
    {
        FactorError::Other(String::from_str(message))
    }

    /// The human-readable message of this error.
    pub fn message(&self) -> (m: String)
        ensures
            m@ == error_message(*self),
    {
        match self {
            FactorError::BuilderUnavailable { factor_type, reason } => {
                let mut m = String::from_str("could not get builder for ");
                m.append(factor_type.as_str());
                m.append(": ");
                m.append(reason.text());
                m
            },
            FactorError::Other(message) => message.clone(),
        }
    }
}

} // verus!
