//! The closed failure taxonomy of the library.
//!
//! Every operation of the cache core reports failures through [`AppError`].
//! Each variant carries a human-readable message and, where relevant, a
//! static subsystem or target label, so a failure can be diagnosed without
//! leaking internal detail structures across the boundary.

use vstd::prelude::*;
use vstd::string::StringExecFns;

verus! {

/// The application-wide error taxonomy.
///
/// - `Forbidden`: the caller lacks authorization for an operation.
/// - `NotFound`: a named resource of a given kind does not exist.
/// - `Validation`: a named field failed a local precondition.
/// - `External`: a collaborator (store or upstream client) failed at the
///   transport or protocol level; tagged with the collaborator's name.
/// - `Decode`: a value read from cache or upstream could not be parsed into
///   the expected shape; tagged with the target shape's name.
/// - `Encode`: a value could not be serialized for storage; tagged with the
///   target shape's name.
/// - `Unexpected`: anything not otherwise classified.
#[derive(Clone, Debug, PartialEq, Eq)]
pub enum AppError {
    Forbidden { reason: String },
    NotFound { resource: &'static str, id: String },
    Validation { field: &'static str, reason: String },
    External { system: &'static str, message: String },
    Decode { target: &'static str, message: String },
    Encode { target: &'static str, message: String },
    Unexpected { message: String },
}

impl AppError {
    /// The human-readable rendering of an error: its variant's phrase with
    /// the label and message filled in.
    pub open spec fn rendered(self) -> Seq<char> {
        match self {
            AppError::Forbidden { reason } => "Forbidden: "@ + reason@,
            AppError::NotFound { resource, id } => "Not found: "@ + resource@ + " ("@ + id@
                + ")"@,
            AppError::Validation { field, reason } => "Validation failed for "@ + field@ + ": "@
                + reason@,
            AppError::External { system, message } => "External system error ("@ + system@ + "): "@
                + message@,
            AppError::Decode { target, message } => "Decode error for "@ + target@ + ": "@
                + message@,
            AppError::Encode { target, message } => "Encode error for "@ + target@ + ": "@
                + message@,
            AppError::Unexpected { message } => "Unexpected error: "@ + message@,
        }
    }

    /// Render the error for a reader.
    pub fn describe(&self) -> (r: String)
        ensures
            r@ == self.rendered(),
    {
        match self {
            AppError::Forbidden { reason } => {
                let mut out: String = "Forbidden: ".to_owned();
                out.append(reason.as_str());
                out
            },
            AppError::NotFound { resource, id } => {
                let mut out: String = "Not found: ".to_owned();
                out.append(resource);
                out.append(" (");
                out.append(id.as_str());
                out.append(")");
                out
            },
            AppError::Validation { field, reason } => {
                let mut out: String = "Validation failed for ".to_owned();
                out.append(field);
                out.append(": ");
                out.append(reason.as_str());
                out
            },
            AppError::External { system, message } => {
                let mut out: String = "External system error (".to_owned();
                out.append(system);
                out.append("): ");
                out.append(message.as_str());
                out
            },
            AppError::Decode { target, message } => {
                let mut out: String = "Decode error for ".to_owned();
                out.append(target);
                out.append(": ");
                out.append(message.as_str());
                out
            },
            AppError::Encode { target, message } => {
                let mut out: String = "Encode error for ".to_owned();
                out.append(target);
                out.append(": ");
                out.append(message.as_str());
                out
            },
            AppError::Unexpected { message } => {
                let mut out: String = "Unexpected error: ".to_owned();
                out.append(message.as_str());
                out
            },
        }
    }

    /// A transport or protocol failure of the named collaborator.
    pub fn external(system: &'static str, message: String) -> (r: Self)
        ensures
            r == (AppError::External { system, message }),
    {
        AppError::External { system, message }
    }

    /// A failure to parse a value into the named target shape.
    pub fn decode(target: &'static str, message: String) -> (r: Self)
        ensures
            r == (AppError::Decode { target, message }),
    {
        AppError::Decode { target, message }
    }

    /// A failure to serialize a value of the named target shape.
    pub fn encode(target: &'static str, message: String) -> (r: Self)
        ensures
            r == (AppError::Encode { target, message }),
    {
        AppError::Encode { target, message }
    }

    /// A local precondition failure of the named field.
    pub fn validation(field: &'static str, reason: String) -> (r: Self)
        ensures
            r == (AppError::Validation { field, reason }),
    {
        AppError::Validation { field, reason }
    }

    /// A failure not covered by any other variant.
    pub fn unexpected(message: String) -> (r: Self)
        ensures
            r == (AppError::Unexpected { message }),
    {
        AppError::Unexpected { message }
    }
}

} // verus!
