//! Structured errors returned by the generators.

use vstd::prelude::*;
use vstd::string::StringExecFns;

verus! {

/// A recoverable generation error, returned as a value up the call chain.
#[derive(Debug, PartialEq)]
pub enum GenError {
    /// A referenced type name did not resolve to a concrete registered type.
    UnknownDatatype { name: String },
    /// An array bounds expression was not a non-empty list of ranges.
    ExpectedRange,
    /// A member initializer could not be lowered to a constant of the
    /// member's type.
    InvalidInitializer { member: String },
    /// The struct cell the stub pass should have registered is missing: a
    /// phase-ordering bug in the caller, not a user error.
    MissingStub { name: String },
    /// No struct type is associated with the named callable.
    NoTypeAssociated { name: String },
}

/// The mathematical model of a [`GenError`].
pub enum GenErrorModel {
    UnknownDatatype { name: Seq<char> },
    ExpectedRange,
    InvalidInitializer { member: Seq<char> },
    MissingStub { name: Seq<char> },
    NoTypeAssociated { name: Seq<char> },
}

impl View for GenError {
    type V = GenErrorModel;

    open spec fn view(&self) -> GenErrorModel {
        match self {
            GenError::UnknownDatatype { name } => GenErrorModel::UnknownDatatype { name: name@ },
            GenError::ExpectedRange => GenErrorModel::ExpectedRange,
            GenError::InvalidInitializer { member } => GenErrorModel::InvalidInitializer {
                member: member@,
            },
            GenError::MissingStub { name } => GenErrorModel::MissingStub { name: name@ },
            GenError::NoTypeAssociated { name } => GenErrorModel::NoTypeAssociated { name: name@ },
        }
    }
}

/// The text of an error's message.
pub open spec fn message_model(e: GenErrorModel) -> Seq<char> {
    match e {
        GenErrorModel::UnknownDatatype { name } => "Unknown datatype '"@ + name + "'"@,
        GenErrorModel::ExpectedRange => "expected a range expression"@,
        GenErrorModel::InvalidInitializer { member } => "cannot lower the initializer of '"@
            + member + "'"@,
        GenErrorModel::MissingStub { name } => "no stub was generated for '"@ + name + "'"@,
        GenErrorModel::NoTypeAssociated { name } => "No type associated to "@ + name,
    }
}

impl GenError {
    /// A human-readable description of the error.
    pub fn message(&self) -> (r: String)
        ensures
            r@ == message_model(self@),
    {
        match self {
            GenError::UnknownDatatype { name } => String::from_str("Unknown datatype '").concat(
                name.as_str(),
            ).concat("'"),
            GenError::ExpectedRange => String::from_str("expected a range expression"),
            GenError::InvalidInitializer { member } => String::from_str(
                "cannot lower the initializer of '",
            ).concat(member.as_str()).concat("'"),
            GenError::MissingStub { name } => String::from_str("no stub was generated for '")
                .concat(name.as_str()).concat("'"),
            GenError::NoTypeAssociated { name } => String::from_str("No type associated to ")
                .concat(name.as_str()),
        }
    }
}

} // verus!
