//! Failure values returned by every fallible operation of the engine.

use vstd::prelude::*;
use vstd::string::StringExecFns;

verus! {

/// The ways an operation on a table can fail.
#[derive(Clone, Debug, PartialEq, Eq)]
pub enum Error {
    /// The uri opened holds no table.
    TableNotFound { name: String },
    /// A table was created where one exists already.
    TableAlreadyExists { name: String },
    /// The uri has no file stem that can be decoded.
    InvalidTableName { name: String },
    /// The caller left out a required field.
    InvalidInput { message: String },
    /// The schema does not fit the request.
    Schema { message: String },
    /// A query failed at run time for a reason that is not in the schema.
    Store { message: String },
    /// An index exists on the column and may not be replaced.
    IndexAlreadyExists,
    /// A failure handed up from the dataset layer.
    Lance { message: String },
}

/// The mathematical value of an [`Error`]: its kind and its text.
pub enum ErrorView {
    TableNotFound { name: Seq<char> },
    TableAlreadyExists { name: Seq<char> },
    InvalidTableName { name: Seq<char> },
    InvalidInput { message: Seq<char> },
    Schema { message: Seq<char> },
    Store { message: Seq<char> },
    IndexAlreadyExists,
    Lance { message: Seq<char> },
}

impl View for Error {
    type V = ErrorView;

    open spec fn view(&self) -> ErrorView {
        match self {
            Error::TableNotFound { name } => ErrorView::TableNotFound { name: name@ },
            Error::TableAlreadyExists { name } => ErrorView::TableAlreadyExists { name: name@ },
            Error::InvalidTableName { name } => ErrorView::InvalidTableName { name: name@ },
            Error::InvalidInput { message } => ErrorView::InvalidInput { message: message@ },
            Error::Schema { message } => ErrorView::Schema { message: message@ },
            Error::Store { message } => ErrorView::Store { message: message@ },
            Error::IndexAlreadyExists => ErrorView::IndexAlreadyExists,
            Error::Lance { message } => ErrorView::Lance { message: message@ },
        }
    }
}

/// The mathematical value of the result of a fallible operation.
pub open spec fn view_result<T: View>(r: Result<T, Error>) -> Result<T::V, ErrorView> {
    match r {
        Ok(value) => Ok(value@),
        Err(e) => Err(e@),
    }
}

impl ErrorView {
    /// The text shown for the error.
    pub open spec fn text(self) -> Seq<char> {
        match self {
            ErrorView::TableNotFound { name } => "Table '"@ + name + "' was not found"@,
            ErrorView::TableAlreadyExists { name } => "Table '"@ + name + "' already exists"@,
            ErrorView::InvalidTableName { name } => "Invalid table name: "@ + name,
            ErrorView::InvalidInput { message } => "Invalid input, "@ + message,
            ErrorView::Schema { message } => "Schema error: "@ + message,
            ErrorView::Store { message } => message,
            ErrorView::IndexAlreadyExists => "Index already exists"@,
            ErrorView::Lance { message } => message,
        }
    }
}

impl Error {
    /// The text shown for the error.
    pub fn message(&self) -> (s: String)
        ensures
            s@ == self@.text(),
    {
        match self {
            Error::TableNotFound { name } => String::from_str("Table '").concat(
                name.as_str(),
            ).concat("' was not found"),
            Error::TableAlreadyExists { name } => String::from_str("Table '").concat(
                name.as_str(),
            ).concat("' already exists"),
            Error::InvalidTableName { name } => String::from_str("Invalid table name: ").concat(
                name.as_str(),
            ),
            Error::InvalidInput { message } => String::from_str("Invalid input, ").concat(
                message.as_str(),
            ),
            Error::Schema { message } => String::from_str("Schema error: ").concat(
                message.as_str(),
            ),
            Error::Store { message } => message.clone(),
            Error::IndexAlreadyExists => String::from_str("Index already exists"),
            Error::Lance { message } => message.clone(),
        }
    }
}

} // verus!
