//! The failures that the core reports.

use vstd::prelude::*;

verus! {

/// Why an operation did not produce its result.
#[derive(Debug)]
pub enum BlogError {
    /// The requested article or user does not exist.
    NotFound,
    /// The identity provider was unreachable or answered with an error; the
    /// text is the provider's own.
    ProviderError(String),
    /// Storage was unreachable or answered with something malformed.
    BackendError(String),
    /// A record refers to another record that does not exist.
    DanglingReference,
}

impl BlogError {
    /// The text shown to the user for this failure.
    pub open spec fn description_text(self) -> Seq<char> {
        match self {
            BlogError::NotFound => "not found"@,
            BlogError::ProviderError(body) => body@,
            BlogError::BackendError(message) => message@,
            BlogError::DanglingReference => "dangling reference"@,
        }
    }

    /// The text shown to the user for this failure.
    pub fn description(&self) -> (text: String)
        ensures
            text@ == self.description_text(),
    {
        match self {
            BlogError::NotFound => "not found".to_owned(),
            BlogError::ProviderError(body) => body.clone(),
            BlogError::BackendError(message) => message.clone(),
            BlogError::DanglingReference => "dangling reference".to_owned(),
        }
    }

    /// Whether the failure is the expected absence of a record, which is shown
    /// as a missing page rather than as an error.
    pub fn is_not_found(&self) -> (r: bool)
        ensures
            r == (*self is NotFound),
    {
        match self {
            BlogError::NotFound => true,
            _ => false,
        }
    }
}

/// The page that reports a failure to the reader.
#[derive(Debug)]
pub enum ErrorPage {
    /// The page for something that does not exist.
    Missing,
    /// The general error page, with the failure's description.
    Failure { message: String },
}

/// Chooses the page for a failure: the missing page for `NotFound`, and for
/// every other failure the general error page with its description.
pub fn error_page(error: &BlogError) -> (page: ErrorPage)
    ensures
        *error is NotFound ==> page is Missing,
        !(*error is NotFound) ==> (page matches ErrorPage::Failure { message } && message@
            == error.description_text()),
{
    if error.is_not_found() {
        ErrorPage::Missing
    } else {
        ErrorPage::Failure { message: error.description() }
    }
}

impl Clone for BlogError {
    fn clone(&self) -> (r: Self)
        ensures
            r == *self,
    {
        match self {
            BlogError::NotFound => BlogError::NotFound,
            BlogError::ProviderError(body) => BlogError::ProviderError(body.clone()),
            BlogError::BackendError(message) => BlogError::BackendError(message.clone()),
            BlogError::DanglingReference => BlogError::DanglingReference,
        }
    }
}

} // verus!
