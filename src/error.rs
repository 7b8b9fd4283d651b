//! The failures that end a run.
use vstd::prelude::*;

verus! {

/// Why a run stopped without finishing.
#[derive(Debug, Clone)]
pub enum SyncError {
    /// A required setting is absent, or the list of record ids is empty.
    ConfigurationMissing,
    /// None of the echo services gave an answer.
    NoProviderAvailable,
    /// A call to the DNS provider failed; the text describes the failure.
    ApiError(String),
}

/// What a [`SyncError`] is, with its text as characters.
pub enum ErrorView {
    ConfigurationMissing,
    NoProviderAvailable,
    ApiError(Seq<char>),
}

impl View for SyncError {
    type V = ErrorView;

    open spec fn view(&self) -> ErrorView {
        match self {
            SyncError::ConfigurationMissing => ErrorView::ConfigurationMissing,
            SyncError::NoProviderAvailable => ErrorView::NoProviderAvailable,
            SyncError::ApiError(m) => ErrorView::ApiError(m@),
        }
    }
}

impl SyncError {
    /// A one-line description of the failure.
    pub fn message(&self) -> (r: String)
        ensures
            r@ == match self {
                SyncError::ConfigurationMissing => "required configuration is missing"@,
                SyncError::NoProviderAvailable => "cannot retrieve public IP"@,
                SyncError::ApiError(m) => m@,
            },
    {
        match self {
            SyncError::ConfigurationMissing => String::from_str("required configuration is missing"),
            SyncError::NoProviderAvailable => String::from_str("cannot retrieve public IP"),
            SyncError::ApiError(m) => m.clone(),
        }
    }
}

} // verus!
