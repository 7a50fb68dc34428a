//! What can go wrong with a lookup.
//!
//! There is one kind of failure: the store did not give what was asked of
//! it. That covers a lookup that found no row as well as a store that could
//! not be reached or read. Nothing is retried; every failure is described in
//! text and sent to the caller as it is.

use vstd::prelude::*;
use vstd::string::StringExecFns;

verus! {

/// A failure as the store signalled it.
#[derive(Debug, PartialEq, Eq)]
pub enum StoreError {
    /// A statement that must yield one row yielded none.
    RowNotFound,
    /// Any other failure, held as the store's own description of it.
    Failure(String),
}

/// The mathematical value of a [`StoreError`].
pub enum StoreErrorView {
    RowNotFound,
    Failure(Seq<char>),
}

impl View for StoreError {
    type V = StoreErrorView;

    open spec fn view(&self) -> StoreErrorView {
        match self {
            StoreError::RowNotFound => StoreErrorView::RowNotFound,
            StoreError::Failure(description) => StoreErrorView::Failure(description@),
        }
    }
}

impl Clone for StoreError {
    fn clone(&self) -> (copy: StoreError)
        ensures
            copy == *self,
    {
        match self {
            StoreError::RowNotFound => StoreError::RowNotFound,
            StoreError::Failure(description) => StoreError::Failure(description.clone()),
        }
    }
}

impl StoreErrorView {
    /// The description of the failure: a fixed name where no row was found,
    /// else the store's own words.
    pub open spec fn description(self) -> Seq<char> {
        match self {
            StoreErrorView::RowNotFound => "RowNotFound"@,
            StoreErrorView::Failure(description) => description,
        }
    }
}

impl StoreError {
    /// The description of the failure as text.
    pub fn describe(&self) -> (text: String)
        ensures
            text@ == self@.description(),
    {
        match self {
            StoreError::RowNotFound => String::from_str("RowNotFound"),
            StoreError::Failure(description) => description.clone(),
        }
    }
}

/// The error of a lookup.
#[derive(Debug, PartialEq, Eq)]
pub enum EcdictError {
    /// The store failed, or found no row where one was needed.
    DBError(StoreError),
}

/// The mathematical value of an [`EcdictError`].
pub enum EcdictErrorView {
    DBError(StoreErrorView),
}

impl View for EcdictError {
    type V = EcdictErrorView;

    open spec fn view(&self) -> EcdictErrorView {
        match self {
            EcdictError::DBError(cause) => EcdictErrorView::DBError(cause@),
        }
    }
}

impl Clone for EcdictError {
    fn clone(&self) -> (copy: EcdictError)
        ensures
            copy == *self,
    {
        match self {
            EcdictError::DBError(cause) => EcdictError::DBError(cause.clone()),
        }
    }
}

impl EcdictErrorView {
    /// The description of the error: the name of its kind, and in brackets
    /// the description of the store's failure.
    pub open spec fn description(self) -> Seq<char> {
        match self {
            EcdictErrorView::DBError(cause) => "DBError("@ + cause.description() + ")"@,
        }
    }
}

impl EcdictError {
    /// The description of the error as text.
    pub fn describe(&self) -> (text: String)
        ensures
            text@ == self@.description(),
    {
        match self {
            EcdictError::DBError(cause) => {
                let mut text = String::from_str("DBError(");
                text.append(cause.describe().as_str());
                text.append(")");
                text
            },
        }
    }
}

impl From<StoreError> for EcdictError {
    fn from(cause: StoreError) -> (error: EcdictError) {
        EcdictError::DBError(cause)
    }
}

impl vstd::std_specs::convert::FromSpecImpl<StoreError> for EcdictError {
    open spec fn obeys_from_spec() -> bool {
        true
    }

    open spec fn from_spec(cause: StoreError) -> EcdictError {
        EcdictError::DBError(cause)
    }
}

} // verus!
