//! The ways in which decoding a page fails.

use vstd::prelude::*;
use vstd::string::StringExecFns;

verus! {

/// Why a page could not be decoded.
#[derive(Clone, Debug, PartialEq, Eq)]
pub enum SearchError {
    /// The page lacks a node that it must have; the text says which query
    /// found too few nodes.
    NodeNotFound(String),
    /// A node was found but what it holds is malformed; the text names the
    /// field.
    InvalidData(String),
}

/// What a `SearchError` holds, as plain text.
pub enum SearchFailure {
    NodeNotFound(Seq<char>),
    InvalidData(Seq<char>),
}

impl View for SearchError {
    type V = SearchFailure;

    open spec fn view(&self) -> SearchFailure {
        match self {
            SearchError::NodeNotFound(query) => SearchFailure::NodeNotFound(query@),
            SearchError::InvalidData(field) => SearchFailure::InvalidData(field@),
        }
    }
}

/// What a decoder's result holds, as plain values.
pub open spec fn outcome<T: View>(result: Result<T, SearchError>) -> Result<T::V, SearchFailure> {
    match result {
        Ok(value) => Ok(value@),
        Err(e) => Err(e@),
    }
}

impl SearchError {
    /// The sentence for a failure.
    pub open spec fn sentence(failure: SearchFailure) -> Seq<char> {
        match failure {
            SearchFailure::NodeNotFound(query) => "Node not found: "@ + query,
            SearchFailure::InvalidData(field) => "Invalid data found while parsing '"@ + field
                + "'"@,
        }
    }

    /// A sentence that says what failed.
    pub fn message(&self) -> (text: String)
        ensures
            text@ == SearchError::sentence(self@),
    {
        match self {
            SearchError::NodeNotFound(query) => {
                let mut text = "Node not found: ".to_owned();
                text.append(query.as_str());
                text
            },
            SearchError::InvalidData(field) => {
                let mut text = "Invalid data found while parsing '".to_owned();
                text.append(field.as_str());
                text.append("'");
                text
            },
        }
    }

    /// The failure of a field that holds malformed data.
    pub fn invalid(field: &str) -> (e: SearchError)
        ensures
            e@ == SearchFailure::InvalidData(field@),
    {
        SearchError::InvalidData(field.to_owned())
    }

    /// The failure of a query that found too few nodes.
    pub fn missing(query: &str) -> (e: SearchError)
        ensures
            e@ == SearchFailure::NodeNotFound(query@),
    {
        SearchError::NodeNotFound(query.to_owned())
    }
}

} // verus!
