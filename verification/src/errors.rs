//! The failures the classification pipeline itself can produce. Transport
//! failures never arise here: the library performs no I/O, and the driver
//! around it maps its own transport errors to a whole-cycle retry.

use vstd::prelude::*;

verus! {

/// A hard failure of classification: an unexpected payload shape, or a broken
/// invariant. Either aborts the cycle it occurs in.
#[derive(Debug)]
pub enum NotifError {
    /// A review email lacks the head comment or the footer marker that must
    /// delimit the review's comment text.
    MalformedReviewEmail,
    /// A push email declares one commit count and lists another.
    CommitCountMismatch { expected: usize, found: usize },
    /// A GraphQL response reported errors, joined into one text.
    GraphQlErrors { message: String },
    /// A GraphQL response carried neither data nor errors.
    MalformedGraphQlResponse,
}

pub ghost enum NotifErrorV {
    MalformedReviewEmail,
    CommitCountMismatch { expected: int, found: int },
    GraphQlErrors { message: Seq<char> },
    MalformedGraphQlResponse,
}

impl View for NotifError {
    type V = NotifErrorV;

    open spec fn view(&self) -> NotifErrorV {
        match self {
            NotifError::MalformedReviewEmail => NotifErrorV::MalformedReviewEmail,
            NotifError::CommitCountMismatch { expected, found } => {
                NotifErrorV::CommitCountMismatch {
                    expected: *expected as int,
                    found: *found as int,
                }
            },
            NotifError::GraphQlErrors { message } => {
                NotifErrorV::GraphQlErrors { message: message@ }
            },
            NotifError::MalformedGraphQlResponse => NotifErrorV::MalformedGraphQlResponse,
        }
    }
}

impl NotifError {
    /// A short description, in place of a `Display` implementation.
    pub fn message(&self) -> (r: String)
        ensures
            r@.len() > 0,
    {
        proof {
            reveal_strlit("review email lacks its head comment or footer marker");
            reveal_strlit("commit count of a push email does not match its commit list");
            reveal_strlit("GraphQL response errors: ");
            reveal_strlit("GraphQL response carried neither data nor errors");
        }
        match self {
            NotifError::MalformedReviewEmail => {
                String::from_str("review email lacks its head comment or footer marker")
            },
            NotifError::CommitCountMismatch { .. } => {
                String::from_str("commit count of a push email does not match its commit list")
            },
            NotifError::GraphQlErrors { message } => {
                let mut out = String::from_str("GraphQL response errors: ");
                out.append(message.as_str());
                out
            },
            NotifError::MalformedGraphQlResponse => {
                String::from_str("GraphQL response carried neither data nor errors")
            },
        }
    }
}

} // verus!
