//! The shapes of the two GraphQL operations the relay makes, and the rule
//! that turns a GraphQL response envelope into data or an error. Sending the
//! operations over the wire is the driver's side.

pub mod get_review_requests;
pub mod update_subscription_mut;

use crate::errors::{NotifError, NotifErrorV};
use crate::strutil::{join_strings, join_with};
use vstd::prelude::*;

verus! {

/// A GraphQL response envelope: data, errors, or (malformed) neither.
pub struct QueryResult<D> {
    pub data: Option<D>,
    pub errors: Option<Vec<ErrorItem>>,
}

/// One error of a GraphQL response.
pub struct ErrorItem {
    message: String,
}

impl ErrorItem {
    pub fn new(message: String) -> (r: ErrorItem)
        ensures
            r@ == message@,
    {
        ErrorItem { message }
    }
}

impl View for ErrorItem {
    type V = Seq<char>;

    closed spec fn view(&self) -> Seq<char> {
        self.message@
    }
}

impl DeepView for ErrorItem {
    type V = Seq<char>;

    open spec fn deep_view(&self) -> Seq<char> {
        self.view()
    }
}

/// What a response envelope yields: reported errors joined into one message,
/// then the data, and a malformed-response failure when it has neither.
pub fn graphql_data<D>(r: QueryResult<D>) -> (out: Result<D, NotifError>)
    ensures
        match out {
            Ok(d) => r.errors is None && r.data == Some(d),
            Err(e) => match r.errors {
                Some(errs) => e@ == NotifErrorV::GraphQlErrors {
                    message: join_with(errs.deep_view(), ","@),
                },
                None => r.data is None && e@ == NotifErrorV::MalformedGraphQlResponse,
            },
        },
{
    match r.errors {
        Some(errs) => {
            let ghost all = errs.deep_view();
            let mut msgs: Vec<String> = Vec::new();
            let n = errs.len();
            for i in 0..n
                invariant
                    n == errs.len(),
                    all == errs.deep_view(),
                    msgs.len() == i,
                    msgs.deep_view() =~~= all.take(i as int),
            {
                msgs.push(errs[i].message.clone());
                assert(msgs.deep_view() =~~= all.take(i + 1));
            }
            assert(all.take(n as int) =~= all);
            let message = join_strings(&msgs, ",");
            proof {
                reveal_strlit(",");
            }
            Err(NotifError::GraphQlErrors { message })
        },
        None => match r.data {
            Some(d) => Ok(d),
            None => Err(NotifError::MalformedGraphQlResponse),
        },
    }
}

/// A subscription state as the host's API names it.
#[derive(Clone, Copy, PartialEq, Eq, Structural, Debug)]
pub enum SubscriptionState {
    Ignored,
    Subscribed,
    Unsubscribed,
}

/// The review-request query: which reviews are requested on a pull request,
/// and its subscribable id.
pub struct GetReviewRequestsQuery<'a> {
    pub owner: &'a str,
    pub repo: &'a str,
    pub pr_number: usize,
}

/// The input of the subscription mutation.
pub struct UpdateSubscriptionInput {
    pub state: SubscriptionState,
    pub subscribable_id: String,
}

/// The subscription mutation: set the viewer's subscription state on a
/// subscribable.
pub struct UpdateSubscriptionMut {
    pub input: UpdateSubscriptionInput,
}

} // verus!
