//! The payload of the review-request query, and the decision it feeds: a
//! pull request is unsubscribed from only when the user still has a direct
//! (non-team) review request on it.

use crate::strutil::str_eq;
use vstd::prelude::*;

verus! {

pub struct Payload {
    pub repository: Option<Repository>,
}

pub struct Repository {
    pub pull_request: Option<PullRequest>,
}

pub struct PullRequest {
    pub id: String,
    pub review_requests: ReviewRequestConn,
}

pub struct ReviewRequestConn {
    pub nodes: Vec<ReviewRequest>,
}

pub struct ReviewRequest {
    pub requested_reviewer: Option<RequestedReviewer>,
}

pub enum RequestedReviewer {
    Mannequin,
    Team,
    User { login: String },
}

pub ghost enum RequestedReviewerV {
    Mannequin,
    Team,
    User { login: Seq<char> },
}

impl View for RequestedReviewer {
    type V = RequestedReviewerV;

    open spec fn view(&self) -> RequestedReviewerV {
        match self {
            RequestedReviewer::Mannequin => RequestedReviewerV::Mannequin,
            RequestedReviewer::Team => RequestedReviewerV::Team,
            RequestedReviewer::User { login } => RequestedReviewerV::User { login: login@ },
        }
    }
}

impl DeepView for RequestedReviewer {
    type V = RequestedReviewerV;

    open spec fn deep_view(&self) -> RequestedReviewerV {
        self.view()
    }
}

pub ghost struct ReviewRequestV {
    pub requested_reviewer: Option<RequestedReviewerV>,
}

impl View for ReviewRequest {
    type V = ReviewRequestV;

    open spec fn view(&self) -> ReviewRequestV {
        ReviewRequestV { requested_reviewer: self.requested_reviewer.deep_view() }
    }
}

impl DeepView for ReviewRequest {
    type V = ReviewRequestV;

    open spec fn deep_view(&self) -> ReviewRequestV {
        self.view()
    }
}

pub ghost struct PullRequestV {
    pub id: Seq<char>,
    pub nodes: Seq<ReviewRequestV>,
}

impl View for PullRequest {
    type V = PullRequestV;

    open spec fn view(&self) -> PullRequestV {
        PullRequestV { id: self.id@, nodes: self.review_requests.nodes.deep_view() }
    }
}

pub ghost struct PayloadV {
    pub pull_request: Option<PullRequestV>,
}

impl View for Payload {
    type V = PayloadV;

    open spec fn view(&self) -> PayloadV {
        match self.repository {
            Some(ref rep) => match rep.pull_request {
                Some(ref pr) => PayloadV { pull_request: Some(pr@) },
                None => PayloadV { pull_request: None },
            },
            None => PayloadV { pull_request: None },
        }
    }
}

impl Payload {
    /// The pull request the query found, through the nested optional layers.
    pub fn pull_request(&self) -> (r: Option<&PullRequest>)
        ensures
            match r {
                Some(pr) => self@.pull_request == Some(pr@),
                None => self@.pull_request is None,
            },
    {
        match &self.repository {
            Some(rep) => rep.pull_request.as_ref(),
            None => None,
        }
    }
}

/// The user has a direct, non-team review request on the pull request.
pub open spec fn has_direct_request(pr: PullRequestV, login: Seq<char>) -> bool {
    exists|i: int|
        0 <= i < pr.nodes.len() && #[trigger] pr.nodes[i].requested_reviewer == Some(
            RequestedReviewerV::User { login: login },
        )
}

/// Whether `user_login` has a direct review request; the rule is
/// `has_direct_request`.
#[verifier::loop_isolation(false)]
pub fn review_requested_directly(pr: &PullRequest, user_login: &str) -> (b: bool)
    ensures
        b == has_direct_request(pr@, user_login@),
{
    let n = pr.review_requests.nodes.len();
    for i in 0..n
        invariant
            n == pr.review_requests.nodes.len(),
            forall|j: int|
                0 <= j < i ==> #[trigger] pr.review_requests.nodes.deep_view()[j].requested_reviewer
                    != Some(RequestedReviewerV::User { login: user_login@ }),
    {
        match &pr.review_requests.nodes[i].requested_reviewer {
            Some(RequestedReviewer::User { login }) => {
                if str_eq(login.as_str(), user_login) {
                    assert(pr.review_requests.nodes.deep_view()[i as int].requested_reviewer
                        == Some(RequestedReviewerV::User { login: user_login@ }));
                    return true;
                }
            },
            _ => {},
        }
    }
    false
}

/// What the query's payload decides: the subscribable id to unsubscribe when
/// the pull request exists and the user still has a direct request on it;
/// nothing otherwise, and the whole operation then reports `false` without a
/// mutation.
pub open spec fn unsubscribe_query_decision(p: PayloadV, login: Seq<char>) -> Option<Seq<char>> {
    match p.pull_request {
        Some(pr) => if has_direct_request(pr, login) {
            Some(pr.id)
        } else {
            None
        },
        None => None,
    }
}

/// Decides the first half of the unsubscribe operation; the rule is
/// `unsubscribe_query_decision`.
pub fn decide_unsubscribe_query(data: &Payload, user_login: &str) -> (r: Option<String>)
    ensures
        r.deep_view() == unsubscribe_query_decision(data@, user_login@),
{
    match data.pull_request() {
        Some(pr) => {
            if review_requested_directly(pr, user_login) {
                Some(pr.id.clone())
            } else {
                None
            }
        },
        None => None,
    }
}

} // verus!
