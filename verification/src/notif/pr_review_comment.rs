//! Third matcher: a review discussion comment. Triggered by a permalink
//! ending in a discussion id; completed by a review-comment lookup.

use crate::errors::{NotifError, NotifErrorV};
use crate::github::{find_url_suffix_id, url_suffix_id, EmailNotif, EmailNotifV, GetPrReviewCommentParams};
use crate::notif::{
    reflects_complete, LookupOutcome, LookupRequest, NotifDetail, NotifDetailV, Notification,
    OutcomeV, ReqV,
};
use vstd::prelude::*;

verus! {

pub open spec fn query_spec(en: EmailNotifV) -> Option<ReqV> {
    match (en.detected_issue, en.github_url) {
        (Some(issue), Some(url)) => match url_suffix_id(url, "#discussion_r"@) {
            Some(id) => if id <= usize::MAX {
                Some(ReqV::PrReviewComment { repo: issue.repo, review_comment_id: id })
            } else {
                None
            },
            None => None,
        },
        _ => None,
    }
}

pub(super) fn query<'a>(enotif: &'a EmailNotif) -> (r: Option<LookupRequest<'a>>)
    ensures
        match r {
            Some(req) => query_spec(enotif@) == Some(req@),
            None => query_spec(enotif@) is None,
        },
{
    match (&enotif.detected_issue, &enotif.github_url) {
        (Some(issue), Some(url)) => match find_url_suffix_id(url.as_str(), "#discussion_r") {
            Some(id) => Some(
                LookupRequest::PrReviewComment(
                    GetPrReviewCommentParams { repo: &issue.repo, review_comment_id: id },
                ),
            ),
            None => None,
        },
        _ => None,
    }
}

pub open spec fn complete_spec(en: EmailNotifV, o: OutcomeV) -> Result<
    Option<NotifDetailV>,
    NotifErrorV,
> {
    match (en.detected_issue, en.github_url, o) {
        (Some(issue), Some(url), OutcomeV::PrReviewComment(Some(c))) => Ok(
            Some(
                NotifDetailV::PrReviewCommented {
                    url: url,
                    pr: issue,
                    commenter: c.user,
                    comment: c.body,
                },
            ),
        ),
        _ => Ok(None),
    }
}

pub(super) fn complete(enotif: &EmailNotif, outcome: LookupOutcome) -> (r: Result<
    Option<Notification>,
    NotifError,
>)
    ensures
        reflects_complete(r, complete_spec(enotif@, outcome@)),
{
    match (&enotif.detected_issue, &enotif.github_url, outcome) {
        (Some(issue), Some(url), LookupOutcome::PrReviewComment(Some(c))) => Ok(
            Some(
                Notification {
                    detail: NotifDetail::PrReviewCommented {
                        url: url.clone(),
                        pr: issue.duplicate(),
                        commenter: c.user,
                        comment: c.body,
                    },
                },
            ),
        ),
        _ => Ok(None),
    }
}

} // verus!
