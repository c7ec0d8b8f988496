//! Seventh matcher: a plain issue comment. Triggered by a permalink ending in
//! an issue-comment id; completed by an issue-comment lookup.

use crate::errors::{NotifError, NotifErrorV};
use crate::github::{find_url_suffix_id, url_suffix_id, EmailNotif, EmailNotifV, GetIssueCommentParams};
use crate::notif::{
    reflects_complete, LookupOutcome, LookupRequest, NotifDetail, NotifDetailV, Notification,
    OutcomeV, ReqV,
};
use vstd::prelude::*;

verus! {

pub open spec fn query_spec(en: EmailNotifV) -> Option<ReqV> {
    match (en.detected_issue, en.github_url) {
        (Some(issue), Some(url)) => match url_suffix_id(url, "#issuecomment-"@) {
            Some(id) => if id <= usize::MAX {
                Some(ReqV::IssueComment { repo: issue.repo, comment_id: id })
            } else {
                None
            },
            None => None,
        },
        _ => None,
    }
}

pub(super) fn query<'a>(enotif: &'a EmailNotif) -> (r: Option<LookupRequest<'a>>)
    ensures
        match r {
            Some(req) => query_spec(enotif@) == Some(req@),
            None => query_spec(enotif@) is None,
        },
{
    match (&enotif.detected_issue, &enotif.github_url) {
        (Some(issue), Some(url)) => match find_url_suffix_id(url.as_str(), "#issuecomment-") {
            Some(id) => Some(
                LookupRequest::IssueComment(
                    GetIssueCommentParams { repo: &issue.repo, comment_id: id },
                ),
            ),
            None => None,
        },
        _ => None,
    }
}

pub open spec fn complete_spec(en: EmailNotifV, o: OutcomeV) -> Result<
    Option<NotifDetailV>,
    NotifErrorV,
> {
    match (en.detected_issue, en.github_url, o) {
        (Some(issue), Some(url), OutcomeV::IssueComment(Some(c))) => Ok(
            Some(
                NotifDetailV::Commented { url: url, issue: issue, commenter: c.user, comment: c.body },
            ),
        ),
        _ => Ok(None),
    }
}

pub(super) fn complete(enotif: &EmailNotif, outcome: LookupOutcome) -> (r: Result<
    Option<Notification>,
    NotifError,
>)
    ensures
        reflects_complete(r, complete_spec(enotif@, outcome@)),
{
    match (&enotif.detected_issue, &enotif.github_url, outcome) {
        (Some(issue), Some(url), LookupOutcome::IssueComment(Some(c))) => Ok(
            Some(
                Notification {
                    detail: NotifDetail::Commented {
                        url: url.clone(),
                        issue: issue.duplicate(),
                        commenter: c.user,
                        comment: c.body,
                    },
                },
            ),
        ),
        _ => Ok(None),
    }
}

} // verus!
