//! First matcher: a pull request was opened. Triggered by the line that
//! offers to view, comment on, or merge the pull request online; completed by
//! an issue lookup whose opener becomes the notification's subject.

use crate::errors::{NotifError, NotifErrorV};
use crate::github::{EmailNotif, EmailNotifV, GetIssueParams};
use crate::notif::{
    reflects_complete, LookupOutcome, LookupRequest, NotifDetail, NotifDetailV, Notification,
    OutcomeV, ReqV,
};
use crate::strutil::{starts_with, str_starts_with};
use vstd::prelude::*;

verus! {

/// Some line starts with the pull-request announcement.
pub open spec fn open_line(lines: Seq<Seq<char>>) -> bool {
    exists|i: int|
        0 <= i < lines.len() && starts_with(
            #[trigger] lines[i],
            "You can view, comment on, or merge this pull request online at:"@,
        )
}

pub open spec fn query_spec(en: EmailNotifV) -> Option<ReqV> {
    match (en.detected_issue, en.github_url) {
        (Some(issue), Some(url)) => if open_line(en.lines) {
            Some(ReqV::Issue { repo: issue.repo, number: issue.number })
        } else {
            None
        },
        _ => None,
    }
}

#[verifier::loop_isolation(false)]
pub(super) fn query<'a>(enotif: &'a EmailNotif) -> (r: Option<LookupRequest<'a>>)
    ensures
        match r {
            Some(req) => query_spec(enotif@) == Some(req@),
            None => query_spec(enotif@) is None,
        },
{
    match (&enotif.detected_issue, &enotif.github_url) {
        (Some(issue), Some(_)) => {
            let n = enotif.lines.len();
            for i in 0..n
                invariant
                    n == enotif.lines.len(),
                    forall|j: int|
                        0 <= j < i ==> !starts_with(
                            #[trigger] enotif.lines.deep_view()[j],
                            "You can view, comment on, or merge this pull request online at:"@,
                        ),
            {
                if str_starts_with(
                    enotif.lines[i].as_str(),
                    "You can view, comment on, or merge this pull request online at:",
                ) {
                    assert(open_line(enotif@.lines)) by {
                        assert(starts_with(
                            enotif.lines.deep_view()[i as int],
                            "You can view, comment on, or merge this pull request online at:"@,
                        ));
                    }
                    return Some(
                        LookupRequest::Issue(GetIssueParams { repo: &issue.repo, number: issue.number }),
                    );
                }
            }
            None
        },
        _ => None,
    }
}

pub open spec fn complete_spec(en: EmailNotifV, o: OutcomeV) -> Result<
    Option<NotifDetailV>,
    NotifErrorV,
> {
    match (en.detected_issue, o) {
        (Some(issue), OutcomeV::Issue(Some(pr))) => Ok(
            Some(NotifDetailV::PrOpened { opener: pr.user, pr: issue }),
        ),
        _ => Ok(None),
    }
}

pub(super) fn complete(enotif: &EmailNotif, outcome: LookupOutcome) -> (r: Result<
    Option<Notification>,
    NotifError,
>)
    ensures
        reflects_complete(r, complete_spec(enotif@, outcome@)),
{
    match (&enotif.detected_issue, outcome) {
        (Some(issue), LookupOutcome::Issue(Some(pr))) => Ok(
            Some(
                Notification {
                    detail: NotifDetail::PrOpened { opener: pr.user, pr: issue.duplicate() },
                },
            ),
        ),
        _ => Ok(None),
    }
}

} // verus!
