//! Sixth matcher: an issue or pull request was closed or merged. Triggered
//! by a first line starting `Closed #` or `Merged` and a permalink ending in
//! an event id; completed by an issue-event lookup.

use crate::errors::{NotifError, NotifErrorV};
use crate::github::{find_url_suffix_id, url_suffix_id, EmailNotif, EmailNotifV, GetIssueEventParams};
use crate::notif::{
    reflects_complete, LookupOutcome, LookupRequest, NotifDetail, NotifDetailV, Notification,
    OutcomeV, ReqV,
};
use crate::strutil::{starts_with, str_eq, str_starts_with};
use vstd::prelude::*;

verus! {

/// The first line announces a close or a merge.
pub open spec fn is_issue_closed_line(lines: Seq<Seq<char>>) -> bool {
    lines.len() > 0 && (starts_with(lines[0], "Closed #"@) || starts_with(lines[0], "Merged"@))
}

pub open spec fn query_spec(en: EmailNotifV) -> Option<ReqV> {
    match (en.detected_issue, en.github_url) {
        (Some(issue), Some(url)) => if is_issue_closed_line(en.lines) {
            match url_suffix_id(url, "#event-"@) {
                Some(id) => if id <= usize::MAX {
                    Some(ReqV::IssueEvent { repo: issue.repo, event_id: id })
                } else {
                    None
                },
                None => None,
            }
        } else {
            None
        },
        _ => None,
    }
}

pub(super) fn query<'a>(enotif: &'a EmailNotif) -> (r: Option<LookupRequest<'a>>)
    ensures
        match r {
            Some(req) => query_spec(enotif@) == Some(req@),
            None => query_spec(enotif@) is None,
        },
{
    match (&enotif.detected_issue, &enotif.github_url) {
        (Some(issue), Some(url)) => {
            if enotif.lines.len() == 0 {
                return None;
            }
            let l = enotif.lines[0].as_str();
            if !str_starts_with(l, "Closed #") && !str_starts_with(l, "Merged") {
                return None;
            }
            match find_url_suffix_id(url.as_str(), "#event-") {
                Some(id) => Some(
                    LookupRequest::IssueEvent(GetIssueEventParams { repo: &issue.repo, event_id: id }),
                ),
                None => None,
            }
        },
        _ => None,
    }
}

pub open spec fn complete_spec(en: EmailNotifV, o: OutcomeV) -> Result<
    Option<NotifDetailV>,
    NotifErrorV,
> {
    match (en.detected_issue, o) {
        (Some(issue), OutcomeV::IssueEvent(Some(ev))) => Ok(
            Some(
                NotifDetailV::IssueClosed {
                    closer: ev.actor,
                    issue: issue,
                    is_merge: ev.event == "merged"@,
                },
            ),
        ),
        _ => Ok(None),
    }
}

pub(super) fn complete(enotif: &EmailNotif, outcome: LookupOutcome) -> (r: Result<
    Option<Notification>,
    NotifError,
>)
    ensures
        reflects_complete(r, complete_spec(enotif@, outcome@)),
{
    match (&enotif.detected_issue, outcome) {
        (Some(issue), LookupOutcome::IssueEvent(Some(ev))) => {
            let is_merge = str_eq(ev.event.as_str(), "merged");
            Ok(
                Some(
                    Notification {
                        detail: NotifDetail::IssueClosed {
                            closer: ev.actor,
                            issue: issue.duplicate(),
                            is_merge,
                        },
                    },
                ),
            )
        },
        _ => Ok(None),
    }
}

} // verus!
