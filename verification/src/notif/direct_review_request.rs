//! Fourth matcher: a review was requested from the recipient directly.
//! Triggered by a first line of the form `@user requested your review on:`;
//! completed by a user lookup.

use crate::errors::{NotifError, NotifErrorV};
use crate::github::{EmailNotif, EmailNotifV, GetUserParams};
use crate::notif::{
    reflects_complete, LookupOutcome, LookupRequest, NotifDetail, NotifDetailV, Notification,
    OutcomeV, ReqV,
};
use crate::strutil::{find_ws_from, matches_at, starts_with, ws_from};
use vstd::prelude::*;

verus! {

/// The login captured by `@<login><lit>...`: the maximal non-whitespace run
/// after a leading `@`, which must be non-empty and followed at once by
/// `lit`.
pub open spec fn capture_after_at(line: Seq<char>, lit: Seq<char>) -> Option<Seq<char>> {
    if line.len() >= 1 && line[0] == '@' {
        let e = ws_from(line, 1);
        if e > 1 && matches_at(line, e, lit) {
            Some(line.subrange(1, e))
        } else {
            None
        }
    } else {
        None
    }
}

/// Recognises `capture_after_at` and hands out the captured login.
pub(super) fn find_capture_after_at<'a>(line: &'a str, lit: &str) -> (r: Option<&'a str>)
    ensures
        match r {
            Some(user) => capture_after_at(line@, lit@) == Some(user@),
            None => capture_after_at(line@, lit@) is None,
        },
{
    let ln = line.unicode_len();
    if ln < 1 || line.get_char(0) != '@' {
        return None;
    }
    let e = find_ws_from(line, 1);
    if e <= 1 {
        return None;
    }
    if crate::strutil::str_matches_at(line, e, lit) {
        Some(line.substring_char(1, e))
    } else {
        None
    }
}

pub open spec fn query_spec(en: EmailNotifV) -> Option<ReqV> {
    match (en.detected_issue, en.github_url) {
        (Some(issue), Some(url)) => if en.lines.len() > 0 {
            match capture_after_at(en.lines[0], " requested your review on:"@) {
                Some(user) => Some(ReqV::User { name: user }),
                None => None,
            }
        } else {
            None
        },
        _ => None,
    }
}

pub(super) fn query<'a>(enotif: &'a EmailNotif) -> (r: Option<LookupRequest<'a>>)
    ensures
        match r {
            Some(req) => query_spec(enotif@) == Some(req@),
            None => query_spec(enotif@) is None,
        },
{
    match (&enotif.detected_issue, &enotif.github_url) {
        (Some(_), Some(_)) => {
            if enotif.lines.len() == 0 {
                return None;
            }
            match find_capture_after_at(
                enotif.lines[0].as_str(),
                " requested your review on:",
            ) {
                Some(user) => Some(LookupRequest::User(GetUserParams { name: user })),
                None => None,
            }
        },
        _ => None,
    }
}

pub open spec fn complete_spec(en: EmailNotifV, o: OutcomeV) -> Result<
    Option<NotifDetailV>,
    NotifErrorV,
> {
    match (en.detected_issue, o) {
        (Some(issue), OutcomeV::User(Some(u))) => Ok(
            Some(NotifDetailV::DirectReviewRequested { reviewee: u, pr: issue }),
        ),
        _ => Ok(None),
    }
}

pub(super) fn complete(enotif: &EmailNotif, outcome: LookupOutcome) -> (r: Result<
    Option<Notification>,
    NotifError,
>)
    ensures
        reflects_complete(r, complete_spec(enotif@, outcome@)),
{
    match (&enotif.detected_issue, outcome) {
        (Some(issue), LookupOutcome::User(Some(u))) => Ok(
            Some(
                Notification {
                    detail: NotifDetail::DirectReviewRequested {
                        reviewee: u,
                        pr: issue.duplicate(),
                    },
                },
            ),
        ),
        _ => Ok(None),
    }
}

} // verus!
