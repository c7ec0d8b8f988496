//! Fifth matcher: a review was requested from a team. Triggered by a first
//! line of the form `@user requested review from @team on:`; completed by a
//! user lookup. The orchestrator later tries to unsubscribe from such pull
//! requests, and the formatter never posts this kind.

use crate::errors::{NotifError, NotifErrorV};
use crate::github::{EmailNotif, EmailNotifV, GetUserParams};
use crate::notif::{
    reflects_complete, LookupOutcome, LookupRequest, NotifDetail, NotifDetailV, Notification,
    OutcomeV, ReqV,
};
use crate::strutil::{find_ws_from, matches_at, str_matches_at, ws_from};
use vstd::prelude::*;

verus! {

/// The requesting login and the team captured by
/// `@<login> requested review from @<team> on:...`: each is a maximal
/// non-empty non-whitespace run.
pub open spec fn capture_team(line: Seq<char>) -> Option<(Seq<char>, Seq<char>)> {
    if line.len() >= 1 && line[0] == '@' {
        let e1 = ws_from(line, 1);
        if e1 > 1 && matches_at(line, e1, " requested review from @"@) {
            let t0 = e1 + (" requested review from @"@).len();
            let e2 = ws_from(line, t0);
            if e2 > t0 && matches_at(line, e2, " on:"@) {
                Some((line.subrange(1, e1), line.subrange(t0, e2)))
            } else {
                None
            }
        } else {
            None
        }
    } else {
        None
    }
}

/// Recognises `capture_team` and hands out the two captures.
pub(super) fn find_capture_team<'a>(line: &'a str) -> (r: Option<(&'a str, &'a str)>)
    ensures
        match r {
            Some((user, team)) => capture_team(line@) == Some((user@, team@)),
            None => capture_team(line@) is None,
        },
{
    let ln = line.unicode_len();
    if ln < 1 || line.get_char(0) != '@' {
        return None;
    }
    let e1 = find_ws_from(line, 1);
    if e1 <= 1 {
        return None;
    }
    if !str_matches_at(line, e1, " requested review from @") {
        return None;
    }
    proof {
        reveal_strlit(" requested review from @");
    }
    let t0 = e1 + 24;
    assert(t0 <= line@.len());
    let e2 = find_ws_from(line, t0);
    if e2 <= t0 {
        return None;
    }
    if !str_matches_at(line, e2, " on:") {
        return None;
    }
    Some((line.substring_char(1, e1), line.substring_char(t0, e2)))
}

pub open spec fn query_spec(en: EmailNotifV) -> Option<ReqV> {
    match (en.detected_issue, en.github_url) {
        (Some(issue), Some(url)) => if en.lines.len() > 0 {
            match capture_team(en.lines[0]) {
                Some((user, team)) => Some(ReqV::User { name: user }),
                None => None,
            }
        } else {
            None
        },
        _ => None,
    }
}

pub(super) fn query<'a>(enotif: &'a EmailNotif) -> (r: Option<LookupRequest<'a>>)
    ensures
        match r {
            Some(req) => query_spec(enotif@) == Some(req@),
            None => query_spec(enotif@) is None,
        },
{
    match (&enotif.detected_issue, &enotif.github_url) {
        (Some(_), Some(_)) => {
            if enotif.lines.len() == 0 {
                return None;
            }
            match find_capture_team(enotif.lines[0].as_str()) {
                Some((user, _)) => Some(LookupRequest::User(GetUserParams { name: user })),
                None => None,
            }
        },
        _ => None,
    }
}

pub open spec fn complete_spec(en: EmailNotifV, o: OutcomeV) -> Result<
    Option<NotifDetailV>,
    NotifErrorV,
> {
    match (en.detected_issue, o) {
        (Some(issue), OutcomeV::User(Some(u))) => if en.lines.len() > 0 {
            match capture_team(en.lines[0]) {
                Some((user, team)) => Ok(
                    Some(NotifDetailV::TeamReviewRequested { reviewee: u, pr: issue, team: team }),
                ),
                None => Ok(None),
            }
        } else {
            Ok(None)
        },
        _ => Ok(None),
    }
}

pub(super) fn complete(enotif: &EmailNotif, outcome: LookupOutcome) -> (r: Result<
    Option<Notification>,
    NotifError,
>)
    ensures
        reflects_complete(r, complete_spec(enotif@, outcome@)),
{
    match (&enotif.detected_issue, outcome) {
        (Some(issue), LookupOutcome::User(Some(u))) => {
            if enotif.lines.len() == 0 {
                return Ok(None);
            }
            match find_capture_team(enotif.lines[0].as_str()) {
                Some((_, team)) => Ok(
                    Some(
                        Notification {
                            detail: NotifDetail::TeamReviewRequested {
                                reviewee: u,
                                pr: issue.duplicate(),
                                team: String::from_str(team),
                            },
                        },
                    ),
                ),
                None => Ok(None),
            }
        },
        _ => Ok(None),
    }
}

} // verus!
