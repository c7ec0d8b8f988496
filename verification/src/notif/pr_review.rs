//! Second matcher: a pull-request review was submitted. Triggered by a
//! permalink ending in a review id; completed by a review lookup. The
//! comment text is taken from the email body — between the review's head
//! comment line and the `-- ` footer — because it also carries the
//! discussion comments submitted with the review.

use crate::errors::{NotifError, NotifErrorV};
use crate::github::{
    find_url_suffix_id, url_suffix_id, EmailNotif, EmailNotifV, GetPrReviewParams, Review,
    ReviewState,
};
use crate::notif::{
    reflects_complete, LookupOutcome, LookupRequest, NotifDetail, NotifDetailV, Notification,
    OutcomeV, ReqV,
};
use crate::strutil::{join_strings, join_with, str_trim, trim_spec};
use vstd::prelude::*;

verus! {

pub open spec fn query_spec(en: EmailNotifV) -> Option<ReqV> {
    match (en.detected_issue, en.github_url) {
        (Some(issue), Some(url)) => match url_suffix_id(url, "#pullrequestreview-"@) {
            Some(id) => if id <= usize::MAX {
                Some(
                    ReqV::PrReview {
                        repo: issue.repo,
                        pr_number: issue.number,
                        review_id: id,
                    },
                )
            } else {
                None
            },
            None => None,
        },
        _ => None,
    }
}

pub(super) fn query<'a>(enotif: &'a EmailNotif) -> (r: Option<LookupRequest<'a>>)
    ensures
        match r {
            Some(req) => query_spec(enotif@) == Some(req@),
            None => query_spec(enotif@) is None,
        },
{
    match (&enotif.detected_issue, &enotif.github_url) {
        (Some(issue), Some(url)) => match find_url_suffix_id(url.as_str(), "#pullrequestreview-") {
            Some(id) => Some(
                LookupRequest::PrReview(
                    GetPrReviewParams {
                        repo: &issue.repo,
                        pr_number: issue.number,
                        review_id: id,
                    },
                ),
            ),
            None => None,
        },
        _ => None,
    }
}

/// The verb of the head comment line, by review state.
pub open spec fn review_verb(state: ReviewState) -> Seq<char> {
    match state {
        ReviewState::Commented => " commented on this pull request."@,
        ReviewState::Approved => " approved this pull request."@,
        ReviewState::ChangesRequested => " requested changes on this pull request."@,
        ReviewState::Dismissed => " dismissed this pull request review."@,
    }
}

/// The line that opens the review's comment text in the email body.
pub open spec fn review_head_comment_spec(login: Seq<char>, state: ReviewState) -> Seq<char> {
    seq!['@'] + login + review_verb(state)
}

/// Builds the head comment line of a review.
pub fn review_head_comment(review: &Review) -> (r: String)
    ensures
        r@ == review_head_comment_spec(review@.user.login, review@.state),
{
    proof {
        reveal_strlit("@");
    }
    let mut out = String::from_str("@");
    out.append(review.user.login.as_str());
    match review.state {
        ReviewState::Commented => out.append(" commented on this pull request."),
        ReviewState::Approved => out.append(" approved this pull request."),
        ReviewState::ChangesRequested => out.append(" requested changes on this pull request."),
        ReviewState::Dismissed => out.append(" dismissed this pull request review."),
    }
    assert(out@ =~= review_head_comment_spec(review@.user.login, review@.state));
    out
}

/// Index of the first line at or after `i` equal to `target`, or the number
/// of lines.
pub open spec fn line_eq_from(lines: Seq<Seq<char>>, target: Seq<char>, i: int) -> int
    decreases lines.len() - i,
{
    if i < 0 || i >= lines.len() {
        lines.len() as int
    } else if lines[i] == target {
        i
    } else {
        line_eq_from(lines, target, i + 1)
    }
}

/// Index of the last line before `j` equal to `target`, or -1.
pub open spec fn line_eq_until(lines: Seq<Seq<char>>, target: Seq<char>, j: int) -> int
    decreases j,
{
    if j <= 0 || j > lines.len() {
        -1
    } else if lines[j - 1] == target {
        j - 1
    } else {
        line_eq_until(lines, target, j - 1)
    }
}

/// The review's whole comment text: the lines strictly between the head
/// comment line and the last `-- ` footer line, with one leading and one
/// trailing blank line removed, joined by line feeds. `None` when the head
/// or footer is missing or the region between them is empty — the email does
/// not have the shape the host sends.
pub open spec fn extract_whole_comments_spec(
    lines: Seq<Seq<char>>,
    login: Seq<char>,
    state: ReviewState,
) -> Option<Seq<char>> {
    let head = review_head_comment_spec(login, state);
    let h = line_eq_from(lines, head, 0);
    let f = line_eq_until(lines, "-- "@, lines.len() as int);
    if h == lines.len() || f < 0 || f <= h + 1 {
        None
    } else {
        let s = lines.subrange(h + 1, f);
        let s1 = if trim_spec(s[0]).len() == 0 {
            s.drop_first()
        } else {
            s
        };
        if s1.len() == 0 {
            None
        } else {
            let s2 = if trim_spec(s1.last()).len() == 0 {
                s1.drop_last()
            } else {
                s1
            };
            Some(join_with(s2, seq!['\n']))
        }
    }
}

/// Extracts the review's whole comment text from the email body; the rule is
/// `extract_whole_comments_spec`.
#[verifier::loop_isolation(false)]
pub fn extract_whole_comments(lines: &Vec<String>, review: &Review) -> (r: Result<
    String,
    NotifError,
>)
    ensures
        match r {
            Ok(c) => extract_whole_comments_spec(
                lines.deep_view(),
                review@.user.login,
                review@.state,
            ) == Some(c@),
            Err(e) => extract_whole_comments_spec(
                lines.deep_view(),
                review@.user.login,
                review@.state,
            ) is None && e@ == NotifErrorV::MalformedReviewEmail,
        },
{
    let ghost lv = lines.deep_view();
    let head = review_head_comment(review);
    let n = lines.len();
    let mut h: usize = 0;
    while h < n && !lines[h].eq(&head)
        invariant
            n == lines.len(),
            h <= n,
            line_eq_from(lv, head@, 0) == line_eq_from(lv, head@, h as int),
        decreases n - h,
    {
        h = h + 1;
    }
    assert(line_eq_from(lv, head@, 0) == h);
    if h == n {
        return Err(NotifError::MalformedReviewEmail);
    }
    proof {
        reveal_strlit("-- ");
    }
    let footer = String::from_str("-- ");
    let mut f: usize = n;
    while f > 0 && !lines[f - 1].eq(&footer)
        invariant
            n == lines.len(),
            f <= n,
            line_eq_until(lv, "-- "@, n as int) == line_eq_until(lv, "-- "@, f as int),
        decreases f,
    {
        f = f - 1;
    }
    if f == 0 {
        assert(line_eq_until(lv, "-- "@, n as int) == -1);
        return Err(NotifError::MalformedReviewEmail);
    }
    let f = f - 1;
    assert(line_eq_until(lv, "-- "@, n as int) == f);
    if f <= h + 1 {
        return Err(NotifError::MalformedReviewEmail);
    }
    let mut parts: Vec<String> = Vec::new();
    let mut i: usize = h + 1;
    while i < f
        invariant
            n == lines.len(),
            h + 1 <= i <= f <= n,
            parts.deep_view() =~= lv.subrange(h + 1, i as int),
        decreases f - i,
    {
        parts.push(lines[i].clone());
        assert(parts.deep_view() =~= lv.subrange(h + 1, i + 1));
        i = i + 1;
    }
    let ghost s = lv.subrange(h + 1, f as int);
    let first_trimmed = str_trim(parts[0].as_str());
    if first_trimmed.as_str().is_empty() {
        parts.remove(0);
        assert(parts.deep_view() =~= s.drop_first());
    }
    if parts.len() == 0 {
        return Err(NotifError::MalformedReviewEmail);
    }
    let last_trimmed = str_trim(parts[parts.len() - 1].as_str());
    let ghost s1 = parts.deep_view();
    if last_trimmed.as_str().is_empty() {
        parts.pop();
        assert(parts.deep_view() =~= s1.drop_last());
    }
    proof {
        reveal_strlit("\n");
        assert("\n"@ =~= seq!['\n']);
    }
    let joined = join_strings(&parts, "\n");
    Ok(joined)
}

pub open spec fn complete_spec(en: EmailNotifV, o: OutcomeV) -> Result<
    Option<NotifDetailV>,
    NotifErrorV,
> {
    match (en.detected_issue, en.github_url, o) {
        (Some(issue), Some(url), OutcomeV::PrReview(Some(review))) => {
            match extract_whole_comments_spec(en.lines, review.user.login, review.state) {
                Some(c) => Ok(
                    Some(
                        NotifDetailV::PrReviewed {
                            url: url,
                            pr: issue,
                            state: review.state,
                            commenter: review.user,
                            comment: c,
                        },
                    ),
                ),
                None => Err(NotifErrorV::MalformedReviewEmail),
            }
        },
        _ => Ok(None),
    }
}

pub(super) fn complete(enotif: &EmailNotif, outcome: LookupOutcome) -> (r: Result<
    Option<Notification>,
    NotifError,
>)
    ensures
        reflects_complete(r, complete_spec(enotif@, outcome@)),
{
    match (&enotif.detected_issue, &enotif.github_url, outcome) {
        (Some(issue), Some(url), LookupOutcome::PrReview(Some(review))) => {
            match extract_whole_comments(&enotif.lines, &review) {
                Ok(comment) => Ok(
                    Some(
                        Notification {
                            detail: NotifDetail::PrReviewed {
                                url: url.clone(),
                                pr: issue.duplicate(),
                                state: review.state,
                                commenter: review.user,
                                comment,
                            },
                        },
                    ),
                ),
                Err(e) => Err(e),
            }
        },
        _ => Ok(None),
    }
}

} // verus!
