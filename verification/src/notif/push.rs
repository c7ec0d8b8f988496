//! Eighth matcher: commits were pushed to a pull request. Triggered by a
//! first line `@user pushed N commits.`; completed by a user lookup. The
//! commit list is scanned from the body, and a count that differs from the
//! declared one is a broken invariant that aborts the cycle.

use crate::errors::{NotifError, NotifErrorV};
use crate::github::{CommitInfo, CommitInfoV, EmailNotif, EmailNotifV, GetUserParams};
use crate::notif::{
    reflects_complete, LookupOutcome, LookupRequest, NotifDetail, NotifDetailV, Notification,
    OutcomeV, ReqV,
};
use crate::strutil::{
    ascii_ws_from, digits_val, find_ascii_ws_from, find_non_ascii_ws_from, find_non_digit_from,
    find_ws_from, is_digit, lemma_digits_val_bounds, matches_at, non_ascii_ws_from, non_digit_from,
    parse_usize, str_matches_at, ws_from,
};
use vstd::prelude::*;

verus! {

/// The pushing login and the declared commit count captured by
/// `@<login> pushed <N> commit(s)....`.
pub open spec fn capture_push(line: Seq<char>) -> Option<(Seq<char>, int)> {
    if line.len() >= 1 && line[0] == '@' {
        let e = ws_from(line, 1);
        if e > 1 && matches_at(line, e, " pushed "@) {
            let d0 = e + (" pushed "@).len();
            let dend = non_digit_from(line, d0);
            if dend > d0 && (matches_at(line, dend, " commits."@) || matches_at(
                line,
                dend,
                " commit."@,
            )) {
                Some((line.subrange(1, e), digits_val(line.subrange(d0, dend))))
            } else {
                None
            }
        } else {
            None
        }
    } else {
        None
    }
}

/// Recognises `capture_push`; `None` also when the count does not fit in
/// `usize`.
pub(super) fn find_capture_push<'a>(line: &'a str) -> (r: Option<(&'a str, usize)>)
    ensures
        match capture_push(line@) {
            Some((user, count)) => if count <= usize::MAX {
                r matches Some((u, c)) && u@ == user && c as int == count
            } else {
                r is None
            },
            None => r is None,
        },
{
    let ln = line.unicode_len();
    if ln < 1 || line.get_char(0) != '@' {
        return None;
    }
    let e = find_ws_from(line, 1);
    if e <= 1 {
        return None;
    }
    if !str_matches_at(line, e, " pushed ") {
        return None;
    }
    proof {
        reveal_strlit(" pushed ");
    }
    let d0 = e + 8;
    assert(d0 <= line@.len());
    let dend = find_non_digit_from(line, d0);
    if dend <= d0 {
        return None;
    }
    if !str_matches_at(line, dend, " commits.") && !str_matches_at(line, dend, " commit.") {
        return None;
    }
    let ghost d = line@.subrange(d0 as int, dend as int);
    proof {
        crate::strutil::lemma_non_digit_from(line@, d0 as int);
        assert forall|i: int| 0 <= i < d.len() implies is_digit(#[trigger] d[i]) by {
            assert(d[i] == line@[d0 + i]);
        }
        lemma_digits_val_bounds(d);
    }
    match parse_usize(line, d0, dend) {
        Some(count) => Some((line.substring_char(1, e), count)),
        None => None,
    }
}

pub open spec fn query_spec(en: EmailNotifV) -> Option<ReqV> {
    match (en.detected_issue, en.github_url) {
        (Some(issue), Some(url)) => if en.lines.len() > 0 {
            match capture_push(en.lines[0]) {
                Some((user, count)) => if count <= usize::MAX {
                    Some(ReqV::User { name: user })
                } else {
                    None
                },
                None => None,
            }
        } else {
            None
        },
        _ => None,
    }
}

pub(super) fn query<'a>(enotif: &'a EmailNotif) -> (r: Option<LookupRequest<'a>>)
    ensures
        match r {
            Some(req) => query_spec(enotif@) == Some(req@),
            None => query_spec(enotif@) is None,
        },
{
    match (&enotif.detected_issue, &enotif.github_url) {
        (Some(_), Some(_)) => {
            if enotif.lines.len() == 0 {
                return None;
            }
            match find_capture_push(enotif.lines[0].as_str()) {
                Some((user, _)) => Some(LookupRequest::User(GetUserParams { name: user })),
                None => None,
            }
        },
        _ => None,
    }
}

/// A lowercase hexatrigesimal-safe hash character: a lowercase letter or a
/// digit, as commit hashes are printed.
pub open spec fn is_hash_char(c: char) -> bool {
    ('a' <= c && c <= 'z') || ('0' <= c && c <= '9')
}

/// The commit a body line describes, when its first token opens with 40 hash
/// characters: the whole first token as the hash, the second token as the
/// message.
pub open spec fn commit_of_line(line: Seq<char>) -> Option<CommitInfoV> {
    let a = non_ascii_ws_from(line, 0);
    if a >= line.len() {
        None
    } else {
        let e = ascii_ws_from(line, a);
        let b = non_ascii_ws_from(line, e);
        if b >= line.len() {
            None
        } else {
            let f = ascii_ws_from(line, b);
            if e - a >= 40 && (forall|k: int| a <= k < a + 40 ==> is_hash_char(#[trigger] line[k])) {
                Some(CommitInfoV { hash: line.subrange(a, e), message: line.subrange(b, f) })
            } else {
                None
            }
        }
    }
}

/// The commits of all body lines, in body order.
pub open spec fn commits_of(lines: Seq<Seq<char>>) -> Seq<CommitInfoV>
    decreases lines.len(),
{
    if lines.len() == 0 {
        Seq::empty()
    } else {
        let rest = commits_of(lines.drop_last());
        match commit_of_line(lines.last()) {
            Some(c) => rest.push(c),
            None => rest,
        }
    }
}

/// The commit a body line describes, by `commit_of_line`.
#[verifier::loop_isolation(false)]
fn extract_commit_of_line(line: &str) -> (r: Option<CommitInfo>)
    ensures
        r.deep_view() == commit_of_line(line@),
{
    let ln = line.unicode_len();
    let a = find_non_ascii_ws_from(line, 0);
    if a >= ln {
        return None;
    }
    let e = find_ascii_ws_from(line, a);
    let b = find_non_ascii_ws_from(line, e);
    if b >= ln {
        return None;
    }
    let f = find_ascii_ws_from(line, b);
    if e - a < 40 {
        return None;
    }
    let mut k: usize = a;
    while k < a + 40
        invariant
            a + 40 <= e <= line@.len(),
            a <= k <= a + 40,
            forall|j: int| a <= j < k ==> is_hash_char(#[trigger] line@[j]),
        decreases a + 40 - k,
    {
        let c = line.get_char(k);
        if !(('a' <= c && c <= 'z') || ('0' <= c && c <= '9')) {
            return None;
        }
        k = k + 1;
    }
    let hash = String::from_str(line.substring_char(a, e));
    let message = String::from_str(line.substring_char(b, f));
    Some(CommitInfo { hash, message })
}

/// Collects the commits of all body lines; the rule is `commits_of`.
pub fn extract_commit_info(lines: &Vec<String>) -> (r: Vec<CommitInfo>)
    ensures
        r.deep_view() == commits_of(lines.deep_view()),
{
    let mut out: Vec<CommitInfo> = Vec::new();
    let n = lines.len();
    for i in 0..n
        invariant
            n == lines.len(),
            out.deep_view() =~= commits_of(lines.deep_view().take(i as int)),
    {
        proof {
            assert(lines.deep_view().take(i + 1).drop_last() =~= lines.deep_view().take(i as int));
            assert(lines.deep_view().take(i + 1).last() == lines.deep_view()[i as int]);
        }
        match extract_commit_of_line(lines[i].as_str()) {
            Some(c) => {
                out.push(c);
                assert(out.deep_view() =~= commits_of(lines.deep_view().take(i + 1)));
            },
            None => {
                assert(out.deep_view() =~= commits_of(lines.deep_view().take(i + 1)));
            },
        }
    }
    assert(lines.deep_view().take(n as int) =~= lines.deep_view());
    out
}

pub open spec fn complete_spec(en: EmailNotifV, o: OutcomeV) -> Result<
    Option<NotifDetailV>,
    NotifErrorV,
> {
    match (en.detected_issue, en.github_url, o) {
        (Some(issue), Some(url), OutcomeV::User(Some(u))) => if en.lines.len() > 0 {
            match capture_push(en.lines[0]) {
                Some((user, count)) => if count > usize::MAX {
                    Ok(None)
                } else {
                    let commits = commits_of(en.lines);
                    if commits.len() != count {
                        Err(
                            NotifErrorV::CommitCountMismatch {
                                expected: count,
                                found: commits.len() as int,
                            },
                        )
                    } else {
                        Ok(
                            Some(
                                NotifDetailV::Pushed {
                                    pr: issue,
                                    diff_url: url,
                                    committer: u,
                                    commits: commits,
                                },
                            ),
                        )
                    }
                },
                None => Ok(None),
            }
        } else {
            Ok(None)
        },
        _ => Ok(None),
    }
}


pub(super) fn complete(enotif: &EmailNotif, outcome: LookupOutcome) -> (r: Result<
    Option<Notification>,
    NotifError,
>)
    ensures
        reflects_complete(r, complete_spec(enotif@, outcome@)),
{
    match (&enotif.detected_issue, &enotif.github_url, outcome) {
        (Some(issue), Some(url), LookupOutcome::User(Some(u))) => {
            if enotif.lines.len() == 0 {
                return Ok(None);
            }
            match find_capture_push(enotif.lines[0].as_str()) {
                Some((_, count)) => {
                    let commits = extract_commit_info(&enotif.lines);
                    if commits.len() != count {
                        Err(
                            NotifError::CommitCountMismatch {
                                expected: count,
                                found: commits.len(),
                            },
                        )
                    } else {
                        Ok(
                            Some(
                                Notification {
                                    detail: NotifDetail::Pushed {
                                        pr: issue.duplicate(),
                                        diff_url: url.clone(),
                                        committer: u,
                                        commits,
                                    },
                                },
                            ),
                        )
                    }
                },
                None => Ok(None),
            }
        },
        _ => Ok(None),
    }
}

} // verus!
