//! Data model of the source-control host: users, repositories, issues,
//! reviews, and the parsed form of a notification email, together with the
//! grammar that recognises issue subjects and permalink footers.

pub mod graphql;

use crate::email::Email;
use crate::strutil::{
    char_from, digit_run_start, digits_val, find_char_from, find_digit_run_start, is_digit,
    lemma_digit_run_start, matches_at, parse_usize, remove_cr,
    split_char, split_str, starts_with, str_starts_with, str_trim, strip_cr, trim_spec,
};
use vstd::prelude::*;

verus! {

/// Token for the source-control host's API.
pub struct Credentials {
    pub auth_token: String,
}

/// An account on the source-control host.
pub struct User {
    pub login: String,
    pub avatar_url: String,
}

pub ghost struct UserV {
    pub login: Seq<char>,
    pub avatar_url: Seq<char>,
}

impl View for User {
    type V = UserV;

    open spec fn view(&self) -> UserV {
        UserV { login: self.login@, avatar_url: self.avatar_url@ }
    }
}

impl DeepView for User {
    type V = UserV;

    open spec fn deep_view(&self) -> UserV {
        self.view()
    }
}

impl User {
    pub fn duplicate(&self) -> (r: User)
        ensures
            r@ == self@,
    {
        User { login: self.login.clone(), avatar_url: self.avatar_url.clone() }
    }
}

pub struct Repository {
    pub owner: String,
    pub name: String,
}

pub ghost struct RepositoryV {
    pub owner: Seq<char>,
    pub name: Seq<char>,
}

impl View for Repository {
    type V = RepositoryV;

    open spec fn view(&self) -> RepositoryV {
        RepositoryV { owner: self.owner@, name: self.name@ }
    }
}

impl DeepView for Repository {
    type V = RepositoryV;

    open spec fn deep_view(&self) -> RepositoryV {
        self.view()
    }
}

impl Repository {
    /// `owner/name`.
    pub fn fullname(&self) -> (r: String)
        ensures
            r@ == self@.owner + "/"@ + self@.name,
    {
        let mut out = self.owner.clone();
        out.append("/");
        out.append(self.name.as_str());
        out
    }

    pub fn duplicate(&self) -> (r: Repository)
        ensures
            r@ == self@,
    {
        Repository { owner: self.owner.clone(), name: self.name.clone() }
    }
}

/// An issue or pull request as named by an email subject.
pub struct IssueInfo {
    pub repo: Repository,
    pub number: usize,
    pub title: String,
}

pub ghost struct IssueInfoV {
    pub repo: RepositoryV,
    pub number: int,
    pub title: Seq<char>,
}

impl View for IssueInfo {
    type V = IssueInfoV;

    open spec fn view(&self) -> IssueInfoV {
        IssueInfoV { repo: self.repo@, number: self.number as int, title: self.title@ }
    }
}

impl DeepView for IssueInfo {
    type V = IssueInfoV;

    open spec fn deep_view(&self) -> IssueInfoV {
        self.view()
    }
}

impl IssueInfo {
    pub fn duplicate(&self) -> (r: IssueInfo)
        ensures
            r@ == self@,
    {
        IssueInfo { repo: self.repo.duplicate(), number: self.number, title: self.title.clone() }
    }
}

/// One commit of a push notification: its hash and the first word of its
/// message line.
pub struct CommitInfo {
    pub hash: String,
    pub message: String,
}

pub ghost struct CommitInfoV {
    pub hash: Seq<char>,
    pub message: Seq<char>,
}

impl View for CommitInfo {
    type V = CommitInfoV;

    open spec fn view(&self) -> CommitInfoV {
        CommitInfoV { hash: self.hash@, message: self.message@ }
    }
}

impl DeepView for CommitInfo {
    type V = CommitInfoV;

    open spec fn deep_view(&self) -> CommitInfoV {
        self.view()
    }
}

/// A forwarded notification email in parsed form: its body lines, the issue
/// its subject names, and the permalink of its footer.
pub struct EmailNotif {
    pub lines: Vec<String>,
    pub detected_issue: Option<IssueInfo>,
    pub github_url: Option<String>,
}

pub ghost struct EmailNotifV {
    pub lines: Seq<Seq<char>>,
    pub detected_issue: Option<IssueInfoV>,
    pub github_url: Option<Seq<char>>,
}

impl View for EmailNotif {
    type V = EmailNotifV;

    open spec fn view(&self) -> EmailNotifV {
        EmailNotifV {
            lines: self.lines.deep_view(),
            detected_issue: self.detected_issue.deep_view(),
            github_url: self.github_url.deep_view(),
        }
    }
}

/// An issue as the host's API returns it.
pub struct Issue {
    pub html_url: String,
    pub state: IssueState,
    pub number: usize,
    pub title: String,
    pub user: User,
}

#[derive(Clone, Copy, PartialEq, Eq, Structural, Debug)]
pub enum IssueState {
    Open,
    Closed,
}

pub ghost struct IssueV {
    pub html_url: Seq<char>,
    pub state: IssueState,
    pub number: int,
    pub title: Seq<char>,
    pub user: UserV,
}

impl View for Issue {
    type V = IssueV;

    open spec fn view(&self) -> IssueV {
        IssueV {
            html_url: self.html_url@,
            state: self.state,
            number: self.number as int,
            title: self.title@,
            user: self.user@,
        }
    }
}

impl DeepView for Issue {
    type V = IssueV;

    open spec fn deep_view(&self) -> IssueV {
        self.view()
    }
}

/// An issue event as the host's API returns it.
pub struct IssueEvent {
    pub event: String,
    pub actor: User,
    pub issue: Issue,
    pub pull_request: Option<IssueEventPr>,
}

pub struct IssueEventPr {
    url: String,
}

impl IssueEventPr {
    pub fn new(url: String) -> (r: IssueEventPr)
        ensures
            r@ == url@,
    {
        IssueEventPr { url }
    }
}

impl View for IssueEventPr {
    type V = Seq<char>;

    closed spec fn view(&self) -> Seq<char> {
        self.url@
    }
}

pub ghost struct IssueEventV {
    pub event: Seq<char>,
    pub actor: UserV,
    pub issue: IssueV,
    pub pull_request: Option<Seq<char>>,
}

impl View for IssueEvent {
    type V = IssueEventV;

    open spec fn view(&self) -> IssueEventV {
        IssueEventV {
            event: self.event@,
            actor: self.actor@,
            issue: self.issue@,
            pull_request: match self.pull_request {
                Some(ref pr) => Some(pr@),
                None => None,
            },
        }
    }
}

impl DeepView for IssueEvent {
    type V = IssueEventV;

    open spec fn deep_view(&self) -> IssueEventV {
        self.view()
    }
}

/// A pull-request review as the host's API returns it.
pub struct Review {
    pub user: User,
    pub body: String,
    pub state: ReviewState,
}

#[derive(Clone, Copy, PartialEq, Eq, Structural, Debug)]
pub enum ReviewState {
    Commented,
    Approved,
    ChangesRequested,
    Dismissed,
}

pub ghost struct ReviewV {
    pub user: UserV,
    pub body: Seq<char>,
    pub state: ReviewState,
}

impl View for Review {
    type V = ReviewV;

    open spec fn view(&self) -> ReviewV {
        ReviewV { user: self.user@, body: self.body@, state: self.state }
    }
}

impl DeepView for Review {
    type V = ReviewV;

    open spec fn deep_view(&self) -> ReviewV {
        self.view()
    }
}

/// A comment on an issue.
pub struct IssueComment {
    pub body: String,
    pub user: User,
}

pub ghost struct IssueCommentV {
    pub body: Seq<char>,
    pub user: UserV,
}

impl View for IssueComment {
    type V = IssueCommentV;

    open spec fn view(&self) -> IssueCommentV {
        IssueCommentV { body: self.body@, user: self.user@ }
    }
}

impl DeepView for IssueComment {
    type V = IssueCommentV;

    open spec fn deep_view(&self) -> IssueCommentV {
        self.view()
    }
}

/// A review comment on a pull request.
pub struct ReviewComment {
    pub user: User,
    pub body: String,
}

pub ghost struct ReviewCommentV {
    pub user: UserV,
    pub body: Seq<char>,
}

impl View for ReviewComment {
    type V = ReviewCommentV;

    open spec fn view(&self) -> ReviewCommentV {
        ReviewCommentV { user: self.user@, body: self.body@ }
    }
}

impl DeepView for ReviewComment {
    type V = ReviewCommentV;

    open spec fn deep_view(&self) -> ReviewCommentV {
        self.view()
    }
}

/// The closing run of a subject: a `#`, at least one decimal digit, and a
/// final `)` that ends the text.
pub open spec fn hash_digits_to_end(u: Seq<char>, p: int) -> bool {
    &&& 0 <= p
    &&& p + 3 <= u.len()
    &&& u[p] == '#'
    &&& u.last() == ')'
    &&& forall|i: int| p + 1 <= i < u.len() - 1 ==> is_digit(#[trigger] u[i])
}

/// At `j` the subject tail ` (#N)` or ` (PR #N)` begins and runs to the end.
pub open spec fn paren_tail_at(u: Seq<char>, j: int) -> bool {
    &&& 0 <= j
    &&& j + 2 <= u.len()
    &&& u[j] == ' '
    &&& u[j + 1] == '('
    &&& (hash_digits_to_end(u, j + 2) || (matches_at(u, j + 2, seq!['P', 'R', ' '])
        && hash_digits_to_end(u, j + 5)))
}

/// The issue number the tail starting at `j` denotes.
pub open spec fn tail_number(u: Seq<char>, j: int) -> int {
    if hash_digits_to_end(u, j + 2) {
        digits_val(u.subrange(j + 3, u.len() - 1))
    } else {
        digits_val(u.subrange(j + 6, u.len() - 1))
    }
}

/// The largest position at or below `j` where a subject tail begins, or -1.
/// The title is what precedes the tail, so the latest tail keeps it longest.
pub open spec fn last_paren_tail(u: Seq<char>, j: int) -> int
    decreases j + 1,
{
    if j < 1 {
        -1
    } else if paren_tail_at(u, j) {
        j
    } else {
        last_paren_tail(u, j - 1)
    }
}

/// Where the title of the subject remainder `u` ends: the latest tail start
/// that leaves a title free of line breaks, or -1 if `u` has no valid tail.
pub open spec fn title_end(u: Seq<char>) -> int {
    let limit = char_from(u, 0, '\n');
    last_paren_tail(u, if limit < u.len() { limit } else { u.len() as int })
}

/// Parses `[owner/name] title (#N)` (or `(PR #N)`): `owner` is everything
/// before the first `/`, `name` everything from there to the first `]`, and
/// the title the longest line-break-free text before the closing ` (#N)`.
/// `None` when the shape does not fit or the number does not fit in `usize`.
pub open spec fn subject_core(t: Seq<char>) -> Option<IssueInfoV> {
    if t.len() < 1 || t[0] != '[' {
        None
    } else {
        let fs = char_from(t, 0, '/');
        if fs >= t.len() || fs < 2 {
            None
        } else {
            let rb = char_from(t, fs + 1, ']');
            if rb >= t.len() || rb < fs + 2 || rb + 1 >= t.len() || t[rb + 1] != ' ' {
                None
            } else {
                let u = t.skip(rb + 2);
                let j = title_end(u);
                if j < 1 {
                    None
                } else if tail_number(u, j) > usize::MAX {
                    None
                } else {
                    Some(
                        IssueInfoV {
                            repo: RepositoryV {
                                owner: t.subrange(1, fs),
                                name: t.subrange(fs + 1, rb),
                            },
                            number: tail_number(u, j),
                            title: u.take(j),
                        },
                    )
                }
            }
        }
    }
}

/// What an email subject names: `subject_core` after an optional `Re: `.
pub open spec fn subject_issue(s: Seq<char>) -> Option<IssueInfoV> {
    if starts_with(s, seq!['R', 'e', ':', ' ']) {
        subject_core(s.skip(4))
    } else {
        subject_core(s)
    }
}

/// Recognises `hash_digits_to_end(u@, p)`.
fn check_hash_digits_to_end(u: &str, p: usize) -> (b: bool)
    requires
        p <= u@.len(),
    ensures
        b == hash_digits_to_end(u@, p as int),
{
    let un = u.unicode_len();
    if un < 3 || p > un - 3 {
        return false;
    }
    if u.get_char(p) != '#' || u.get_char(un - 1) != ')' {
        return false;
    }
    let drs = find_digit_run_start(u, un - 1);
    proof {
        lemma_digit_run_start(u@, un - 1);
    }
    if drs <= p + 1 {
        true
    } else {
        assert(!is_digit(u@[drs - 1]));
        false
    }
}

/// Recognises `paren_tail_at(u@, j)`.
fn check_paren_tail_at(u: &str, j: usize) -> (b: bool)
    requires
        j <= u@.len(),
    ensures
        b == paren_tail_at(u@, j as int),
{
    let un = u.unicode_len();
    if un < 2 || j > un - 2 {
        return false;
    }
    if u.get_char(j) != ' ' || u.get_char(j + 1) != '(' {
        return false;
    }
    if check_hash_digits_to_end(u, j + 2) {
        return true;
    }
    if un >= 5 && j <= un - 5 && u.get_char(j + 2) == 'P' && u.get_char(j + 3) == 'R' && u.get_char(
        j + 4,
    ) == ' ' {
        proof {
            assert(u@.subrange(j + 2, j + 5) =~= seq!['P', 'R', ' ']);
        }
        check_hash_digits_to_end(u, j + 5)
    } else {
        proof {
            if matches_at(u@, j + 2, seq!['P', 'R', ' ']) {
                assert(u@.subrange(j + 2, j + 5)[0] == 'P');
                assert(u@.subrange(j + 2, j + 5)[1] == 'R');
                assert(u@.subrange(j + 2, j + 5)[2] == ' ');
            }
        }
        false
    }
}

/// Parses the part of a subject after `[owner/name] `.
fn parse_subject_tail(u: &str) -> (r: Option<(usize, String)>)
    ensures
        match r {
            Some((number, title)) => {
                &&& title_end(u@) >= 1
                &&& tail_number(u@, title_end(u@)) == number as int
                &&& title@ == u@.take(title_end(u@))
            },
            None => title_end(u@) < 1 || tail_number(u@, title_end(u@)) > usize::MAX,
        },
{
    let un = u.unicode_len();
    let limit = find_char_from(u, 0, '\n');
    let start: usize = if limit < un {
        limit
    } else {
        un
    };
    let mut j: usize = start;
    let mut found = false;
    while j >= 1 && !found
        invariant
            start <= u@.len(),
            j <= start,
            found ==> 1 <= j && paren_tail_at(u@, j as int) && last_paren_tail(u@, start as int)
                == j,
            !found ==> last_paren_tail(u@, start as int) == last_paren_tail(u@, j as int),
        decreases j + if found {
            0int
        } else {
            1int
        },
    {
        if check_paren_tail_at(u, j) {
            found = true;
        } else {
            j = j - 1;
        }
    }
    if !found {
        assert(title_end(u@) < 1);
        return None;
    }
    assert(title_end(u@) == j);
    let number: Option<usize> = if check_hash_digits_to_end(u, j + 2) {
        parse_usize(u, j + 3, un - 1)
    } else {
        assert(hash_digits_to_end(u@, j + 5));
        parse_usize(u, j + 6, un - 1)
    };
    proof {
        if hash_digits_to_end(u@, j + 2) {
            let d = u@.subrange(j + 3, un - 1);
            assert(d.len() >= 1);
            assert forall|i: int| 0 <= i < d.len() implies is_digit(#[trigger] d[i]) by {
                assert(d[i] == u@[j + 3 + i]);
                assert(is_digit(u@[j + 3 + i]));
            }
            crate::strutil::lemma_digits_val_bounds(d);
        } else {
            let d = u@.subrange(j + 6, un - 1);
            assert(hash_digits_to_end(u@, j + 5));
            assert(d.len() >= 1);
            assert forall|i: int| 0 <= i < d.len() implies is_digit(#[trigger] d[i]) by {
                assert(d[i] == u@[j + 6 + i]);
                assert(is_digit(u@[j + 6 + i]));
            }
            crate::strutil::lemma_digits_val_bounds(d);
        }
    }
    match number {
        None => {
            assert(tail_number(u@, j as int) > usize::MAX);
            None
        },
        Some(n) => {
            let title = String::from_str(u.substring_char(0, j));
            assert(title@ =~= u@.take(j as int));
            Some((n, title))
        },
    }
}

/// Parses a subject such as `Re: [octo/demo] Fix typo (#1234)`; the grammar
/// is `subject_issue`.
pub fn issue_info_from_notif_subject(subject: &str) -> (r: Option<IssueInfo>)
    ensures
        r.deep_view() == subject_issue(subject@),
{
    let sn = subject.unicode_len();
    proof {
        reveal_strlit("Re: ");
        assert("Re: "@ =~= seq!['R', 'e', ':', ' ']);
    }
    let rest: &str = if str_starts_with(subject, "Re: ") {
        subject.substring_char(4, sn)
    } else {
        subject
    };
    let ghost t = if starts_with(subject@, seq!['R', 'e', ':', ' ']) {
        subject@.skip(4)
    } else {
        subject@
    };
    assert(rest@ =~= t);
    let tn = rest.unicode_len();
    if tn < 1 || rest.get_char(0) != '[' {
        return None;
    }
    let fs = find_char_from(rest, 0, '/');
    if fs >= tn || fs < 2 {
        return None;
    }
    let rb = find_char_from(rest, fs + 1, ']');
    if rb >= tn || rb < fs + 2 || rb + 1 >= tn || rest.get_char(rb + 1) != ' ' {
        return None;
    }
    let u = rest.substring_char(rb + 2, tn);
    assert(u@ =~= t.skip(rb + 2));
    match parse_subject_tail(u) {
        None => None,
        Some((number, title)) => {
            let owner = String::from_str(rest.substring_char(1, fs));
            let name = String::from_str(rest.substring_char(fs + 1, rb));
            assert(owner@ =~= t.subrange(1, fs as int));
            assert(name@ =~= t.subrange(fs + 1, rb as int));
            Some(IssueInfo { repo: Repository { owner, name }, number, title })
        },
    }
}

/// The number at the very end of `url` when it is immediately preceded by
/// `marker`: the maximal trailing digit run, which must be non-empty.
pub open spec fn url_suffix_id(url: Seq<char>, marker: Seq<char>) -> Option<int> {
    let k = digit_run_start(url, url.len() as int);
    if k < url.len() && k >= marker.len() && matches_at(url, k - marker.len(), marker) {
        Some(digits_val(url.subrange(k, url.len() as int)))
    } else {
        None
    }
}

/// Finds the trailing `marker`-prefixed id of `url`; `None` also when the id
/// does not fit in `usize`.
pub fn find_url_suffix_id(url: &str, marker: &str) -> (r: Option<usize>)
    ensures
        match url_suffix_id(url@, marker@) {
            Some(id) => id >= 0 && if id <= usize::MAX {
                r == Some(id as usize)
            } else {
                r is None
            },
            None => r is None,
        },
{
    let un = url.unicode_len();
    let k = find_digit_run_start(url, un);
    proof {
        lemma_digit_run_start(url@, un as int);
    }
    if k >= un {
        return None;
    }
    let mn = marker.unicode_len();
    if k < mn {
        return None;
    }
    if !crate::strutil::str_matches_at(url, k - mn, marker) {
        return None;
    }
    let ghost d = url@.subrange(k as int, un as int);
    proof {
        assert forall|i: int| 0 <= i < d.len() implies is_digit(#[trigger] d[i]) by {
            assert(d[i] == url@[k + i]);
        }
        crate::strutil::lemma_digits_val_bounds(d);
    }
    parse_usize(url, k, un)
}

/// The footer markers that may precede a permalink.
pub open spec fn link_marker(line: Seq<char>) -> bool {
    starts_with(line, "Reply to this email directly or view it on GitHub:"@) || starts_with(
        line,
        "View it on GitHub:"@,
    )
}

/// The permalink of an email body: the trimmed last line, when the line
/// before it is a footer marker and the trimmed last line is a host URL.
pub open spec fn github_link(lines: Seq<Seq<char>>) -> Option<Seq<char>> {
    if lines.len() < 2 {
        None
    } else {
        let url = trim_spec(lines.last());
        if link_marker(lines[lines.len() - 2]) && starts_with(url, "https://github.com"@) {
            Some(url)
        } else {
            None
        }
    }
}

/// Finds the permalink of an email body; the rule is `github_link`.
pub fn find_github_link(lines: &Vec<String>) -> (r: Option<String>)
    ensures
        r.deep_view() == github_link(lines.deep_view()),
{
    let n = lines.len();
    if n < 2 {
        return None;
    }
    let prev = &lines[n - 2];
    if str_starts_with(prev.as_str(), "Reply to this email directly or view it on GitHub:")
        || str_starts_with(prev.as_str(), "View it on GitHub:") {
        let url = str_trim(lines[n - 1].as_str());
        if str_starts_with(url.as_str(), "https://github.com") {
            assert(lines.deep_view().last() == lines[n - 1]@);
            return Some(url);
        }
    }
    None
}

/// The lines of an email body: carriage returns removed, split on line feeds.
pub open spec fn email_lines(text_body: Seq<char>) -> Seq<Seq<char>> {
    split_char(strip_cr(text_body), '\n')
}

/// Parses a forwarded email: its subject against `subject_issue`, its body
/// into `email_lines`, and the permalink against `github_link`.
pub fn build_notif_from_email(email: &Email) -> (r: EmailNotif)
    ensures
        r@.lines == email_lines(email.text_body@),
        r@.lines.len() >= 1,
        r@.detected_issue == subject_issue(email.subject@),
        r@.github_url == github_link(email_lines(email.text_body@)),
{
    let stripped = remove_cr(email.text_body.as_str());
    let lines = split_str(stripped.as_str(), '\n');
    let detected_issue = issue_info_from_notif_subject(email.subject.as_str());
    let github_url = find_github_link(&lines);
    EmailNotif { lines, detected_issue, github_url }
}

/// Arguments of a user lookup.
pub struct GetUserParams<'a> {
    pub name: &'a str,
}

/// Arguments of an issue lookup.
pub struct GetIssueParams<'a> {
    pub repo: &'a Repository,
    pub number: usize,
}

/// Arguments of an issue-comment lookup.
pub struct GetIssueCommentParams<'a> {
    pub repo: &'a Repository,
    pub comment_id: usize,
}

/// Arguments of an issue-event lookup.
pub struct GetIssueEventParams<'a> {
    pub repo: &'a Repository,
    pub event_id: usize,
}

/// Arguments of a pull-request review lookup.
pub struct GetPrReviewParams<'a> {
    pub repo: &'a Repository,
    pub pr_number: usize,
    pub review_id: usize,
}

/// Arguments of a review-comment lookup.
pub struct GetPrReviewCommentParams<'a> {
    pub repo: &'a Repository,
    pub review_comment_id: usize,
}

/// Arguments of the unsubscribe operation.
pub struct UnsubscribePrParams<'a> {
    pub repo: &'a Repository,
    pub number: usize,
    pub user_login: &'a str,
}

} // verus!
