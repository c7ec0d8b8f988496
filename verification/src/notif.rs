//! The classification pipeline: an ordered chain of matchers that turns one
//! forwarded email into exactly one typed notification.
//!
//! Matchers that need a lookup from the source-control host express it as a
//! [`LookupRequest`]; the driver outside the library performs the call and
//! hands the [`LookupOutcome`] back. Every decision in between is verified.

pub mod direct_review_request;
pub mod issue_close;
pub mod issue_comment;
pub mod pr_open;
pub mod pr_review;
pub mod pr_review_comment;
pub mod push;
pub mod team_review_request;
pub mod workflow_cancelled;

use crate::email::{Email, EmailV};
use crate::errors::{NotifError, NotifErrorV};
use crate::github::{
    CommitInfoV, EmailNotif, EmailNotifV, GetIssueCommentParams, GetIssueEventParams,
    GetIssueParams, GetPrReviewCommentParams, GetPrReviewParams, GetUserParams, Issue, IssueComment,
    IssueEvent, IssueInfoV, RepositoryV, Review, ReviewComment, ReviewState, User, UserV,
};
use crate::strutil::clone_string_vec;
use vstd::prelude::*;

verus! {

/// One typed notification, ready for formatting.
pub struct Notification {
    pub detail: NotifDetail,
}

/// The kinds of notification the matcher chain produces.
pub enum NotifDetail {
    Unknown { sender: String, body: Vec<String> },
    PrOpened { opener: User, pr: crate::github::IssueInfo },
    PrReviewed {
        url: String,
        pr: crate::github::IssueInfo,
        state: ReviewState,
        commenter: User,
        comment: String,
    },
    PrReviewCommented { url: String, pr: crate::github::IssueInfo, commenter: User, comment: String },
    DirectReviewRequested { reviewee: User, pr: crate::github::IssueInfo },
    TeamReviewRequested { reviewee: User, pr: crate::github::IssueInfo, team: String },
    IssueClosed { closer: User, issue: crate::github::IssueInfo, is_merge: bool },
    Commented { url: String, issue: crate::github::IssueInfo, commenter: User, comment: String },
    Pushed {
        pr: crate::github::IssueInfo,
        diff_url: String,
        committer: User,
        commits: Vec<crate::github::CommitInfo>,
    },
    WorkflowCancelled {
        sender_name: String,
        repo_fullname: String,
        workflow_name: String,
        result_url: String,
    },
}

pub ghost enum NotifDetailV {
    Unknown { sender: Seq<char>, body: Seq<Seq<char>> },
    PrOpened { opener: UserV, pr: IssueInfoV },
    PrReviewed {
        url: Seq<char>,
        pr: IssueInfoV,
        state: ReviewState,
        commenter: UserV,
        comment: Seq<char>,
    },
    PrReviewCommented { url: Seq<char>, pr: IssueInfoV, commenter: UserV, comment: Seq<char> },
    DirectReviewRequested { reviewee: UserV, pr: IssueInfoV },
    TeamReviewRequested { reviewee: UserV, pr: IssueInfoV, team: Seq<char> },
    IssueClosed { closer: UserV, issue: IssueInfoV, is_merge: bool },
    Commented { url: Seq<char>, issue: IssueInfoV, commenter: UserV, comment: Seq<char> },
    Pushed { pr: IssueInfoV, diff_url: Seq<char>, committer: UserV, commits: Seq<CommitInfoV> },
    WorkflowCancelled {
        sender_name: Seq<char>,
        repo_fullname: Seq<char>,
        workflow_name: Seq<char>,
        result_url: Seq<char>,
    },
}

impl View for NotifDetail {
    type V = NotifDetailV;

    open spec fn view(&self) -> NotifDetailV {
        match self {
            NotifDetail::Unknown { sender, body } => NotifDetailV::Unknown {
                sender: sender@,
                body: body.deep_view(),
            },
            NotifDetail::PrOpened { opener, pr } => NotifDetailV::PrOpened {
                opener: opener@,
                pr: pr@,
            },
            NotifDetail::PrReviewed { url, pr, state, commenter, comment } => {
                NotifDetailV::PrReviewed {
                    url: url@,
                    pr: pr@,
                    state: *state,
                    commenter: commenter@,
                    comment: comment@,
                }
            },
            NotifDetail::PrReviewCommented { url, pr, commenter, comment } => {
                NotifDetailV::PrReviewCommented {
                    url: url@,
                    pr: pr@,
                    commenter: commenter@,
                    comment: comment@,
                }
            },
            NotifDetail::DirectReviewRequested { reviewee, pr } => {
                NotifDetailV::DirectReviewRequested { reviewee: reviewee@, pr: pr@ }
            },
            NotifDetail::TeamReviewRequested { reviewee, pr, team } => {
                NotifDetailV::TeamReviewRequested { reviewee: reviewee@, pr: pr@, team: team@ }
            },
            NotifDetail::IssueClosed { closer, issue, is_merge } => NotifDetailV::IssueClosed {
                closer: closer@,
                issue: issue@,
                is_merge: *is_merge,
            },
            NotifDetail::Commented { url, issue, commenter, comment } => NotifDetailV::Commented {
                url: url@,
                issue: issue@,
                commenter: commenter@,
                comment: comment@,
            },
            NotifDetail::Pushed { pr, diff_url, committer, commits } => NotifDetailV::Pushed {
                pr: pr@,
                diff_url: diff_url@,
                committer: committer@,
                commits: commits.deep_view(),
            },
            NotifDetail::WorkflowCancelled {
                sender_name,
                repo_fullname,
                workflow_name,
                result_url,
            } => NotifDetailV::WorkflowCancelled {
                sender_name: sender_name@,
                repo_fullname: repo_fullname@,
                workflow_name: workflow_name@,
                result_url: result_url@,
            },
        }
    }
}

impl DeepView for NotifDetail {
    type V = NotifDetailV;

    open spec fn deep_view(&self) -> NotifDetailV {
        self.view()
    }
}

impl View for Notification {
    type V = NotifDetailV;

    open spec fn view(&self) -> NotifDetailV {
        self.detail@
    }
}

impl DeepView for Notification {
    type V = NotifDetailV;

    open spec fn deep_view(&self) -> NotifDetailV {
        self.view()
    }
}

/// A lookup a matcher needs before it can finish.
pub enum LookupRequest<'a> {
    User(GetUserParams<'a>),
    Issue(GetIssueParams<'a>),
    IssueComment(GetIssueCommentParams<'a>),
    IssueEvent(GetIssueEventParams<'a>),
    PrReview(GetPrReviewParams<'a>),
    PrReviewComment(GetPrReviewCommentParams<'a>),
}

pub ghost enum ReqV {
    User { name: Seq<char> },
    Issue { repo: RepositoryV, number: int },
    IssueComment { repo: RepositoryV, comment_id: int },
    IssueEvent { repo: RepositoryV, event_id: int },
    PrReview { repo: RepositoryV, pr_number: int, review_id: int },
    PrReviewComment { repo: RepositoryV, review_comment_id: int },
}

impl<'a> View for LookupRequest<'a> {
    type V = ReqV;

    open spec fn view(&self) -> ReqV {
        match self {
            LookupRequest::User(p) => ReqV::User { name: p.name@ },
            LookupRequest::Issue(p) => ReqV::Issue { repo: p.repo@, number: p.number as int },
            LookupRequest::IssueComment(p) => ReqV::IssueComment {
                repo: p.repo@,
                comment_id: p.comment_id as int,
            },
            LookupRequest::IssueEvent(p) => ReqV::IssueEvent {
                repo: p.repo@,
                event_id: p.event_id as int,
            },
            LookupRequest::PrReview(p) => ReqV::PrReview {
                repo: p.repo@,
                pr_number: p.pr_number as int,
                review_id: p.review_id as int,
            },
            LookupRequest::PrReviewComment(p) => ReqV::PrReviewComment {
                repo: p.repo@,
                review_comment_id: p.review_comment_id as int,
            },
        }
    }
}

/// What a performed lookup returned; `None` inside a variant is a confirmed
/// absence, which soft-misses the matcher.
pub enum LookupOutcome {
    User(Option<User>),
    Issue(Option<Issue>),
    IssueComment(Option<IssueComment>),
    IssueEvent(Option<IssueEvent>),
    PrReview(Option<Review>),
    PrReviewComment(Option<ReviewComment>),
}

pub ghost enum OutcomeV {
    User(Option<UserV>),
    Issue(Option<crate::github::IssueV>),
    IssueComment(Option<crate::github::IssueCommentV>),
    IssueEvent(Option<crate::github::IssueEventV>),
    PrReview(Option<crate::github::ReviewV>),
    PrReviewComment(Option<crate::github::ReviewCommentV>),
}

impl View for LookupOutcome {
    type V = OutcomeV;

    open spec fn view(&self) -> OutcomeV {
        match self {
            LookupOutcome::User(o) => OutcomeV::User(o.deep_view()),
            LookupOutcome::Issue(o) => OutcomeV::Issue(o.deep_view()),
            LookupOutcome::IssueComment(o) => OutcomeV::IssueComment(o.deep_view()),
            LookupOutcome::IssueEvent(o) => OutcomeV::IssueEvent(o.deep_view()),
            LookupOutcome::PrReview(o) => OutcomeV::PrReview(o.deep_view()),
            LookupOutcome::PrReviewComment(o) => OutcomeV::PrReviewComment(o.deep_view()),
        }
    }
}

impl DeepView for LookupOutcome {
    type V = OutcomeV;

    open spec fn deep_view(&self) -> OutcomeV {
        self.view()
    }
}

/// How many matchers the chain holds, in the fixed order of the table.
pub open spec fn matcher_count() -> int {
    9
}

/// The lookup matcher `m` asks for, when its structural pattern matches.
pub open spec fn matcher_query(en: EmailNotifV, m: int) -> Option<ReqV> {
    if m == 0 {
        pr_open::query_spec(en)
    } else if m == 1 {
        pr_review::query_spec(en)
    } else if m == 2 {
        pr_review_comment::query_spec(en)
    } else if m == 3 {
        direct_review_request::query_spec(en)
    } else if m == 4 {
        team_review_request::query_spec(en)
    } else if m == 5 {
        issue_close::query_spec(en)
    } else if m == 6 {
        issue_comment::query_spec(en)
    } else if m == 7 {
        push::query_spec(en)
    } else {
        None
    }
}

/// The hit matcher `m` yields without any lookup; only the workflow matcher,
/// the last of the chain, completes this way.
pub open spec fn matcher_immediate(email: EmailV, en: EmailNotifV, m: int) -> Option<NotifDetailV> {
    if m == 8 {
        workflow_cancelled::hit_spec(email, en)
    } else {
        None
    }
}

/// What matcher `m` makes of a lookup outcome: a hit, a soft miss (`None`),
/// or a hard failure. An outcome of the wrong kind is a soft miss.
pub open spec fn matcher_resolve(en: EmailNotifV, m: int, o: OutcomeV) -> Result<
    Option<NotifDetailV>,
    NotifErrorV,
> {
    if m == 0 {
        pr_open::complete_spec(en, o)
    } else if m == 1 {
        pr_review::complete_spec(en, o)
    } else if m == 2 {
        pr_review_comment::complete_spec(en, o)
    } else if m == 3 {
        direct_review_request::complete_spec(en, o)
    } else if m == 4 {
        team_review_request::complete_spec(en, o)
    } else if m == 5 {
        issue_close::complete_spec(en, o)
    } else if m == 6 {
        issue_comment::complete_spec(en, o)
    } else if m == 7 {
        push::complete_spec(en, o)
    } else {
        Ok(None)
    }
}

/// The fallback notification: the email kind is unknown, and its sender and
/// body are passed through.
pub open spec fn unknown_detail(email: EmailV, en: EmailNotifV) -> NotifDetailV {
    NotifDetailV::Unknown { sender: email.sender_name, body: en.lines }
}

/// The one notification the chain yields for this email, given the outcomes
/// of the lookups in chain order. Matchers past the end of `outs` soft-miss;
/// the chain ends in the `Unknown` fallback, so a result is always produced
/// unless a matcher hard-fails.
pub open spec fn classify_from(
    email: EmailV,
    en: EmailNotifV,
    m: int,
    outs: Seq<OutcomeV>,
) -> Result<NotifDetailV, NotifErrorV>
    decreases matcher_count() - m,
{
    if m < 0 || m >= matcher_count() {
        Ok(unknown_detail(email, en))
    } else {
        match matcher_immediate(email, en, m) {
            Some(d) => Ok(d),
            None => match matcher_query(en, m) {
                None => classify_from(email, en, m + 1, outs),
                Some(req) => if outs.len() == 0 {
                    classify_from(email, en, m + 1, outs)
                } else {
                    match matcher_resolve(en, m, outs.first()) {
                        Err(e) => Err(e),
                        Ok(Some(d)) => Ok(d),
                        Ok(None) => classify_from(email, en, m + 1, outs.drop_first()),
                    }
                },
            },
        }
    }
}

/// The whole chain, from its first matcher.
pub open spec fn classify_spec(email: EmailV, en: EmailNotifV, outs: Seq<OutcomeV>) -> Result<
    NotifDetailV,
    NotifErrorV,
> {
    classify_from(email, en, 0, outs)
}

/// The executable result `r` says exactly what the spec-level result `s`
/// says.
pub open spec fn reflects_complete(
    r: Result<Option<Notification>, NotifError>,
    s: Result<Option<NotifDetailV>, NotifErrorV>,
) -> bool {
    match r {
        Ok(Some(n)) => s == Ok::<Option<NotifDetailV>, NotifErrorV>(Some(n@)),
        Ok(None) => s == Ok::<Option<NotifDetailV>, NotifErrorV>(None),
        Err(e) => s == Err::<Option<NotifDetailV>, NotifErrorV>(e@),
    }
}

/// The lookup matcher `m` asks for; the rule is `matcher_query`.
fn try_query<'a>(enotif: &'a EmailNotif, m: usize) -> (r: Option<LookupRequest<'a>>)
    requires
        m < matcher_count(),
    ensures
        match r {
            Some(req) => matcher_query(enotif@, m as int) == Some(req@),
            None => matcher_query(enotif@, m as int) is None,
        },
{
    if m == 0 {
        pr_open::query(enotif)
    } else if m == 1 {
        pr_review::query(enotif)
    } else if m == 2 {
        pr_review_comment::query(enotif)
    } else if m == 3 {
        direct_review_request::query(enotif)
    } else if m == 4 {
        team_review_request::query(enotif)
    } else if m == 5 {
        issue_close::query(enotif)
    } else if m == 6 {
        issue_comment::query(enotif)
    } else if m == 7 {
        push::query(enotif)
    } else {
        None
    }
}

/// The hit matcher `m` yields without a lookup; the rule is
/// `matcher_immediate`.
fn try_immediate(email: &Email, enotif: &EmailNotif, m: usize) -> (r: Option<Notification>)
    requires
        m < matcher_count(),
    ensures
        match r {
            Some(n) => matcher_immediate(email@, enotif@, m as int) == Some(n@),
            None => matcher_immediate(email@, enotif@, m as int) is None,
        },
{
    if m == 8 {
        workflow_cancelled::hit(email, enotif)
    } else {
        None
    }
}

/// Applies a lookup outcome to matcher `m`; the rule is `matcher_resolve`.
pub fn resolve_lookup(enotif: &EmailNotif, m: usize, outcome: LookupOutcome) -> (r: Result<
    Option<Notification>,
    NotifError,
>)
    ensures
        reflects_complete(r, matcher_resolve(enotif@, m as int, outcome@)),
{
    if m == 0 {
        pr_open::complete(enotif, outcome)
    } else if m == 1 {
        pr_review::complete(enotif, outcome)
    } else if m == 2 {
        pr_review_comment::complete(enotif, outcome)
    } else if m == 3 {
        direct_review_request::complete(enotif, outcome)
    } else if m == 4 {
        team_review_request::complete(enotif, outcome)
    } else if m == 5 {
        issue_close::complete(enotif, outcome)
    } else if m == 6 {
        issue_comment::complete(enotif, outcome)
    } else if m == 7 {
        push::complete(enotif, outcome)
    } else {
        Ok(None)
    }
}

/// One step of the chain as a driver sees it: either matcher `matcher` needs
/// `request` answered, or the chain is done with a notification.
pub enum MatcherStep<'a> {
    Need { matcher: usize, request: LookupRequest<'a> },
    Done { notif: Notification },
}

/// Scans the chain from matcher `start`: the first structural hit that needs
/// a lookup, or the finished notification (a no-lookup hit or the fallback).
/// A driver calls this with `start` = 0, performs the lookup it is handed,
/// applies `resolve_lookup`, and on a soft miss resumes at `matcher + 1`.
#[verifier::loop_isolation(false)]
pub fn next_query<'a>(email: &Email, enotif: &'a EmailNotif, start: usize) -> (r: MatcherStep<'a>)
    ensures
        match r {
            MatcherStep::Need { matcher, request } => {
                &&& start <= matcher < matcher_count()
                &&& matcher_query(enotif@, matcher as int) == Some(request@)
                &&& forall|k: int|
                    start <= k < matcher ==> matcher_query(enotif@, k) is None && matcher_immediate(
                        email@,
                        enotif@,
                        k,
                    ) is None
            },
            MatcherStep::Done { notif } => {
                &&& (forall|k: int|
                    start <= k < matcher_count() ==> matcher_query(enotif@, k) is None)
                &&& match workflow_cancelled::hit_spec(email@, enotif@) {
                    Some(d) => if start <= 8 {
                        notif@ == d
                    } else {
                        notif@ == unknown_detail(email@, enotif@)
                    },
                    None => notif@ == unknown_detail(email@, enotif@),
                }
            },
        },
{
    let mut m = start;
    while m < 9
        invariant
            start <= m,
            forall|k: int|
                start <= k < m ==> matcher_query(enotif@, k) is None && matcher_immediate(
                    email@,
                    enotif@,
                    k,
                ) is None,
        decreases 9 - m,
    {
        if let Some(n) = try_immediate(email, enotif, m) {
            assert(m == 8);
            return MatcherStep::Done { notif: n };
        }
        if let Some(req) = try_query(enotif, m) {
            return MatcherStep::Need { matcher: m, request: req };
        }
        m = m + 1;
    }
    let sender = email.sender_name.clone();
    let body = clone_string_vec(&enotif.lines);
    MatcherStep::Done { notif: Notification { detail: NotifDetail::Unknown { sender, body } } }
}

/// The executable classification result `r` says exactly what the spec-level
/// result `s` says.
pub open spec fn reflects_classify(
    r: Result<Notification, NotifError>,
    s: Result<NotifDetailV, NotifErrorV>,
) -> bool {
    match r {
        Ok(n) => s == Ok::<NotifDetailV, NotifErrorV>(n@),
        Err(e) => s == Err::<NotifDetailV, NotifErrorV>(e@),
    }
}

/// Runs the whole chain over one parsed email, consuming `outcomes` in chain
/// order as the answers of the lookups the matchers ask for. This is the
/// classifier as one function; a driver that performs real lookups uses
/// `next_query` and `resolve_lookup` instead and agrees with it by their
/// contracts.
#[verifier::loop_isolation(false)]
pub fn classify_with(email: &Email, enotif: &EmailNotif, outcomes: Vec<LookupOutcome>) -> (r:
    Result<Notification, NotifError>)
    ensures
        reflects_classify(r, classify_spec(email@, enotif@, outcomes.deep_view())),
{
    let ghost all = outcomes.deep_view();
    let mut outs = outcomes;
    let mut m: usize = 0;
    while m < 9
        invariant
            m <= 9,
            classify_from(email@, enotif@, 0, all) == classify_from(
                email@,
                enotif@,
                m as int,
                outs.deep_view(),
            ),
        decreases 9 - m,
    {
        if let Some(n) = try_immediate(email, enotif, m) {
            return Ok(n);
        }
        let query = try_query(enotif, m);
        if query.is_some() {
            if outs.len() > 0 {
                let ghost pre = outs.deep_view();
                let o = outs.remove(0);
                proof {
                    assert(outs.deep_view() =~~= pre.drop_first());
                    assert(o@ == pre.first());
                }
                match resolve_lookup(enotif, m, o) {
                    Err(e) => {
                        return Err(e);
                    },
                    Ok(Some(n)) => {
                        return Ok(n);
                    },
                    Ok(None) => {},
                }
            }
        }
        m = m + 1;
    }
    let sender = email.sender_name.clone();
    let body = clone_string_vec(&enotif.lines);
    Ok(Notification { detail: NotifDetail::Unknown { sender, body } })
}

/// The outcome reports a confirmed absence.
pub open spec fn is_absent(o: OutcomeV) -> bool {
    match o {
        OutcomeV::User(o) => o is None,
        OutcomeV::Issue(o) => o is None,
        OutcomeV::IssueComment(o) => o is None,
        OutcomeV::IssueEvent(o) => o is None,
        OutcomeV::PrReview(o) => o is None,
        OutcomeV::PrReviewComment(o) => o is None,
    }
}

/// Every outcome of `outs` reports a confirmed absence.
pub open spec fn all_absent(outs: Seq<OutcomeV>) -> bool {
    forall|i: int| 0 <= i < outs.len() ==> is_absent(#[trigger] outs[i])
}

/// Classification is total over structural and soft misses: when every
/// lookup reports an absence, the chain never hard-fails — it ends in a hit
/// of the lookup-free workflow matcher or in the `Unknown` passthrough.
pub proof fn lemma_classify_total_on_misses(
    email: EmailV,
    en: EmailNotifV,
    m: int,
    outs: Seq<OutcomeV>,
)
    requires
        all_absent(outs),
    ensures
        classify_from(email, en, m, outs) is Ok,
    decreases matcher_count() - m,
{
    if m < 0 || m >= matcher_count() {
    } else {
        if matcher_immediate(email, en, m) is Some {
        } else {
            match matcher_query(en, m) {
                None => lemma_classify_total_on_misses(email, en, m + 1, outs),
                Some(req) => {
                    if outs.len() == 0 {
                        lemma_classify_total_on_misses(email, en, m + 1, outs);
                    } else {
                        assert(all_absent(outs.drop_first())) by {
                            assert forall|i: int|
                                0 <= i < outs.drop_first().len() implies is_absent(
                                #[trigger] outs.drop_first()[i],
                            ) by {
                                assert(outs.drop_first()[i] == outs[i + 1]);
                            }
                        }
                        assert(matcher_resolve(en, m, outs.first()) == Ok::<
                            Option<NotifDetailV>,
                            NotifErrorV,
                        >(None));
                        lemma_classify_total_on_misses(email, en, m + 1, outs.drop_first());
                    }
                },
            }
        }
    }
}

/// The emails the messages of a batch carry, in batch order.
pub open spec fn emails_of_messages(msgs: Seq<crate::slack::MessageV>) -> Seq<EmailV>
    decreases msgs.len(),
{
    if msgs.len() == 0 {
        Seq::empty()
    } else {
        let rest = emails_of_messages(msgs.drop_last());
        match crate::slack::extract_email_spec(msgs.last()) {
            Some(e) => rest.push(e),
            None => rest,
        }
    }
}

/// The parsed form of an email, as `build_notif_from_email` computes it.
pub open spec fn enotif_of(email: EmailV) -> EmailNotifV {
    EmailNotifV {
        lines: crate::github::email_lines(email.text_body),
        detected_issue: crate::github::subject_issue(email.subject),
        github_url: crate::github::github_link(crate::github::email_lines(email.text_body)),
    }
}

/// The notifications of a whole batch of emails, oldest first, each email
/// classified with its own outcome sequence (`outss[i]` for the i-th email,
/// empty past the end). The earliest hard failure aborts the batch.
pub open spec fn classify_emails(emails: Seq<EmailV>, outss: Seq<Seq<OutcomeV>>) -> Result<
    Seq<NotifDetailV>,
    NotifErrorV,
>
    decreases emails.len(),
{
    if emails.len() == 0 {
        Ok(Seq::empty())
    } else {
        match classify_emails(emails.drop_last(), outss) {
            Err(e) => Err(e),
            Ok(s) => {
                let i = emails.len() - 1;
                let outs = if i < outss.len() {
                    outss[i]
                } else {
                    Seq::empty()
                };
                match classify_spec(emails.last(), enotif_of(emails.last()), outs) {
                    Err(e) => Err(e),
                    Ok(d) => Ok(s.push(d)),
                }
            },
        }
    }
}

/// A batch keeps the emails of its prefixes: classifying more messages never
/// reorders or drops what earlier messages yielded.
pub proof fn lemma_emails_of_prefix(msgs: Seq<crate::slack::MessageV>, j: int)
    requires
        0 <= j <= msgs.len(),
    ensures
        emails_of_messages(msgs.take(j)).len() <= emails_of_messages(msgs).len(),
        emails_of_messages(msgs.take(j)) == emails_of_messages(msgs).take(
            emails_of_messages(msgs.take(j)).len() as int,
        ),
    decreases msgs.len() - j,
{
    if j == msgs.len() {
        assert(msgs.take(j) =~= msgs);
        assert(emails_of_messages(msgs).take(emails_of_messages(msgs).len() as int)
            =~= emails_of_messages(msgs));
    } else {
        lemma_emails_of_prefix(msgs, j + 1);
        let tj = emails_of_messages(msgs.take(j));
        let tj1 = emails_of_messages(msgs.take(j + 1));
        assert(msgs.take(j + 1).drop_last() =~= msgs.take(j));
        assert(msgs.take(j + 1).last() == msgs[j]);
        match crate::slack::extract_email_spec(msgs[j]) {
            Some(e) => {
                assert(tj1 == tj.push(e));
                assert(tj =~= tj1.take(tj.len() as int));
                assert(tj =~= emails_of_messages(msgs).take(tj.len() as int));
            },
            None => {
                assert(tj1 == tj);
            },
        }
    }
}

/// An error of an email prefix is the error of the whole batch: the earliest
/// hard failure wins.
pub proof fn lemma_classify_emails_err_prefix(
    emails: Seq<EmailV>,
    outss: Seq<Seq<OutcomeV>>,
    j: int,
    e: NotifErrorV,
)
    requires
        0 <= j <= emails.len(),
        classify_emails(emails.take(j), outss) == Err::<Seq<NotifDetailV>, NotifErrorV>(e),
    ensures
        classify_emails(emails, outss) == Err::<Seq<NotifDetailV>, NotifErrorV>(e),
    decreases emails.len() - j,
{
    if j == emails.len() {
        assert(emails.take(j) =~= emails);
    } else {
        assert(classify_emails(emails.take(j + 1), outss) == Err::<Seq<NotifDetailV>, NotifErrorV>(
            e,
        )) by {
            assert(emails.take(j + 1).drop_last() =~= emails.take(j));
        }
        lemma_classify_emails_err_prefix(emails, outss, j + 1, e);
    }
}

/// A direct review request is classified as such, in general: when the pull
/// request and permalink are detected, the matchers ahead of it in the chain
/// structurally miss — no pull-request announcement line, and a permalink
/// that ends in neither a review id nor a discussion id — the first line
/// carries the `@user requested your review on:` pattern, and the user lookup
/// finds the user, the chain yields exactly `DirectReviewRequested` with that
/// user and the detected pull request. (A permalink ending in a review or
/// discussion id belongs to an earlier matcher: chain order is fixed.)
pub proof fn lemma_direct_review_request_classified(
    email: EmailV,
    en: EmailNotifV,
    u: UserV,
    outs: Seq<OutcomeV>,
)
    requires
        en.detected_issue is Some,
        en.github_url is Some,
        !pr_open::open_line(en.lines),
        crate::github::url_suffix_id(en.github_url->Some_0, "#pullrequestreview-"@) is None,
        crate::github::url_suffix_id(en.github_url->Some_0, "#discussion_r"@) is None,
        en.lines.len() > 0,
        direct_review_request::capture_after_at(
            en.lines[0],
            " requested your review on:"@,
        ) is Some,
        outs.len() >= 1,
        outs[0] == OutcomeV::User(Some(u)),
    ensures
        classify_spec(email, en, outs) == Ok::<NotifDetailV, NotifErrorV>(
            NotifDetailV::DirectReviewRequested { reviewee: u, pr: en.detected_issue->Some_0 },
        ),
{
    assert(matcher_query(en, 0) is None);
    assert(matcher_query(en, 1) is None);
    assert(matcher_query(en, 2) is None);
    assert(classify_from(email, en, 0, outs) == classify_from(email, en, 1, outs));
    assert(classify_from(email, en, 1, outs) == classify_from(email, en, 2, outs));
    assert(classify_from(email, en, 2, outs) == classify_from(email, en, 3, outs));
    assert(matcher_query(en, 3) == Some(
        ReqV::User {
            name: direct_review_request::capture_after_at(
                en.lines[0],
                " requested your review on:"@,
            )->Some_0,
        },
    ));
    assert(matcher_resolve(en, 3, outs.first()) == Ok::<Option<NotifDetailV>, NotifErrorV>(
        Some(NotifDetailV::DirectReviewRequested { reviewee: u, pr: en.detected_issue->Some_0 }),
    ));
}

/// A successful batch yields exactly one notification per email, in email
/// order: the k-th notification is the classification of the k-th email with
/// its own outcome sequence.
pub proof fn lemma_classify_emails_pointwise(emails: Seq<EmailV>, outss: Seq<Seq<OutcomeV>>)
    requires
        classify_emails(emails, outss) is Ok,
    ensures
        classify_emails(emails, outss)->Ok_0.len() == emails.len(),
        forall|k: int|
            0 <= k < emails.len() ==> classify_emails(emails, outss)->Ok_0[k] == classify_spec(
                emails[k],
                enotif_of(emails[k]),
                if k < outss.len() {
                    outss[k]
                } else {
                    Seq::empty()
                },
            )->Ok_0,
    decreases emails.len(),
{
    if emails.len() > 0 {
        lemma_classify_emails_pointwise(emails.drop_last(), outss);
        assert forall|k: int| 0 <= k < emails.len() - 1 implies emails.drop_last()[k]
            == emails[k] by {}
    }
}

/// The executable batch result `r` says exactly what the spec-level result
/// `s` says.
pub open spec fn reflects_batch(
    r: Result<Vec<Notification>, NotifError>,
    s: Result<Seq<NotifDetailV>, NotifErrorV>,
) -> bool {
    match r {
        Ok(notifs) => s == Ok::<Seq<NotifDetailV>, NotifErrorV>(notifs.deep_view()),
        Err(e) => s == Err::<Seq<NotifDetailV>, NotifErrorV>(e@),
    }
}

/// Classifies a whole batch of messages, oldest first: messages without an
/// email attachment are skipped; each email is classified with its own
/// outcome sequence, and the earliest hard failure aborts the batch. One
/// notification per email, in message order.
#[verifier::loop_isolation(false)]
pub fn build_notifications(
    messages: Vec<crate::slack::Message>,
    outcomes: Vec<Vec<LookupOutcome>>,
) -> (r: Result<Vec<Notification>, NotifError>)
    ensures
        reflects_batch(
            r,
            classify_emails(emails_of_messages(messages.deep_view()), outcomes.deep_view()),
        ),
{
    let ghost all_msgs = messages.deep_view();
    let ghost all_outss = outcomes.deep_view();
    let mut msgs = messages;
    let mut outs_rem = outcomes;
    let mut notifs: Vec<Notification> = Vec::new();
    let total = msgs.len();
    let mut done: usize = 0;
    proof {
        assert(all_msgs.take(0) =~= Seq::<crate::slack::MessageV>::empty());
        assert(notifs.deep_view() =~= Seq::<NotifDetailV>::empty());
        assert(msgs.deep_view() =~~= all_msgs.skip(0));
        assert(outs_rem.deep_view() =~~= all_outss.skip(0));
    }
    while msgs.len() > 0
        invariant
            done + msgs.len() == total,
            total == all_msgs.len(),
            msgs.deep_view() =~~= all_msgs.skip(done as int),
            classify_emails(emails_of_messages(all_msgs.take(done as int)), all_outss) == Ok::<
                Seq<NotifDetailV>,
                NotifErrorV,
            >(notifs.deep_view()),
            ({
                let ec = emails_of_messages(all_msgs.take(done as int)).len();
                outs_rem.deep_view() == if ec <= all_outss.len() {
                    all_outss.skip(ec as int)
                } else {
                    Seq::<Seq<OutcomeV>>::empty()
                }
            }),
        decreases msgs.len(),
    {
        let ghost pre_msgs = msgs.deep_view();
        let ghost pre_emails = emails_of_messages(all_msgs.take(done as int));
        let msg = msgs.remove(0);
        proof {
            assert(pre_msgs[0] == msg.deep_view());
            assert(all_msgs.skip(done as int)[0] == all_msgs[done as int]);
            assert(msg@ == all_msgs[done as int]);
            assert(msgs.deep_view() =~~= pre_msgs.drop_first());
            assert(pre_msgs.drop_first() =~~= all_msgs.skip(done + 1));
            assert(all_msgs.take(done + 1).drop_last() =~= all_msgs.take(done as int));
            assert(all_msgs.take(done + 1).last() == all_msgs[done as int]);
        }
        match crate::slack::extract_email_from_message(msg) {
            None => {
                assert(emails_of_messages(all_msgs.take(done + 1)) == pre_emails);
            },
            Some(email) => {
                let enotif = crate::github::build_notif_from_email(&email);
                assert(enotif@ == enotif_of(email@));
                let outs: Vec<LookupOutcome> = if outs_rem.len() > 0 {
                    let ghost pre_outs = outs_rem.deep_view();
                    let o = outs_rem.remove(0);
                    proof {
                        assert(outs_rem.deep_view() =~~= pre_outs.drop_first());
                        assert(pre_emails.len() < all_outss.len());
                        assert(o.deep_view() == pre_outs[0]);
                        assert(pre_outs[0] == all_outss.skip(pre_emails.len() as int)[0]);
                        assert(o.deep_view() =~~= all_outss[pre_emails.len() as int]);
                        assert(outs_rem.deep_view() =~~= if pre_emails.len() + 1
                            <= all_outss.len() {
                            all_outss.skip(pre_emails.len() + 1 as int)
                        } else {
                            Seq::<Seq<OutcomeV>>::empty()
                        });
                    }
                    o
                } else {
                    Vec::new()
                };
                let ghost spec_outs: Seq<OutcomeV> = if pre_emails.len() < all_outss.len() {
                    all_outss[pre_emails.len() as int]
                } else {
                    Seq::empty()
                };
                assert(outs.deep_view() =~~= spec_outs);
                match classify_with(&email, &enotif, outs) {
                    Err(e) => {
                        proof {
                            assert(emails_of_messages(all_msgs.take(done + 1)) == pre_emails.push(
                                email@,
                            ));
                            assert(classify_emails(
                                emails_of_messages(all_msgs.take(done + 1)),
                                all_outss,
                            ) == Err::<Seq<NotifDetailV>, NotifErrorV>(e@)) by {
                                assert(emails_of_messages(all_msgs.take(done + 1)).drop_last()
                                    =~= pre_emails);
                            }
                            lemma_emails_of_prefix(all_msgs, done + 1);
                            let whole = emails_of_messages(all_msgs);
                            let pl = emails_of_messages(all_msgs.take(done + 1)).len();
                            lemma_classify_emails_err_prefix(whole, all_outss, pl as int, e@);
                        }
                        return Err(e);
                    },
                    Ok(n) => {
                        let ghost pre_notifs = notifs.deep_view();
                        notifs.push(n);
                        proof {
                            assert(notifs.deep_view() =~~= pre_notifs.push(n@));
                            assert(emails_of_messages(all_msgs.take(done + 1)) == pre_emails.push(
                                email@,
                            ));
                            assert(emails_of_messages(all_msgs.take(done + 1)).drop_last()
                                =~= pre_emails);
                            assert(classify_spec(email@, enotif_of(email@), spec_outs) == Ok::<
                                NotifDetailV,
                                NotifErrorV,
                            >(n@));
                            assert(classify_emails(
                                emails_of_messages(all_msgs.take(done + 1)),
                                all_outss,
                            ) == Ok::<Seq<NotifDetailV>, NotifErrorV>(pre_notifs.push(n@)));
                        }
                    },
                }
            },
        }
        done = done + 1;
    }
    assert(all_msgs.take(done as int) =~= all_msgs);
    Ok(notifs)
}

} // verus!
