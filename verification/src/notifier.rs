//! The message formatter: a pure mapping from a notification to the text and
//! presentation of the message to post. Team review requests are suppressed
//! here; pushes, openings and closings are posted silently, everything else
//! with a channel mention.

use crate::github::{CommitInfo, CommitInfoV, IssueInfo, IssueInfoV, ReviewState};
use crate::notif::{NotifDetail, NotifDetailV, Notification};
use crate::strutil::{
    dec_rep, join_strings, join_with, usize_to_string,
};
use vstd::prelude::*;

verus! {

/// A formatted message before the channel mention and the presentation
/// defaults are applied.
pub struct NotifMessage {
    pub text: String,
    pub user_name: Option<String>,
    pub icon_url: Option<String>,
}

pub ghost struct NotifMessageV {
    pub text: Seq<char>,
    pub user_name: Option<Seq<char>>,
    pub icon_url: Option<Seq<char>>,
}

impl View for NotifMessage {
    type V = NotifMessageV;

    open spec fn view(&self) -> NotifMessageV {
        NotifMessageV {
            text: self.text@,
            user_name: self.user_name.deep_view(),
            icon_url: self.icon_url.deep_view(),
        }
    }
}

/// Pushes, openings and closings are posted silently; every other posted
/// kind carries a channel mention.
pub open spec fn should_alert_spec(d: NotifDetailV) -> bool {
    !(d is Pushed || d is PrOpened || d is IssueClosed)
}

pub fn should_alert(detail: &NotifDetail) -> (b: bool)
    ensures
        b == should_alert_spec(detail@),
{
    !(matches!(detail, NotifDetail::Pushed { .. }) || matches!(detail, NotifDetail::PrOpened { .. })
        || matches!(detail, NotifDetail::IssueClosed { .. }))
}

/// Messages without their own icon get the default emoji.
pub open spec fn icon_emoji_spec(icon_url: Option<Seq<char>>) -> Option<Seq<char>> {
    match icon_url {
        Some(_) => None,
        None => Some(":carousel_horse:"@),
    }
}

pub fn icon_emoji(icon_url: &Option<String>) -> (r: Option<&'static str>)
    ensures
        r.deep_view() == icon_emoji_spec(icon_url.deep_view()),
{
    match icon_url {
        Some(_) => None,
        None => Some(":carousel_horse:"),
    }
}

/// `@login`.
pub open spec fn at_login(login: Seq<char>) -> Seq<char> {
    "@"@ + login
}

fn login_string(login: &String) -> (r: String)
    ensures
        r@ == at_login(login@),
{
    let mut out = String::from_str("@");
    out.append(login.as_str());
    out
}

/// The subject part of a message: `[owner/name<pr-url|#N>] title`, the title
/// wrapped as a link when one is given.
pub open spec fn issue_subject_spec(issue: IssueInfoV, title_link: Option<Seq<char>>) -> Seq<
    char,
> {
    let pr_url = "https://github.com/"@ + issue.repo.owner + "/"@ + issue.repo.name + "/pull/"@
        + dec_rep(issue.number);
    let title = match title_link {
        Some(link) => "<"@ + link + "|"@ + issue.title + ">"@,
        None => issue.title,
    };
    "["@ + issue.repo.owner + "/"@ + issue.repo.name + "<"@ + pr_url + "|#"@ + dec_rep(
        issue.number,
    ) + ">] "@ + title
}

/// Builds the subject part; the rule is `issue_subject_spec`.
pub fn issue_subject(issue: &IssueInfo, title_link: Option<&str>) -> (r: String)
    ensures
        r@ == issue_subject_spec(issue@, title_link.deep_view()),
{
    let number = usize_to_string(issue.number);
    let mut out = String::from_str("[");
    out.append(issue.repo.owner.as_str());
    out.append("/");
    out.append(issue.repo.name.as_str());
    out.append("<");
    out.append("https://github.com/");
    out.append(issue.repo.owner.as_str());
    out.append("/");
    out.append(issue.repo.name.as_str());
    out.append("/pull/");
    out.append(number.as_str());
    out.append("|#");
    out.append(number.as_str());
    out.append(">] ");
    match title_link {
        Some(link) => {
            out.append("<");
            out.append(link);
            out.append("|");
            out.append(issue.title.as_str());
            out.append(">");
        },
        None => {
            out.append(issue.title.as_str());
        },
    }
    assert(out@ =~= issue_subject_spec(issue@, title_link.deep_view()));
    out
}

/// The emoji of a review state; a dismissal has none.
pub open spec fn review_state_emoji_spec(state: ReviewState) -> Seq<char> {
    match state {
        ReviewState::Commented => "\u{1f4ac}"@,
        ReviewState::Approved => "\u{1f44d}"@,
        ReviewState::ChangesRequested => "\u{26a0}\u{fe0f}"@,
        ReviewState::Dismissed => ""@,
    }
}

pub fn review_state_emoji(state: &ReviewState) -> (r: &'static str)
    ensures
        r@ == review_state_emoji_spec(*state),
{
    match state {
        ReviewState::Commented => "\u{1f4ac}",
        ReviewState::Approved => "\u{1f44d}",
        ReviewState::ChangesRequested => "\u{26a0}\u{fe0f}",
        ReviewState::Dismissed => "",
    }
}

/// The first `max` commit messages joined by line feeds, and a note on how
/// many more the push carried when the list was cut off.
pub open spec fn join_commit_messages_spec(commits: Seq<CommitInfoV>, max: int) -> Seq<char> {
    let shown = if commits.len() <= max {
        commits.len() as int
    } else {
        max
    };
    let joined = join_with(Seq::new(shown as nat, |i: int| commits[i].message), seq!['\n']);
    if commits.len() > max {
        joined + "...and "@ + dec_rep(commits.len() - max) + " more commits"@
    } else {
        joined
    }
}

/// Joins commit messages; the rule is `join_commit_messages_spec`.
#[verifier::loop_isolation(false)]
pub fn join_commit_messages(commits: &Vec<CommitInfo>, max: usize) -> (r: String)
    ensures
        r@ == join_commit_messages_spec(commits.deep_view(), max as int),
{
    let shown = if commits.len() <= max {
        commits.len()
    } else {
        max
    };
    let mut msgs: Vec<String> = Vec::new();
    for i in 0..shown
        invariant
            shown <= commits.len(),
            msgs.len() == i,
            msgs.deep_view() =~~= Seq::new(i as nat, |k: int| commits.deep_view()[k].message),
    {
        let ghost pre = msgs.deep_view();
        msgs.push(commits[i].message.clone());
        proof {
            let target = Seq::new((i + 1) as nat, |k: int| commits.deep_view()[k].message);
            assert(msgs@.len() == i + 1);
            assert forall|k: int| 0 <= k < i + 1 implies msgs.deep_view()[k] == target[k] by {
                if k < i {
                    assert(msgs.deep_view()[k] == pre[k]);
                    assert(pre[k] == Seq::new(i as nat, |k2: int| commits.deep_view()[k2].message)[k]);
                } else {
                    assert(msgs@[k] == commits@[i as int].message);
                }
            }
            assert(msgs.deep_view() =~= target);
        }
    }
    proof {
        reveal_strlit("\n");
        assert("\n"@ =~= seq!['\n']);
    }
    let mut out = join_strings(&msgs, "\n");
    if commits.len() > max {
        out.append("...and ");
        let more = usize_to_string(commits.len() - max);
        out.append(more.as_str());
        out.append(" more commits");
    }
    assert(out@ =~= join_commit_messages_spec(commits.deep_view(), max as int));
    out
}

/// What the formatter makes of each notification kind; `None` suppresses the
/// message.
pub open spec fn generate_message_spec(d: NotifDetailV) -> Option<NotifMessageV> {
    match d {
        NotifDetailV::Unknown { sender, body } => Some(
            NotifMessageV {
                text: join_with(body, seq!['\n']),
                user_name: Some(sender),
                icon_url: None,
            },
        ),
        NotifDetailV::PrOpened { opener, pr } => Some(
            NotifMessageV {
                text: at_login(opener.login) + " opened "@ + issue_subject_spec(pr, None),
                user_name: Some(at_login(opener.login)),
                icon_url: Some(opener.avatar_url),
            },
        ),
        NotifDetailV::PrReviewed { url, pr, state, commenter, comment } => Some(
            NotifMessageV {
                text: at_login(commenter.login) + " "@ + review_state_emoji_spec(state) + " "@
                    + issue_subject_spec(pr, Some(url)) + "\n"@ + comment,
                user_name: Some(at_login(commenter.login)),
                icon_url: Some(commenter.avatar_url),
            },
        ),
        NotifDetailV::PrReviewCommented { url, pr, commenter, comment } => Some(
            NotifMessageV {
                text: at_login(commenter.login) + " \u{1f4ac}  "@ + issue_subject_spec(
                    pr,
                    Some(url),
                ) + "\n"@ + comment,
                user_name: Some(at_login(commenter.login)),
                icon_url: Some(commenter.avatar_url),
            },
        ),
        NotifDetailV::DirectReviewRequested { reviewee, pr } => Some(
            NotifMessageV {
                text: at_login(reviewee.login) + " requested your review on "@
                    + issue_subject_spec(pr, None),
                user_name: Some(at_login(reviewee.login)),
                icon_url: Some(reviewee.avatar_url),
            },
        ),
        NotifDetailV::TeamReviewRequested { .. } => None,
        NotifDetailV::IssueClosed { closer, issue, is_merge } => Some(
            NotifMessageV {
                text: at_login(closer.login) + (if is_merge {
                    " merged "@
                } else {
                    " closed "@
                }) + issue_subject_spec(issue, None),
                user_name: Some(at_login(closer.login)),
                icon_url: Some(closer.avatar_url),
            },
        ),
        NotifDetailV::Commented { url, issue, commenter, comment } => Some(
            NotifMessageV {
                text: at_login(commenter.login) + " \u{1f4ac}  "@ + issue_subject_spec(
                    issue,
                    Some(url),
                ) + "\n"@ + comment,
                user_name: Some(at_login(commenter.login)),
                icon_url: Some(commenter.avatar_url),
            },
        ),
        NotifDetailV::Pushed { pr, diff_url, committer, commits } => Some(
            NotifMessageV {
                text: at_login(committer.login) + " pushed <"@ + diff_url + "|"@ + dec_rep(
                    commits.len() as int,
                ) + " commit"@ + (if commits.len() == 1 {
                    ""@
                } else {
                    "s"@
                }) + "> to "@ + issue_subject_spec(pr, None) + "\n"@ + join_commit_messages_spec(
                    commits,
                    10,
                ),
                user_name: Some(at_login(committer.login)),
                icon_url: Some(committer.avatar_url),
            },
        ),
        NotifDetailV::WorkflowCancelled { sender_name, repo_fullname, workflow_name, result_url } => Some(
            NotifMessageV {
                text: "Run cancelled: "@ + workflow_name + " ("@ + repo_fullname + ") "@
                    + result_url,
                user_name: Some(sender_name),
                icon_url: None,
            },
        ),
    }
}

/// Formats one notification; the rule is `generate_message_spec`.
pub fn generate_message(notif: Notification) -> (r: Option<NotifMessage>)
    ensures
        match r {
            Some(m) => generate_message_spec(notif@) == Some(m@),
            None => generate_message_spec(notif@) is None,
        },
{
    match notif.detail {
        NotifDetail::Unknown { sender, body } => {
            proof {
                reveal_strlit("\n");
                assert("\n"@ =~= seq!['\n']);
            }
            let text = join_strings(&body, "\n");
            Some(NotifMessage { text, user_name: Some(sender), icon_url: None })
        },
        NotifDetail::PrOpened { opener, pr } => {
            let login = login_string(&opener.login);
            let mut text = login.clone();
            text.append(" opened ");
            let sbj = issue_subject(&pr, None);
            text.append(sbj.as_str());
            assert(text@ =~= at_login(opener.login@) + " opened "@ + issue_subject_spec(
                pr@,
                None,
            ));
            Some(NotifMessage { text, user_name: Some(login), icon_url: Some(opener.avatar_url) })
        },
        NotifDetail::PrReviewed { url, pr, state, commenter, comment } => {
            let login = login_string(&commenter.login);
            let mut text = login.clone();
            text.append(" ");
            text.append(review_state_emoji(&state));
            text.append(" ");
            let sbj = issue_subject(&pr, Some(url.as_str()));
            text.append(sbj.as_str());
            text.append("\n");
            text.append(comment.as_str());
            assert(text@ =~= at_login(commenter.login@) + " "@ + review_state_emoji_spec(state)
                + " "@ + issue_subject_spec(pr@, Some(url@)) + "\n"@ + comment@);
            Some(
                NotifMessage { text, user_name: Some(login), icon_url: Some(commenter.avatar_url) },
            )
        },
        NotifDetail::PrReviewCommented { url, pr, commenter, comment } => {
            let login = login_string(&commenter.login);
            let mut text = login.clone();
            text.append(" \u{1f4ac}  ");
            let sbj = issue_subject(&pr, Some(url.as_str()));
            text.append(sbj.as_str());
            text.append("\n");
            text.append(comment.as_str());
            assert(text@ =~= at_login(commenter.login@) + " \u{1f4ac}  "@ + issue_subject_spec(
                pr@,
                Some(url@),
            ) + "\n"@ + comment@);
            Some(
                NotifMessage { text, user_name: Some(login), icon_url: Some(commenter.avatar_url) },
            )
        },
        NotifDetail::DirectReviewRequested { reviewee, pr } => {
            let login = login_string(&reviewee.login);
            let mut text = login.clone();
            text.append(" requested your review on ");
            let sbj = issue_subject(&pr, None);
            text.append(sbj.as_str());
            assert(text@ =~= at_login(reviewee.login@) + " requested your review on "@
                + issue_subject_spec(pr@, None));
            Some(NotifMessage { text, user_name: Some(login), icon_url: Some(reviewee.avatar_url) })
        },
        NotifDetail::TeamReviewRequested { .. } => None,
        NotifDetail::IssueClosed { closer, issue, is_merge } => {
            let login = login_string(&closer.login);
            let mut text = login.clone();
            if is_merge {
                text.append(" merged ");
            } else {
                text.append(" closed ");
            }
            let sbj = issue_subject(&issue, None);
            text.append(sbj.as_str());
            assert(text@ =~= at_login(closer.login@) + (if is_merge {
                " merged "@
            } else {
                " closed "@
            }) + issue_subject_spec(issue@, None));
            Some(NotifMessage { text, user_name: Some(login), icon_url: Some(closer.avatar_url) })
        },
        NotifDetail::Commented { url, issue, commenter, comment } => {
            let login = login_string(&commenter.login);
            let mut text = login.clone();
            text.append(" \u{1f4ac}  ");
            let sbj = issue_subject(&issue, Some(url.as_str()));
            text.append(sbj.as_str());
            text.append("\n");
            text.append(comment.as_str());
            assert(text@ =~= at_login(commenter.login@) + " \u{1f4ac}  "@ + issue_subject_spec(
                issue@,
                Some(url@),
            ) + "\n"@ + comment@);
            Some(
                NotifMessage { text, user_name: Some(login), icon_url: Some(commenter.avatar_url) },
            )
        },
        NotifDetail::Pushed { pr, diff_url, committer, commits } => {
            let login = login_string(&committer.login);
            let mut text = login.clone();
            text.append(" pushed <");
            text.append(diff_url.as_str());
            text.append("|");
            let count = usize_to_string(commits.len());
            text.append(count.as_str());
            text.append(" commit");
            if commits.len() != 1 {
                text.append("s");
            }
            text.append("> to ");
            let sbj = issue_subject(&pr, None);
            text.append(sbj.as_str());
            text.append("\n");
            let joined = join_commit_messages(&commits, 10);
            text.append(joined.as_str());
            proof {
                reveal_strlit("");
                assert(""@ =~= Seq::<char>::empty());
                assert(text@ =~= at_login(committer.login@) + " pushed <"@ + diff_url@ + "|"@
                    + dec_rep(commits.deep_view().len() as int) + " commit"@ + (if commits.deep_view().len() == 1 {
                    ""@
                } else {
                    "s"@
                }) + "> to "@ + issue_subject_spec(pr@, None) + "\n"@ + join_commit_messages_spec(
                    commits.deep_view(),
                    10,
                ));
            }
            Some(
                NotifMessage { text, user_name: Some(login), icon_url: Some(committer.avatar_url) },
            )
        },
        NotifDetail::WorkflowCancelled { sender_name, repo_fullname, workflow_name, result_url } => {
            let mut text = String::from_str("Run cancelled: ");
            text.append(workflow_name.as_str());
            text.append(" (");
            text.append(repo_fullname.as_str());
            text.append(") ");
            text.append(result_url.as_str());
            assert(text@ =~= "Run cancelled: "@ + workflow_name@ + " ("@ + repo_fullname@ + ") "@
                + result_url@);
            Some(NotifMessage { text, user_name: Some(sender_name), icon_url: None })
        },
    }
}

/// A message ready to post: all formatting decisions applied.
pub struct OutboundPost {
    pub text: String,
    pub username: String,
    pub icon_url: Option<String>,
    pub icon_emoji: Option<String>,
}

pub ghost struct OutboundPostV {
    pub text: Seq<char>,
    pub username: Seq<char>,
    pub icon_url: Option<Seq<char>>,
    pub icon_emoji: Option<Seq<char>>,
}

impl View for OutboundPost {
    type V = OutboundPostV;

    open spec fn view(&self) -> OutboundPostV {
        OutboundPostV {
            text: self.text@,
            username: self.username@,
            icon_url: self.icon_url.deep_view(),
            icon_emoji: self.icon_emoji.deep_view(),
        }
    }
}

/// The message to post for a notification, mention and presentation defaults
/// applied; `None` for the kinds the formatter suppresses. Alerting kinds
/// carry a leading mention marker, on its own line before the text.
pub open spec fn build_post_spec(d: NotifDetailV) -> Option<OutboundPostV> {
    match generate_message_spec(d) {
        None => None,
        Some(m) => Some(
            OutboundPostV {
                text: (if should_alert_spec(d) {
                    "<!here>\n"@
                } else {
                    Seq::empty()
                }) + m.text,
                username: match m.user_name {
                    Some(u) => u,
                    None => "Gharry"@,
                },
                icon_url: m.icon_url,
                icon_emoji: icon_emoji_spec(m.icon_url),
            },
        ),
    }
}

/// Decides and formats the message a notification is posted as; the rule is
/// `build_post_spec`.
pub fn build_post(notif: Notification) -> (r: Option<OutboundPost>)
    ensures
        match r {
            Some(p) => build_post_spec(notif@) == Some(p@),
            None => build_post_spec(notif@) is None,
        },
{
    let alert = should_alert(&notif.detail);
    match generate_message(notif) {
        None => None,
        Some(msg) => {
            let mut text = if alert {
                String::from_str("<!here>\n")
            } else {
                String::new()
            };
            text.append(msg.text.as_str());
            assert(text@ =~= (if alert {
                "<!here>\n"@
            } else {
                Seq::<char>::empty()
            }) + msg@.text);
            let emoji: Option<String> = match &msg.icon_url {
                Some(_) => None,
                None => Some(String::from_str(":carousel_horse:")),
            };
            let username = match msg.user_name {
                Some(u) => u,
                None => String::from_str("Gharry"),
            };
            Some(OutboundPost { text, username, icon_url: msg.icon_url, icon_emoji: emoji })
        },
    }
}

/// A direct review request is rendered, in general, as the requesting login,
/// the fixed phrase, and the pull request's subject, behind a leading mention
/// marker — it alerts — with the login as the display name and the
/// requester's avatar as the icon.
pub proof fn lemma_direct_review_request_rendered(d: NotifDetailV)
    requires
        d is DirectReviewRequested,
    ensures
        build_post_spec(d) == Some(
            OutboundPostV {
                text: "<!here>\n"@ + at_login(d->DirectReviewRequested_reviewee.login)
                    + " requested your review on "@ + issue_subject_spec(
                    d->DirectReviewRequested_pr,
                    None,
                ),
                username: at_login(d->DirectReviewRequested_reviewee.login),
                icon_url: Some(d->DirectReviewRequested_reviewee.avatar_url),
                icon_emoji: None,
            },
        ),
{
    let login = d->DirectReviewRequested_reviewee.login;
    let pr = d->DirectReviewRequested_pr;
    assert("<!here>\n"@ + (at_login(login) + " requested your review on "@ + issue_subject_spec(
        pr,
        None,
    )) =~= "<!here>\n"@ + at_login(login) + " requested your review on "@ + issue_subject_spec(
        pr,
        None,
    ));
}

} // verus!
