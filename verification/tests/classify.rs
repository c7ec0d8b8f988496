//! The matcher chain end to end: every matcher's hit, soft misses falling
//! through, the fixed order, and the fallback.

use gharry::email::Email;
use gharry::github::{
    build_notif_from_email, EmailNotif, Issue, IssueComment, IssueEvent, IssueState, Review,
    ReviewComment, ReviewState, User,
};
use gharry::errors::NotifError;
use gharry::notif::{classify_with, LookupOutcome, NotifDetail, Notification};
use gharry::slack::{extract_email_from_message, EmailAddress, File, Message};

fn strings(v: &[&str]) -> Vec<String> {
    v.iter().map(|s| s.to_string()).collect()
}

fn user(login: &str) -> User {
    User { login: login.to_string(), avatar_url: format!("https://avatars.test/{}", login) }
}

fn email_with(subject: &str, body_lines: &[&str]) -> (Email, EmailNotif) {
    let email = Email {
        subject: subject.to_string(),
        sender_name: "GitHub".to_string(),
        text_body: body_lines.join("\n"),
    };
    let enotif = build_notif_from_email(&email);
    (email, enotif)
}

fn classify(email: &Email, enotif: &EmailNotif, outcomes: Vec<LookupOutcome>) -> Notification {
    classify_with(email, enotif, outcomes).unwrap()
}

const FOOTER: [&str; 2] = [
    "Reply to this email directly or view it on GitHub:",
    "https://github.com/octo/demo/pull/12",
];

#[test]
fn pr_opened_hit() {
    let (email, enotif) = email_with(
        "[octo/demo] Add feature (PR #12)",
        &[
            "You can view, comment on, or merge this pull request online at:",
            "",
            "  https://github.com/octo/demo/pull/12",
            "Reply to this email directly or view it on GitHub:",
            "https://github.com/octo/demo/pull/12",
        ],
    );
    let issue = Issue {
        html_url: "https://github.com/octo/demo/pull/12".to_string(),
        state: IssueState::Open,
        number: 12,
        title: "Add feature".to_string(),
        user: user("alice"),
    };
    let n = classify(&email, &enotif, vec![LookupOutcome::Issue(Some(issue))]);
    match n.detail {
        NotifDetail::PrOpened { opener, pr } => {
            assert_eq!(opener.login, "alice");
            assert_eq!(pr.repo.owner, "octo");
            assert_eq!(pr.number, 12);
            assert_eq!(pr.title, "Add feature");
        },
        other => panic!("unexpected kind: {:?}", kind_name(&other)),
    }
}

#[test]
fn pr_opened_soft_miss_falls_back() {
    let (email, enotif) = email_with(
        "[octo/demo] Add feature (PR #12)",
        &[
            "You can view, comment on, or merge this pull request online at:",
            "Reply to this email directly or view it on GitHub:",
            "https://github.com/octo/demo/pull/12",
        ],
    );
    let n = classify(&email, &enotif, vec![LookupOutcome::Issue(None)]);
    match n.detail {
        NotifDetail::Unknown { sender, body } => {
            assert_eq!(sender, "GitHub");
            assert_eq!(body.len(), 3);
        },
        other => panic!("unexpected kind: {:?}", kind_name(&other)),
    }
}

#[test]
fn pr_reviewed_hit_extracts_body_comment() {
    let (email, enotif) = email_with(
        "Re: [octo/demo] Add feature (PR #12)",
        &[
            "@bob approved this pull request.",
            "",
            "Nice change",
            "",
            "-- ",
            "You are receiving this because you were mentioned.",
            "Reply to this email directly or view it on GitHub:",
            "https://github.com/octo/demo/pull/12#pullrequestreview-555",
        ],
    );
    let review = Review { user: user("bob"), body: "ignored".to_string(), state: ReviewState::Approved };
    let n = classify(&email, &enotif, vec![LookupOutcome::PrReview(Some(review))]);
    match n.detail {
        NotifDetail::PrReviewed { url, pr, state, commenter, comment } => {
            assert_eq!(url, "https://github.com/octo/demo/pull/12#pullrequestreview-555");
            assert_eq!(pr.number, 12);
            assert!(matches!(state, ReviewState::Approved));
            assert_eq!(commenter.login, "bob");
            assert_eq!(comment, "Nice change");
        },
        other => panic!("unexpected kind: {:?}", kind_name(&other)),
    }
}

#[test]
fn pr_reviewed_without_footer_marker_hard_fails() {
    let (email, enotif) = email_with(
        "Re: [octo/demo] Add feature (PR #12)",
        &[
            "@bob approved this pull request.",
            "Nice change",
            "Reply to this email directly or view it on GitHub:",
            "https://github.com/octo/demo/pull/12#pullrequestreview-555",
        ],
    );
    let review = Review { user: user("bob"), body: String::new(), state: ReviewState::Approved };
    let r = classify_with(&email, &enotif, vec![LookupOutcome::PrReview(Some(review))]);
    assert!(matches!(r, Err(NotifError::MalformedReviewEmail)));
}

#[test]
fn pr_review_commented_hit() {
    let (email, enotif) = email_with(
        "Re: [octo/demo] Add feature (PR #12)",
        &[
            "some quoted diff",
            "Reply to this email directly or view it on GitHub:",
            "https://github.com/octo/demo/pull/12#discussion_r77",
        ],
    );
    let c = ReviewComment { user: user("carol"), body: "nit: rename".to_string() };
    let n = classify(&email, &enotif, vec![LookupOutcome::PrReviewComment(Some(c))]);
    match n.detail {
        NotifDetail::PrReviewCommented { url, pr, commenter, comment } => {
            assert_eq!(url, "https://github.com/octo/demo/pull/12#discussion_r77");
            assert_eq!(pr.number, 12);
            assert_eq!(commenter.login, "carol");
            assert_eq!(comment, "nit: rename");
        },
        other => panic!("unexpected kind: {:?}", kind_name(&other)),
    }
}

#[test]
fn direct_review_request_hit() {
    let mut lines = vec!["@alice requested your review on:"];
    lines.extend_from_slice(&FOOTER);
    let (email, enotif) = email_with("Re: [octo/demo] Fix typo (#1234)", &lines);
    let n = classify(&email, &enotif, vec![LookupOutcome::User(Some(user("alice")))]);
    match n.detail {
        NotifDetail::DirectReviewRequested { reviewee, pr } => {
            assert_eq!(reviewee.login, "alice");
            assert_eq!(pr.repo.owner, "octo");
            assert_eq!(pr.repo.name, "demo");
            assert_eq!(pr.number, 1234);
            assert_eq!(pr.title, "Fix typo");
        },
        other => panic!("unexpected kind: {:?}", kind_name(&other)),
    }
}

#[test]
fn direct_review_request_end_to_end_renders_with_mention() {
    let mut lines = vec!["@alice requested your review on:"];
    lines.extend_from_slice(&FOOTER);
    let (email, enotif) = email_with("Re: [octo/demo] Fix typo (#1234)", &lines);
    let n = classify(&email, &enotif, vec![LookupOutcome::User(Some(user("alice")))]);
    let p = gharry::notifier::build_post(n).unwrap();
    assert_eq!(
        p.text,
        "<!here>\n@alice requested your review on [octo/demo<https://github.com/octo/demo/pull/1234|#1234>] Fix typo"
    );
    assert_eq!(p.username, "@alice");
    assert_eq!(p.icon_url.as_deref(), Some("https://avatars.test/alice"));
}

#[test]
fn direct_review_request_user_gone_falls_back() {
    let mut lines = vec!["@alice requested your review on:"];
    lines.extend_from_slice(&FOOTER);
    let (email, enotif) = email_with("Re: [octo/demo] Fix typo (#1234)", &lines);
    let n = classify(&email, &enotif, vec![LookupOutcome::User(None)]);
    assert!(matches!(n.detail, NotifDetail::Unknown { .. }));
}

#[test]
fn team_review_request_hit() {
    let mut lines = vec!["@alice requested review from @octo/platform on:"];
    lines.extend_from_slice(&FOOTER);
    let (email, enotif) = email_with("Re: [octo/demo] Fix typo (#1234)", &lines);
    let n = classify(&email, &enotif, vec![LookupOutcome::User(Some(user("alice")))]);
    match n.detail {
        NotifDetail::TeamReviewRequested { reviewee, pr, team } => {
            assert_eq!(reviewee.login, "alice");
            assert_eq!(pr.number, 1234);
            assert_eq!(team, "octo/platform");
        },
        other => panic!("unexpected kind: {:?}", kind_name(&other)),
    }
}

#[test]
fn issue_closed_hit_and_merge_flag() {
    let (email, enotif) = email_with(
        "Re: [octo/demo] Fix typo (#1234)",
        &[
            "Closed #1234.",
            "Reply to this email directly or view it on GitHub:",
            "https://github.com/octo/demo/issues/1234#event-99",
        ],
    );
    let ev = IssueEvent {
        event: "closed".to_string(),
        actor: user("dan"),
        issue: Issue {
            html_url: "https://github.com/octo/demo/issues/1234".to_string(),
            state: IssueState::Closed,
            number: 1234,
            title: "Fix typo".to_string(),
            user: user("alice"),
        },
        pull_request: None,
    };
    let n = classify(&email, &enotif, vec![LookupOutcome::IssueEvent(Some(ev))]);
    match n.detail {
        NotifDetail::IssueClosed { closer, issue, is_merge } => {
            assert_eq!(closer.login, "dan");
            assert_eq!(issue.number, 1234);
            assert!(!is_merge);
        },
        other => panic!("unexpected kind: {:?}", kind_name(&other)),
    }

    let (email, enotif) = email_with(
        "Re: [octo/demo] Fix typo (#1234)",
        &[
            "Merged #1234 into main.",
            "Reply to this email directly or view it on GitHub:",
            "https://github.com/octo/demo/pull/1234#event-100",
        ],
    );
    let ev = IssueEvent {
        event: "merged".to_string(),
        actor: user("dan"),
        issue: Issue {
            html_url: "https://github.com/octo/demo/pull/1234".to_string(),
            state: IssueState::Closed,
            number: 1234,
            title: "Fix typo".to_string(),
            user: user("alice"),
        },
        pull_request: Some(gharry::github::IssueEventPr::new(
            "https://api.github.com/repos/octo/demo/pulls/1234".to_string(),
        )),
    };
    let n = classify(&email, &enotif, vec![LookupOutcome::IssueEvent(Some(ev))]);
    match n.detail {
        NotifDetail::IssueClosed { is_merge, .. } => assert!(is_merge),
        other => panic!("unexpected kind: {:?}", kind_name(&other)),
    }
}

#[test]
fn commented_hit() {
    let (email, enotif) = email_with(
        "Re: [octo/demo] Fix typo (#1234)",
        &[
            "A comment body in the email.",
            "Reply to this email directly or view it on GitHub:",
            "https://github.com/octo/demo/issues/1234#issuecomment-42",
        ],
    );
    let c = IssueComment { body: "the comment".to_string(), user: user("erin") };
    let n = classify(&email, &enotif, vec![LookupOutcome::IssueComment(Some(c))]);
    match n.detail {
        NotifDetail::Commented { url, issue, commenter, comment } => {
            assert_eq!(url, "https://github.com/octo/demo/issues/1234#issuecomment-42");
            assert_eq!(issue.number, 1234);
            assert_eq!(commenter.login, "erin");
            assert_eq!(comment, "the comment");
        },
        other => panic!("unexpected kind: {:?}", kind_name(&other)),
    }
}

#[test]
fn pushed_hit_collects_commits() {
    let (email, enotif) = email_with(
        "Re: [octo/demo] Fix typo (#1234)",
        &[
            "@bob pushed 2 commits.",
            "",
            "0123456789abcdef0123456789abcdef01234567  Fix the typo",
            "89abcdef0123456789abcdef0123456789abcdef  Add tests properly",
            "",
            "Reply to this email directly or view it on GitHub:",
            "https://github.com/octo/demo/pull/1234/files/abc..def",
        ],
    );
    let n = classify(&email, &enotif, vec![LookupOutcome::User(Some(user("bob")))]);
    match n.detail {
        NotifDetail::Pushed { pr, diff_url, committer, commits } => {
            assert_eq!(pr.number, 1234);
            assert_eq!(diff_url, "https://github.com/octo/demo/pull/1234/files/abc..def");
            assert_eq!(committer.login, "bob");
            assert_eq!(commits.len(), 2);
            assert_eq!(commits[0].hash, "0123456789abcdef0123456789abcdef01234567");
            assert_eq!(commits[0].message, "Fix");
            assert_eq!(commits[1].message, "Add");
        },
        other => panic!("unexpected kind: {:?}", kind_name(&other)),
    }
}

#[test]
fn pushed_count_mismatch_hard_fails() {
    let (email, enotif) = email_with(
        "Re: [octo/demo] Fix typo (#1234)",
        &[
            "@bob pushed 3 commits.",
            "0123456789abcdef0123456789abcdef01234567  Fix the typo",
            "Reply to this email directly or view it on GitHub:",
            "https://github.com/octo/demo/pull/1234/files/abc..def",
        ],
    );
    let r = classify_with(&email, &enotif, vec![LookupOutcome::User(Some(user("bob")))]);
    match r {
        Err(NotifError::CommitCountMismatch { expected, found }) => {
            assert_eq!(expected, 3);
            assert_eq!(found, 1);
        },
        _ => panic!("expected a commit count mismatch"),
    }
}

#[test]
fn workflow_cancelled_hit_needs_no_lookup() {
    let (email, enotif) = email_with(
        "Run cancelled: CI workflow",
        &[
            "Repository: octo/demo",
            "Workflow: CI",
            "View results: https://github.com/octo/demo/actions/runs/7",
        ],
    );
    let n = classify(&email, &enotif, vec![]);
    match n.detail {
        NotifDetail::WorkflowCancelled { sender_name, repo_fullname, workflow_name, result_url } => {
            assert_eq!(sender_name, "GitHub");
            assert_eq!(repo_fullname, "octo/demo");
            assert_eq!(workflow_name, "CI");
            assert_eq!(result_url, "https://github.com/octo/demo/actions/runs/7");
        },
        other => panic!("unexpected kind: {:?}", kind_name(&other)),
    }
}

#[test]
fn workflow_cancelled_missing_key_falls_back() {
    let (email, enotif) = email_with(
        "Run cancelled: CI workflow",
        &["Repository: octo/demo", "Workflow: CI"],
    );
    let n = classify(&email, &enotif, vec![]);
    assert!(matches!(n.detail, NotifDetail::Unknown { .. }));
}

#[test]
fn workflow_cancelled_last_occurrence_wins() {
    let (email, enotif) = email_with(
        "Run cancelled: CI workflow",
        &[
            "Repository: octo/old",
            "Repository: octo/new",
            "Workflow: CI",
            "View results: https://example.test/r",
        ],
    );
    let n = classify(&email, &enotif, vec![]);
    match n.detail {
        NotifDetail::WorkflowCancelled { repo_fullname, .. } => {
            assert_eq!(repo_fullname, "octo/new");
        },
        other => panic!("unexpected kind: {:?}", kind_name(&other)),
    }
}

#[test]
fn chain_order_first_hit_wins() {
    // Structurally this email matches both the opened-pull-request matcher
    // and the issue-comment matcher; the issue lookup reports an absence, so
    // the chain moves on, in order, to the comment matcher.
    let (email, enotif) = email_with(
        "Re: [octo/demo] Fix typo (#1234)",
        &[
            "You can view, comment on, or merge this pull request online at:",
            "Reply to this email directly or view it on GitHub:",
            "https://github.com/octo/demo/issues/1234#issuecomment-8",
        ],
    );
    let c = IssueComment { body: "later matcher".to_string(), user: user("erin") };
    let n = classify(
        &email,
        &enotif,
        vec![LookupOutcome::Issue(None), LookupOutcome::IssueComment(Some(c))],
    );
    assert!(matches!(n.detail, NotifDetail::Commented { .. }));
}

#[test]
fn suffix_id_must_touch_its_marker() {
    // The trailing digits are not directly preceded by the review marker, so
    // the review matcher structural-misses and the outcome stays unused.
    let (email, enotif) = email_with(
        "Re: [octo/demo] Fix typo (#1234)",
        &[
            "some text",
            "Reply to this email directly or view it on GitHub:",
            "https://github.com/octo/demo/pull/12#pullrequestreview555",
        ],
    );
    let review = Review { user: user("bob"), body: String::new(), state: ReviewState::Approved };
    let n = classify(&email, &enotif, vec![LookupOutcome::PrReview(Some(review))]);
    assert!(matches!(n.detail, NotifDetail::Unknown { .. }));
}

#[test]
fn unknown_fallback_without_any_match() {
    let (email, enotif) = email_with("plain mail", &["just", "text"]);
    let n = classify(&email, &enotif, vec![]);
    match n.detail {
        NotifDetail::Unknown { sender, body } => {
            assert_eq!(sender, "GitHub");
            assert_eq!(body, strings(&["just", "text"]));
        },
        other => panic!("unexpected kind: {:?}", kind_name(&other)),
    }
}

#[test]
fn extract_email_reads_first_attachment() {
    let msg = Message {
        ts: "1700000000.000100".to_string(),
        text: "forwarded".to_string(),
        files: Some(vec![File::Email {
            subject: "[a/b] t (#1)".to_string(),
            to: vec![],
            from: vec![EmailAddress {
                address: "notifications@github.test".to_string(),
                name: "GitHub".to_string(),
            }],
            plain_text: "body".to_string(),
        }]),
    };
    let email = extract_email_from_message(msg).unwrap();
    assert_eq!(email.subject, "[a/b] t (#1)");
    assert_eq!(email.sender_name, "GitHub");
    assert_eq!(email.text_body, "body");
}

#[test]
fn extract_email_skips_other_messages() {
    let msg = Message { ts: "1".to_string(), text: "no files".to_string(), files: None };
    assert!(extract_email_from_message(msg).is_none());
    let msg = Message {
        ts: "2".to_string(),
        text: "not an email".to_string(),
        files: Some(vec![File::Unknown]),
    };
    assert!(extract_email_from_message(msg).is_none());
    let msg = Message {
        ts: "3".to_string(),
        text: "email without sender".to_string(),
        files: Some(vec![File::Email {
            subject: "s".to_string(),
            to: vec![],
            from: vec![],
            plain_text: "b".to_string(),
        }]),
    };
    assert!(extract_email_from_message(msg).is_none());
}

fn kind_name(d: &NotifDetail) -> &'static str {
    match d {
        NotifDetail::Unknown { .. } => "Unknown",
        NotifDetail::PrOpened { .. } => "PrOpened",
        NotifDetail::PrReviewed { .. } => "PrReviewed",
        NotifDetail::PrReviewCommented { .. } => "PrReviewCommented",
        NotifDetail::DirectReviewRequested { .. } => "DirectReviewRequested",
        NotifDetail::TeamReviewRequested { .. } => "TeamReviewRequested",
        NotifDetail::IssueClosed { .. } => "IssueClosed",
        NotifDetail::Commented { .. } => "Commented",
        NotifDetail::Pushed { .. } => "Pushed",
        NotifDetail::WorkflowCancelled { .. } => "WorkflowCancelled",
    }
}
