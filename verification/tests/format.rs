//! The formatter: exact rendered texts, suppression, alerting, icons.

use gharry::github::{CommitInfo, IssueInfo, Repository, ReviewState, User};
use gharry::notif::{NotifDetail, Notification};
use gharry::notifier::{
    build_post, generate_message, icon_emoji, issue_subject, join_commit_messages,
    review_state_emoji, should_alert,
};

fn user(login: &str) -> User {
    User { login: login.to_string(), avatar_url: format!("https://avatars.test/{}", login) }
}

fn pr(number: usize, title: &str) -> IssueInfo {
    IssueInfo {
        repo: Repository { owner: "octo".to_string(), name: "demo".to_string() },
        number,
        title: title.to_string(),
    }
}

fn commit(message: &str) -> CommitInfo {
    CommitInfo { hash: "0123456789abcdef0123456789abcdef01234567".to_string(), message: message.to_string() }
}

#[test]
fn subject_without_link() {
    let s = issue_subject(&pr(1234, "Fix typo"), None);
    assert_eq!(s, "[octo/demo<https://github.com/octo/demo/pull/1234|#1234>] Fix typo");
}

#[test]
fn subject_with_link() {
    let s = issue_subject(&pr(7, "T"), Some("https://github.com/octo/demo/pull/7#discussion_r9"));
    assert_eq!(
        s,
        "[octo/demo<https://github.com/octo/demo/pull/7|#7>] <https://github.com/octo/demo/pull/7#discussion_r9|T>"
    );
}

#[test]
fn alert_only_for_loud_kinds() {
    let silent = NotifDetail::Pushed {
        pr: pr(1, "t"),
        diff_url: "u".to_string(),
        committer: user("a"),
        commits: vec![],
    };
    assert!(!should_alert(&silent));
    let silent = NotifDetail::PrOpened { opener: user("a"), pr: pr(1, "t") };
    assert!(!should_alert(&silent));
    let silent = NotifDetail::IssueClosed { closer: user("a"), issue: pr(1, "t"), is_merge: false };
    assert!(!should_alert(&silent));
    let loud = NotifDetail::DirectReviewRequested { reviewee: user("a"), pr: pr(1, "t") };
    assert!(should_alert(&loud));
    let loud = NotifDetail::Unknown { sender: "s".to_string(), body: vec![] };
    assert!(should_alert(&loud));
}

#[test]
fn default_emoji_only_without_icon() {
    assert_eq!(icon_emoji(&None), Some(":carousel_horse:"));
    assert_eq!(icon_emoji(&Some("https://a".to_string())), None);
}

#[test]
fn review_emojis() {
    assert_eq!(review_state_emoji(&ReviewState::Commented), "\u{1f4ac}");
    assert_eq!(review_state_emoji(&ReviewState::Approved), "\u{1f44d}");
    assert_eq!(review_state_emoji(&ReviewState::ChangesRequested), "\u{26a0}\u{fe0f}");
    assert_eq!(review_state_emoji(&ReviewState::Dismissed), "");
}

#[test]
fn commit_messages_joined_and_truncated() {
    let commits: Vec<CommitInfo> = (0..12).map(|i| commit(&format!("m{}", i))).collect();
    let joined = join_commit_messages(&commits, 10);
    assert_eq!(joined, "m0\nm1\nm2\nm3\nm4\nm5\nm6\nm7\nm8\nm9...and 2 more commits");
    let commits: Vec<CommitInfo> = (0..2).map(|i| commit(&format!("m{}", i))).collect();
    assert_eq!(join_commit_messages(&commits, 10), "m0\nm1");
}

#[test]
fn unknown_renders_raw_body() {
    let n = Notification {
        detail: NotifDetail::Unknown {
            sender: "Someone".to_string(),
            body: vec!["a".to_string(), "b".to_string()],
        },
    };
    let m = generate_message(n).unwrap();
    assert_eq!(m.text, "a\nb");
    assert_eq!(m.user_name.as_deref(), Some("Someone"));
    assert!(m.icon_url.is_none());
}

#[test]
fn pr_opened_renders() {
    let n = Notification { detail: NotifDetail::PrOpened { opener: user("alice"), pr: pr(12, "Add") } };
    let m = generate_message(n).unwrap();
    assert_eq!(m.text, "@alice opened [octo/demo<https://github.com/octo/demo/pull/12|#12>] Add");
    assert_eq!(m.user_name.as_deref(), Some("@alice"));
    assert_eq!(m.icon_url.as_deref(), Some("https://avatars.test/alice"));
}

#[test]
fn pr_reviewed_renders() {
    let n = Notification {
        detail: NotifDetail::PrReviewed {
            url: "https://github.com/octo/demo/pull/12#pullrequestreview-5".to_string(),
            pr: pr(12, "Add"),
            state: ReviewState::Approved,
            commenter: user("bob"),
            comment: "Nice change".to_string(),
        },
    };
    let m = generate_message(n).unwrap();
    assert_eq!(
        m.text,
        "@bob \u{1f44d} [octo/demo<https://github.com/octo/demo/pull/12|#12>] <https://github.com/octo/demo/pull/12#pullrequestreview-5|Add>\nNice change"
    );
}

#[test]
fn team_review_request_is_suppressed() {
    let n = Notification {
        detail: NotifDetail::TeamReviewRequested {
            reviewee: user("alice"),
            pr: pr(12, "Add"),
            team: "octo/platform".to_string(),
        },
    };
    assert!(generate_message(n).is_none());
    let n = Notification {
        detail: NotifDetail::TeamReviewRequested {
            reviewee: user("alice"),
            pr: pr(12, "Add"),
            team: "octo/platform".to_string(),
        },
    };
    assert!(build_post(n).is_none());
}

#[test]
fn issue_closed_renders_verb() {
    let n = Notification {
        detail: NotifDetail::IssueClosed { closer: user("dan"), issue: pr(3, "T"), is_merge: true },
    };
    let m = generate_message(n).unwrap();
    assert_eq!(m.text, "@dan merged [octo/demo<https://github.com/octo/demo/pull/3|#3>] T");
    let n = Notification {
        detail: NotifDetail::IssueClosed { closer: user("dan"), issue: pr(3, "T"), is_merge: false },
    };
    let m = generate_message(n).unwrap();
    assert_eq!(m.text, "@dan closed [octo/demo<https://github.com/octo/demo/pull/3|#3>] T");
}

#[test]
fn pushed_renders_summary_and_messages() {
    let n = Notification {
        detail: NotifDetail::Pushed {
            pr: pr(3, "T"),
            diff_url: "https://github.com/octo/demo/pull/3/files/a..b".to_string(),
            committer: user("bob"),
            commits: vec![commit("one")],
        },
    };
    let m = generate_message(n).unwrap();
    assert_eq!(
        m.text,
        "@bob pushed <https://github.com/octo/demo/pull/3/files/a..b|1 commit> to [octo/demo<https://github.com/octo/demo/pull/3|#3>] T\none"
    );
    let n = Notification {
        detail: NotifDetail::Pushed {
            pr: pr(3, "T"),
            diff_url: "d".to_string(),
            committer: user("bob"),
            commits: vec![commit("one"), commit("two")],
        },
    };
    let m = generate_message(n).unwrap();
    assert_eq!(
        m.text,
        "@bob pushed <d|2 commits> to [octo/demo<https://github.com/octo/demo/pull/3|#3>] T\none\ntwo"
    );
}

#[test]
fn workflow_cancelled_renders_one_line() {
    let n = Notification {
        detail: NotifDetail::WorkflowCancelled {
            sender_name: "GitHub".to_string(),
            repo_fullname: "octo/demo".to_string(),
            workflow_name: "CI".to_string(),
            result_url: "https://github.com/octo/demo/actions/runs/7".to_string(),
        },
    };
    let m = generate_message(n).unwrap();
    assert_eq!(m.text, "Run cancelled: CI (octo/demo) https://github.com/octo/demo/actions/runs/7");
    assert_eq!(m.user_name.as_deref(), Some("GitHub"));
}

#[test]
fn build_post_applies_mention_and_defaults() {
    // A loud kind gets the leading channel mention and keeps the avatar
    // icon.
    let n = Notification {
        detail: NotifDetail::DirectReviewRequested { reviewee: user("alice"), pr: pr(1234, "Fix typo") },
    };
    let p = build_post(n).unwrap();
    assert_eq!(
        p.text,
        "<!here>\n@alice requested your review on [octo/demo<https://github.com/octo/demo/pull/1234|#1234>] Fix typo"
    );
    assert_eq!(p.username, "@alice");
    assert_eq!(p.icon_url.as_deref(), Some("https://avatars.test/alice"));
    assert!(p.icon_emoji.is_none());

    // A silent kind gets no mention.
    let n = Notification { detail: NotifDetail::PrOpened { opener: user("alice"), pr: pr(1, "T") } };
    let p = build_post(n).unwrap();
    assert!(!p.text.contains("<!here>"));

    // A message without an avatar falls back to the default emoji; the
    // passthrough keeps the sender as the display name.
    let n = Notification {
        detail: NotifDetail::Unknown { sender: "Someone".to_string(), body: vec!["x".to_string()] },
    };
    let p = build_post(n).unwrap();
    assert_eq!(p.text, "<!here>\nx");
    assert_eq!(p.username, "Someone");
    assert_eq!(p.icon_emoji.as_deref(), Some(":carousel_horse:"));
    assert!(p.icon_url.is_none());
}
