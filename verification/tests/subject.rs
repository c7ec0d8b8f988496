//! The subject grammar and the permalink footer rule on concrete values.

use gharry::email::Email;
use gharry::github::{build_notif_from_email, find_github_link, issue_info_from_notif_subject};

fn strings(v: &[&str]) -> Vec<String> {
    v.iter().map(|s| s.to_string()).collect()
}

#[test]
fn subject_with_reply_prefix() {
    let r = issue_info_from_notif_subject("Re: [octo/demo] Fix typo (#1234)").unwrap();
    assert_eq!(r.repo.owner, "octo");
    assert_eq!(r.repo.name, "demo");
    assert_eq!(r.number, 1234);
    assert_eq!(r.title, "Fix typo");
}

#[test]
fn subject_with_pr_marker() {
    let r = issue_info_from_notif_subject("Re: [octo/demo] Fix typo (PR #1234)").unwrap();
    assert_eq!(r.repo.owner, "octo");
    assert_eq!(r.repo.name, "demo");
    assert_eq!(r.number, 1234);
    assert_eq!(r.title, "Fix typo");
}

#[test]
fn subject_without_reply_prefix() {
    let r = issue_info_from_notif_subject("[a/b] t (#1)").unwrap();
    assert_eq!(r.repo.owner, "a");
    assert_eq!(r.repo.name, "b");
    assert_eq!(r.number, 1);
    assert_eq!(r.title, "t");
}

#[test]
fn subject_title_keeps_inner_parens() {
    let r = issue_info_from_notif_subject("[a/b] x (#1) (#2)").unwrap();
    assert_eq!(r.title, "x (#1)");
    assert_eq!(r.number, 2);
}

#[test]
fn subject_owner_ends_at_first_slash() {
    let r = issue_info_from_notif_subject("[a/b/c] t (#3)").unwrap();
    assert_eq!(r.repo.owner, "a");
    assert_eq!(r.repo.name, "b/c");
}

#[test]
fn subject_rejects_odd_shapes() {
    assert!(issue_info_from_notif_subject("Hello").is_none());
    assert!(issue_info_from_notif_subject("[a/b] t (#)").is_none());
    assert!(issue_info_from_notif_subject("[a/b] t (#12x)").is_none());
    assert!(issue_info_from_notif_subject("[ab] t (#12)").is_none());
    assert!(issue_info_from_notif_subject("[a/b] (#12)").is_none());
    assert!(issue_info_from_notif_subject("[/b] t (#12)").is_none());
    assert!(issue_info_from_notif_subject("[a/] t (#12)").is_none());
    // The number must fit in the machine word.
    assert!(issue_info_from_notif_subject("[a/b] t (#99999999999999999999999)").is_none());
    // `Re: ` must be dropped before the bracket.
    assert!(issue_info_from_notif_subject("Re: x [a/b] t (#1)").is_none());
}

#[test]
fn subject_title_stops_at_line_break() {
    // A title cannot span a line break, so a tail behind one never matches.
    assert!(issue_info_from_notif_subject("[a/b] t\nx (#1)").is_none());
}

#[test]
fn link_found_behind_view_marker() {
    let lines = strings(&[
        "hello",
        "View it on GitHub:",
        "https://github.com/octo/demo/pull/12#pullrequestreview-555",
    ]);
    assert_eq!(
        find_github_link(&lines).unwrap(),
        "https://github.com/octo/demo/pull/12#pullrequestreview-555"
    );
}

#[test]
fn link_found_behind_reply_marker_and_trimmed() {
    let lines = strings(&[
        "Reply to this email directly or view it on GitHub:",
        "  https://github.com/a/b/pull/1#issuecomment-2 ",
    ]);
    assert_eq!(find_github_link(&lines).unwrap(), "https://github.com/a/b/pull/1#issuecomment-2");
}

#[test]
fn link_absent_without_marker() {
    let lines = strings(&["something else entirely", "https://github.com/a/b/pull/1"]);
    assert!(find_github_link(&lines).is_none());
    let lines = strings(&["View it on GitHub:", "https://example.com/a"]);
    assert!(find_github_link(&lines).is_none());
    let lines = strings(&["https://github.com/a/b"]);
    assert!(find_github_link(&lines).is_none());
}

#[test]
fn build_notif_splits_lines_and_strips_carriage_returns() {
    let email = Email {
        subject: "[a/b] t (#1)".to_string(),
        sender_name: "GitHub".to_string(),
        text_body: "one\r\ntwo\nthree\r".to_string(),
    };
    let enotif = build_notif_from_email(&email);
    assert_eq!(enotif.lines, strings(&["one", "two", "three"]));
    let issue = enotif.detected_issue.unwrap();
    assert_eq!(issue.number, 1);
    assert!(enotif.github_url.is_none());
}

#[test]
fn build_notif_finds_permalink() {
    let email = Email {
        subject: "no issue here".to_string(),
        sender_name: "GitHub".to_string(),
        text_body: "hi\nView it on GitHub:\nhttps://github.com/a/b/pull/1#event-7\n".to_string(),
    };
    let enotif = build_notif_from_email(&email);
    // The body ends with a line feed, so the last line is empty and the
    // marker is not in second-to-last position.
    assert!(enotif.github_url.is_none());

    let email = Email {
        subject: "no issue here".to_string(),
        sender_name: "GitHub".to_string(),
        text_body: "hi\nView it on GitHub:\nhttps://github.com/a/b/pull/1#event-7".to_string(),
    };
    let enotif = build_notif_from_email(&email);
    assert_eq!(enotif.github_url.unwrap(), "https://github.com/a/b/pull/1#event-7");
}
