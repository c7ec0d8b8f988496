//! The cycle's decisions: ordering, cursor movement, suppression, the
//! unsubscribe decisions, and the at-least-once behaviour on retry.

use gharry::github::graphql::get_review_requests as grr;
use gharry::github::graphql::update_subscription_mut as usm;
use gharry::github::graphql::{graphql_data, ErrorItem, QueryResult, SubscriptionState};
use gharry::github::{IssueInfo, Repository, User};
use gharry::errors::NotifError;
use gharry::notif::{build_notifications, LookupOutcome, NotifDetail, Notification};
use gharry::polling::{
    batch_last_ts, conclude_cycle, fetch_params, order_oldest_first, select_unsuppressed,
    suppression_flags, unsubscribe_targets,
};
use gharry::slack::{EmailAddress, File, Message};
use gharry::store::State;

fn message(ts: &str, subject: &str, body: &str) -> Message {
    Message {
        ts: ts.to_string(),
        text: "forwarded".to_string(),
        files: Some(vec![File::Email {
            subject: subject.to_string(),
            to: vec![],
            from: vec![EmailAddress {
                address: "notifications@github.test".to_string(),
                name: "GitHub".to_string(),
            }],
            plain_text: body.to_string(),
        }]),
    }
}

fn pr(number: usize) -> IssueInfo {
    IssueInfo {
        repo: Repository { owner: "octo".to_string(), name: "demo".to_string() },
        number,
        title: "T".to_string(),
    }
}

fn user(login: &str) -> User {
    User { login: login.to_string(), avatar_url: format!("https://avatars.test/{}", login) }
}

fn unknown(tag: &str) -> Notification {
    Notification {
        detail: NotifDetail::Unknown { sender: tag.to_string(), body: vec![tag.to_string()] },
    }
}

fn team_review(number: usize) -> Notification {
    Notification {
        detail: NotifDetail::TeamReviewRequested {
            reviewee: user("alice"),
            pr: pr(number),
            team: "octo/platform".to_string(),
        },
    }
}

#[test]
fn initial_state_prints_the_clock() {
    let s = State::new(1700000000);
    assert_eq!(s.last_ts, "1700000000");
    let s = State::new(0);
    assert_eq!(s.last_ts, "0");
}

#[test]
fn fetch_uses_cursor_as_exclusive_bound() {
    let state = State { last_ts: "1700000042.000200".to_string() };
    let p = fetch_params("C12345", &state);
    assert_eq!(p.channel, "C12345");
    assert_eq!(p.oldest_ts, "1700000042.000200");
}

#[test]
fn batch_runs_oldest_first() {
    let msgs = vec![
        message("3.0", "c", "z"),
        message("2.0", "b", "y"),
        message("1.0", "a", "x"),
    ];
    let ordered = order_oldest_first(msgs);
    let ts: Vec<&str> = ordered.iter().map(|m| m.ts.as_str()).collect();
    assert_eq!(ts, ["1.0", "2.0", "3.0"]);
    assert_eq!(batch_last_ts(&ordered).unwrap(), "3.0");
    assert!(batch_last_ts(&Vec::new()).is_none());
}

#[test]
fn batch_classifies_in_order_one_per_email() {
    // Three messages oldest-first; the middle one carries no email and is
    // skipped silently.
    let m1 = message("1.0", "s1", "first");
    let m2 = Message { ts: "2.0".to_string(), text: "chatter".to_string(), files: None };
    let m3 = message("3.0", "s3", "third");
    let notifs = build_notifications(vec![m1, m2, m3], vec![]).unwrap();
    assert_eq!(notifs.len(), 2);
    match (&notifs[0].detail, &notifs[1].detail) {
        (NotifDetail::Unknown { body: b1, .. }, NotifDetail::Unknown { body: b2, .. }) => {
            assert_eq!(b1, &vec!["first".to_string()]);
            assert_eq!(b2, &vec!["third".to_string()]);
        },
        _ => panic!("expected two passthrough notifications"),
    }
}

#[test]
fn batch_aborts_on_first_hard_failure() {
    // The second email declares three commits but lists one.
    let bad_body = "@bob pushed 3 commits.\n0123456789abcdef0123456789abcdef01234567 Fix it\nReply to this email directly or view it on GitHub:\nhttps://github.com/octo/demo/pull/1/files/a..b";
    let m1 = message("1.0", "s1", "first");
    let m2 = message("2.0", "Re: [octo/demo] T (#1)", bad_body);
    let r = build_notifications(
        vec![m1, m2],
        vec![vec![], vec![LookupOutcome::User(Some(user("bob")))]],
    );
    assert!(matches!(r, Err(NotifError::CommitCountMismatch { expected: 3, found: 1 })));
}

#[test]
fn suppressed_entries_are_omitted_order_kept() {
    let notifs = vec![unknown("a"), team_review(7), unknown("b"), team_review(8)];
    let targets = unsubscribe_targets(&notifs);
    assert_eq!(targets.len(), 2);
    assert_eq!(targets[0].0, 1);
    assert_eq!(targets[0].1.number, 7);
    assert_eq!(targets[1].0, 3);
    assert_eq!(targets[1].1.number, 8);

    // The first unsubscribe succeeded, the second did not.
    let flags = suppression_flags(notifs.len(), &targets, &vec![true, false]);
    assert_eq!(flags, vec![false, true, false, false]);

    let sent = select_unsuppressed(notifs, &flags);
    let tags: Vec<String> = sent
        .iter()
        .map(|n| match &n.detail {
            NotifDetail::Unknown { sender, .. } => sender.clone(),
            NotifDetail::TeamReviewRequested { pr, .. } => format!("team{}", pr.number),
            _ => "other".to_string(),
        })
        .collect();
    assert_eq!(tags, vec!["a".to_string(), "b".to_string(), "team8".to_string()]);
}

#[test]
fn unsubscribe_true_then_false() {
    // First call: the query still sees a direct review request, so the
    // mutation runs and confirms the unsubscribed state.
    let payload = grr::Payload {
        repository: Some(grr::Repository {
            pull_request: Some(grr::PullRequest {
                id: "PR_node".to_string(),
                review_requests: grr::ReviewRequestConn {
                    nodes: vec![
                        grr::ReviewRequest { requested_reviewer: Some(grr::RequestedReviewer::Team) },
                        grr::ReviewRequest {
                            requested_reviewer: Some(grr::RequestedReviewer::User {
                                login: "ryym".to_string(),
                            }),
                        },
                    ],
                },
            }),
        }),
    };
    let id = grr::decide_unsubscribe_query(&payload, "ryym");
    assert_eq!(id.as_deref(), Some("PR_node"));
    let mutation_payload = usm::Payload {
        update_subscription: usm::UpdateSubscription {
            subscribable: Some(usm::Subscribable {
                viewer_subscription: Some(SubscriptionState::Unsubscribed),
            }),
        },
    };
    assert!(usm::unsubscribe_confirmed(&mutation_payload));

    // Second call: the direct request is gone, so the operation reports
    // `false` at the query stage, without a mutation and without an error.
    let payload = grr::Payload {
        repository: Some(grr::Repository {
            pull_request: Some(grr::PullRequest {
                id: "PR_node".to_string(),
                review_requests: grr::ReviewRequestConn {
                    nodes: vec![grr::ReviewRequest {
                        requested_reviewer: Some(grr::RequestedReviewer::Team),
                    }],
                },
            }),
        }),
    };
    assert!(grr::decide_unsubscribe_query(&payload, "ryym").is_none());

    // A vanished pull request also reports `false`.
    let payload = grr::Payload { repository: None };
    assert!(grr::decide_unsubscribe_query(&payload, "ryym").is_none());
}

#[test]
fn graphql_envelope_rules() {
    let ok: QueryResult<u32> = QueryResult { data: Some(7), errors: None };
    assert_eq!(graphql_data(ok).unwrap(), 7);

    let failed: QueryResult<u32> = QueryResult {
        data: None,
        errors: Some(vec![
            ErrorItem::new("first".to_string()),
            ErrorItem::new("second".to_string()),
        ]),
    };
    match graphql_data(failed) {
        Err(NotifError::GraphQlErrors { message }) => assert_eq!(message, "first,second"),
        _ => panic!("expected joined GraphQL errors"),
    }

    let empty: QueryResult<u32> = QueryResult { data: None, errors: None };
    assert!(matches!(graphql_data(empty), Err(NotifError::MalformedGraphQlResponse)));

    let e = NotifError::MalformedGraphQlResponse;
    assert!(!e.message().is_empty());
}

#[test]
fn cursor_moves_only_on_completion() {
    let state = State { last_ts: "100.0".to_string() };

    // The attempt aborts after some sends: nothing is persisted.
    let after_abort = conclude_cycle(state, Some("103.0".to_string()), false);
    assert_eq!(after_abort.last_ts, "100.0");

    // The retry fetches from the same watermark, so the whole batch comes
    // again and every notification is resent.
    let p = fetch_params("C1", &after_abort);
    assert_eq!(p.oldest_ts, "100.0");

    // The completing retry persists the batch's newest timestamp, once.
    let after_retry = conclude_cycle(after_abort, Some("103.0".to_string()), true);
    assert_eq!(after_retry.last_ts, "103.0");

    // An empty batch moves nothing.
    let unchanged = conclude_cycle(after_retry, None, true);
    assert_eq!(unchanged.last_ts, "103.0");
}

#[test]
fn retry_resends_whole_batch() {
    // A batch of three; the first attempt failed after two sends. The
    // decision layer plans from the same inputs again, so the retry's send
    // list holds all three, the first two a second time.
    let msgs = vec![
        message("3.0", "s3", "c"),
        message("2.0", "s2", "b"),
        message("1.0", "s1", "a"),
    ];
    let ordered = order_oldest_first(msgs);
    let batch_ts = batch_last_ts(&ordered);
    let notifs = build_notifications(ordered, vec![]).unwrap();
    let targets = unsubscribe_targets(&notifs);
    let flags = suppression_flags(notifs.len(), &targets, &vec![]);
    let sent_first_attempt: Vec<Notification> = select_unsuppressed(notifs, &flags);
    assert_eq!(sent_first_attempt.len(), 3);

    // Abort after two of three: the cursor stays, and re-planning from the
    // same fetched batch yields the same three sends.
    let state = State { last_ts: "0.5".to_string() };
    let state = conclude_cycle(state, batch_ts.clone(), false);
    assert_eq!(state.last_ts, "0.5");

    let msgs = vec![
        message("3.0", "s3", "c"),
        message("2.0", "s2", "b"),
        message("1.0", "s1", "a"),
    ];
    let ordered = order_oldest_first(msgs);
    let notifs = build_notifications(ordered, vec![]).unwrap();
    let flags = suppression_flags(notifs.len(), &unsubscribe_targets(&notifs), &vec![]);
    let sent_retry = select_unsuppressed(notifs, &flags);
    assert_eq!(sent_retry.len(), 3);

    let state = conclude_cycle(state, batch_ts, true);
    assert_eq!(state.last_ts, "3.0");
}
