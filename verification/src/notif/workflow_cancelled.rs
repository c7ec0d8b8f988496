//! Last matcher: a workflow run was cancelled. Triggered by the subject
//! alone and completed from the body's key-value lines, with no lookup; the
//! last occurrence of a key wins. Missing any of the three keys, it falls
//! through to the `Unknown` passthrough.

use crate::email::{Email, EmailV};
use crate::github::{EmailNotif, EmailNotifV};
use crate::notif::{NotifDetail, NotifDetailV, Notification};
use crate::strutil::{
    char_from, contains_seq, find_char_from, matches_at, str_contains, str_matches_at, str_trim,
    trim_spec,
};
use vstd::prelude::*;

verus! {

/// The value of `line` under `key`: the text after the first `:`, trimmed,
/// when everything before that `:` equals `key`.
pub open spec fn kv_value(line: Seq<char>, key: Seq<char>) -> Option<Seq<char>> {
    let k = char_from(line, 0, ':');
    if k < line.len() && k == key.len() && matches_at(line, 0, key) {
        Some(trim_spec(line.skip(k + 1)))
    } else {
        None
    }
}

pub ghost struct WfFieldsV {
    pub repo_fullname: Option<Seq<char>>,
    pub workflow_name: Option<Seq<char>>,
    pub result_url: Option<Seq<char>>,
}

/// Scans all lines for the three keys; later occurrences override earlier
/// ones.
pub open spec fn wf_scan(lines: Seq<Seq<char>>) -> WfFieldsV
    decreases lines.len(),
{
    if lines.len() == 0 {
        WfFieldsV { repo_fullname: None, workflow_name: None, result_url: None }
    } else {
        let prev = wf_scan(lines.drop_last());
        let l = lines.last();
        WfFieldsV {
            repo_fullname: if kv_value(l, "Repository"@) is Some {
                kv_value(l, "Repository"@)
            } else {
                prev.repo_fullname
            },
            workflow_name: if kv_value(l, "Workflow"@) is Some {
                kv_value(l, "Workflow"@)
            } else {
                prev.workflow_name
            },
            result_url: if kv_value(l, "View results"@) is Some {
                kv_value(l, "View results"@)
            } else {
                prev.result_url
            },
        }
    }
}

/// The completed notification, when the subject announces a cancelled run
/// and the body carries all three keys.
pub open spec fn hit_spec(email: EmailV, en: EmailNotifV) -> Option<NotifDetailV> {
    if contains_seq(email.subject, "Run cancelled:"@) {
        let fields = wf_scan(en.lines);
        match (fields.repo_fullname, fields.workflow_name, fields.result_url) {
            (Some(repo), Some(wf), Some(url)) => Some(
                NotifDetailV::WorkflowCancelled {
                    sender_name: email.sender_name,
                    repo_fullname: repo,
                    workflow_name: wf,
                    result_url: url,
                },
            ),
            _ => None,
        }
    } else {
        None
    }
}

/// The value of `line` under `key`, by `kv_value`.
fn line_kv_value(line: &str, key: &str) -> (r: Option<String>)
    ensures
        r.deep_view() == kv_value(line@, key@),
{
    let ln = line.unicode_len();
    let k = find_char_from(line, 0, ':');
    if k >= ln {
        return None;
    }
    let kn = key.unicode_len();
    if k != kn {
        return None;
    }
    if !str_matches_at(line, 0, key) {
        return None;
    }
    let rest = line.substring_char(k + 1, ln);
    assert(rest@ =~= line@.skip(k + 1));
    Some(str_trim(rest))
}

/// Recognises a cancelled-run email; the rule is `hit_spec`.
pub(super) fn hit(email: &Email, enotif: &EmailNotif) -> (r: Option<Notification>)
    ensures
        match r {
            Some(n) => hit_spec(email@, enotif@) == Some(n@),
            None => hit_spec(email@, enotif@) is None,
        },
{
    if !str_contains(email.subject.as_str(), "Run cancelled:") {
        return None;
    }
    let mut repo_fullname: Option<String> = None;
    let mut workflow_name: Option<String> = None;
    let mut result_url: Option<String> = None;
    let n = enotif.lines.len();
    for i in 0..n
        invariant
            n == enotif.lines.len(),
            repo_fullname.deep_view() == wf_scan(
                enotif.lines.deep_view().take(i as int),
            ).repo_fullname,
            workflow_name.deep_view() == wf_scan(
                enotif.lines.deep_view().take(i as int),
            ).workflow_name,
            result_url.deep_view() == wf_scan(enotif.lines.deep_view().take(i as int)).result_url,
    {
        proof {
            assert(enotif.lines.deep_view().take(i + 1).drop_last() =~= enotif.lines.deep_view()
                .take(i as int));
            assert(enotif.lines.deep_view().take(i + 1).last() == enotif.lines.deep_view()[i as int]);
        }
        let l = enotif.lines[i].as_str();
        if let Some(v) = line_kv_value(l, "Repository") {
            repo_fullname = Some(v);
        }
        if let Some(v) = line_kv_value(l, "Workflow") {
            workflow_name = Some(v);
        }
        if let Some(v) = line_kv_value(l, "View results") {
            result_url = Some(v);
        }
    }
    assert(enotif.lines.deep_view().take(n as int) =~= enotif.lines.deep_view());
    match (repo_fullname, workflow_name, result_url) {
        (Some(repo), Some(wf), Some(url)) => Some(
            Notification {
                detail: NotifDetail::WorkflowCancelled {
                    sender_name: email.sender_name.clone(),
                    repo_fullname: repo,
                    workflow_name: wf,
                    result_url: url,
                },
            },
        ),
        _ => None,
    }
}

} // verus!
