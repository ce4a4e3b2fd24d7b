use pkg_completion::resp::{MsgResp, ReqStatus, Resp};
use pkg_completion::text::{join_commas, str_eq, u64_to_string};
use pkg_completion::workflow::{
    advance_completion, gen_mention_link, mark_vocabulary_list, start_completion, Action, Event,
    Packager, RouteDeletePathSegment, RouteDeleteQuery, Step,
};

/// In-memory stand-in for the status store.
struct FakeStore {
    assignment: Option<(String, Packager)>,
    marks: Vec<(String, String)>,
    fail_find: bool,
    fail_drop: bool,
    fail_remove: bool,
    find_calls: usize,
    drop_calls: usize,
    remove_calls: usize,
}

impl FakeStore {
    fn new(assignment: Option<(String, Packager)>, marks: Vec<(String, String)>) -> Self {
        FakeStore {
            assignment,
            marks,
            fail_find: false,
            fail_drop: false,
            fail_remove: false,
            find_calls: 0,
            drop_calls: 0,
            remove_calls: 0,
        }
    }
}

/// In-memory stand-in for the notifier. `fail_on` lists the zero-based send
/// attempts that fail; the others are recorded in `sent`.
struct FakeNotifier {
    sent: Vec<String>,
    fail_on: Vec<usize>,
    calls: usize,
}

impl FakeNotifier {
    fn new(fail_on: Vec<usize>) -> Self {
        FakeNotifier { sent: Vec::new(), fail_on, calls: 0 }
    }
}

fn alice_assignment() -> Option<(String, Packager)> {
    Some(("foo".to_string(), Packager { tg_uid: 42, alias: "alice".to_string() }))
}

/// Runs one whole invocation against the doubles, performing each action
/// the workflow asks for and feeding its outcome back in.
fn drive(
    store: &mut FakeStore,
    notifier: &mut FakeNotifier,
    pkgname: &str,
    status: &str,
    token: &str,
    secret: &str,
) -> Resp {
    let path = RouteDeletePathSegment { pkgname: pkgname.to_string(), status: status.to_string() };
    let q = RouteDeleteQuery { token: token.to_string() };
    let (mut step, mut action) = start_completion(&path, &q, secret);
    loop {
        let event = match action {
            Action::Respond { resp } => return resp,
            Action::FindPackager { pkgname } => {
                store.find_calls += 1;
                if store.fail_find {
                    Event::PackagerLookup(Err("store down".to_string()))
                } else {
                    match &store.assignment {
                        Some((p, packager)) if *p == pkgname => {
                            Event::PackagerLookup(Ok(packager.clone()))
                        }
                        _ => Event::PackagerLookup(Err("no assignment found".to_string())),
                    }
                }
            }
            Action::SendMessage { text } => {
                let attempt = notifier.calls;
                notifier.calls += 1;
                if notifier.fail_on.contains(&attempt) {
                    Event::NotifySent(Err("telegram api error".to_string()))
                } else {
                    notifier.sent.push(text);
                    Event::NotifySent(Ok(()))
                }
            }
            Action::DropAssign { pkgname, tg_uid } => {
                store.drop_calls += 1;
                if store.fail_drop {
                    Event::AssignDropped(Err("db locked".to_string()))
                } else {
                    match &store.assignment {
                        Some((p, packager)) if *p == pkgname && packager.tg_uid == tg_uid => {
                            store.assignment = None;
                            Event::AssignDropped(Ok(()))
                        }
                        _ => Event::AssignDropped(Err("no such assignment".to_string())),
                    }
                }
            }
            Action::RemoveMarks { pkgname, filter } => {
                store.remove_calls += 1;
                if store.fail_remove {
                    Event::MarksRemoved(Err("db corrupt".to_string()))
                } else {
                    let mut removed = Vec::new();
                    store.marks.retain(|(p, m)| {
                        if *p == pkgname && filter.contains(m) {
                            removed.push(m.clone());
                            false
                        } else {
                            true
                        }
                    });
                    Event::MarksRemoved(Ok(removed))
                }
            }
        };
        let (next_step, next_action) = advance_completion(step, event);
        step = next_step;
        action = next_action;
    }
}

#[test]
fn happy_path_completes_and_reports() {
    let mut store = FakeStore::new(
        alice_assignment(),
        vec![
            ("foo".to_string(), "stuck".to_string()),
            ("foo".to_string(), "ready".to_string()),
        ],
    );
    let mut notifier = FakeNotifier::new(vec![]);
    let resp = drive(&mut store, &mut notifier, "foo", "ftbfs", "secret", "secret");
    assert_eq!(resp.code, 200);
    assert_eq!(resp.body.status, ReqStatus::Success);
    assert_eq!(resp.body.msg, "Request success");
    assert_eq!(resp.body.detail, "package deleted");
    assert_eq!(notifier.sent.len(), 2);
    assert!(notifier.sent[0].contains("alice"));
    assert!(notifier.sent[0].contains("foo"));
    assert!(store.assignment.is_none());
    assert!(store.marks.is_empty());
    assert!(notifier.sent[1].contains("stuck"));
    assert!(notifier.sent[1].contains("ready"));
}

#[test]
fn happy_path_exact_notification_texts() {
    let mut store = FakeStore::new(
        alice_assignment(),
        vec![
            ("foo".to_string(), "stuck".to_string()),
            ("foo".to_string(), "ready".to_string()),
        ],
    );
    let mut notifier = FakeNotifier::new(vec![]);
    let resp = drive(&mut store, &mut notifier, "foo", "leaf", "secret", "secret");
    assert_eq!(resp.code, 200);
    assert_eq!(
        notifier.sent[0],
        "<code>(auto-merge)</code> ping <a href=\"tg://user?id=42\">alice</a>: foo 已出包"
    );
    assert_eq!(
        notifier.sent[1],
        "<code>(auto-unmark)</code> foo 已出包，不再标记为：stuck,ready"
    );
}

#[test]
fn empty_mark_list_is_still_reported() {
    let mut store = FakeStore::new(alice_assignment(), vec![]);
    let mut notifier = FakeNotifier::new(vec![]);
    let resp = drive(&mut store, &mut notifier, "foo", "ftbfs", "secret", "secret");
    assert_eq!(resp.code, 200);
    assert_eq!(
        notifier.sent[1],
        "<code>(auto-unmark)</code> foo 已出包，不再标记为："
    );
}

#[test]
fn wrong_token_rejected_without_side_effects() {
    let mut store = FakeStore::new(alice_assignment(), vec![]);
    let mut notifier = FakeNotifier::new(vec![]);
    let resp = drive(&mut store, &mut notifier, "foo", "ftbfs", "wrong", "secret");
    assert_eq!(resp.code, 403);
    assert_eq!(resp.body.status, ReqStatus::Fail);
    assert_eq!(resp.body.msg, "forbidden");
    assert_eq!(resp.body.detail, "invalid token");
    assert_eq!(notifier.calls, 0);
    assert_eq!(store.find_calls, 0);
    assert_eq!(store.drop_calls, 0);
    assert_eq!(store.remove_calls, 0);
    assert!(store.assignment.is_some());
}

#[test]
fn wrong_token_rejected_even_with_bogus_status() {
    let mut store = FakeStore::new(alice_assignment(), vec![]);
    let mut notifier = FakeNotifier::new(vec![]);
    let resp = drive(&mut store, &mut notifier, "foo", "bogus", "wrong", "secret");
    assert_eq!(resp.code, 403);
    assert_eq!(notifier.calls, 0);
    assert_eq!(store.find_calls, 0);
}

#[test]
fn bogus_status_rejected_without_side_effects() {
    let mut store = FakeStore::new(alice_assignment(), vec![]);
    let mut notifier = FakeNotifier::new(vec![]);
    let resp = drive(&mut store, &mut notifier, "foo", "bogus", "secret", "secret");
    assert_eq!(resp.code, 400);
    assert_eq!(resp.body.status, ReqStatus::Fail);
    assert_eq!(resp.body.msg, "bad request");
    assert_eq!(resp.body.detail, "Required 'ftbfs' or 'leaf', get bogus");
    assert_eq!(notifier.calls, 0);
    assert_eq!(store.find_calls, 0);
    assert_eq!(store.drop_calls, 0);
    assert_eq!(store.remove_calls, 0);
}

#[test]
fn lookup_failure_sends_no_notification() {
    let mut store = FakeStore::new(None, vec![]);
    let mut notifier = FakeNotifier::new(vec![]);
    let resp = drive(&mut store, &mut notifier, "foo", "ftbfs", "secret", "secret");
    assert_eq!(resp.code, 500);
    assert_eq!(resp.body.status, ReqStatus::Fail);
    assert_eq!(resp.body.msg, "fail to fetch packager");
    assert_eq!(resp.body.detail, "no assignment found");
    assert_eq!(notifier.calls, 0);
    assert_eq!(store.drop_calls, 0);
}

#[test]
fn store_error_on_lookup_sends_no_notification() {
    let mut store = FakeStore::new(alice_assignment(), vec![]);
    store.fail_find = true;
    let mut notifier = FakeNotifier::new(vec![]);
    let resp = drive(&mut store, &mut notifier, "foo", "ftbfs", "secret", "secret");
    assert_eq!(resp.code, 500);
    assert_eq!(resp.body.msg, "fail to fetch packager");
    assert_eq!(resp.body.detail, "store down");
    assert_eq!(notifier.calls, 0);
}

#[test]
fn primary_send_failure_never_drops_assignment() {
    let mut store = FakeStore::new(alice_assignment(), vec![]);
    let mut notifier = FakeNotifier::new(vec![0]);
    let resp = drive(&mut store, &mut notifier, "foo", "ftbfs", "secret", "secret");
    assert_eq!(resp.code, 500);
    assert_eq!(resp.body.msg, "fail to send telegram message");
    assert_eq!(resp.body.detail, "telegram api error");
    assert_eq!(store.drop_calls, 0);
    assert!(store.assignment.is_some());
}

#[test]
fn commit_failure_is_absorbed_when_failure_note_sends() {
    let mut store = FakeStore::new(
        alice_assignment(),
        vec![("foo".to_string(), "stuck".to_string())],
    );
    store.fail_drop = true;
    let mut notifier = FakeNotifier::new(vec![]);
    let resp = drive(&mut store, &mut notifier, "foo", "ftbfs", "secret", "secret");
    assert_eq!(resp.code, 200);
    assert_eq!(resp.body.status, ReqStatus::Success);
    assert_eq!(notifier.sent.len(), 3);
    assert_eq!(notifier.sent[1], "<code>(auto-merge)</code> failed: db locked");
    assert!(notifier.sent[1].contains("db locked"));
}

#[test]
fn commit_failure_with_failed_failure_note_is_an_error() {
    let mut store = FakeStore::new(alice_assignment(), vec![]);
    store.fail_drop = true;
    let mut notifier = FakeNotifier::new(vec![1]);
    let resp = drive(&mut store, &mut notifier, "foo", "ftbfs", "secret", "secret");
    assert_eq!(resp.code, 500);
    assert_eq!(resp.body.msg, "fail to send telegram message");
    assert_eq!(store.remove_calls, 0);
}

#[test]
fn mark_outside_vocabulary_survives_completion() {
    let mut store = FakeStore::new(
        alice_assignment(),
        vec![
            ("foo".to_string(), "wip".to_string()),
            ("foo".to_string(), "stuck".to_string()),
        ],
    );
    let mut notifier = FakeNotifier::new(vec![]);
    let resp = drive(&mut store, &mut notifier, "foo", "ftbfs", "secret", "secret");
    assert_eq!(resp.code, 200);
    assert_eq!(store.marks, vec![("foo".to_string(), "wip".to_string())]);
    assert_eq!(
        notifier.sent[1],
        "<code>(auto-unmark)</code> foo 已出包，不再标记为：stuck"
    );
}

#[test]
fn marks_of_other_packages_survive_completion() {
    let mut store = FakeStore::new(
        alice_assignment(),
        vec![
            ("bar".to_string(), "stuck".to_string()),
            ("foo".to_string(), "ready".to_string()),
        ],
    );
    let mut notifier = FakeNotifier::new(vec![]);
    let resp = drive(&mut store, &mut notifier, "foo", "ftbfs", "secret", "secret");
    assert_eq!(resp.code, 200);
    assert_eq!(store.marks, vec![("bar".to_string(), "stuck".to_string())]);
}

#[test]
fn mark_removal_failure_is_reported_not_fatal() {
    let mut store = FakeStore::new(alice_assignment(), vec![]);
    store.fail_remove = true;
    let mut notifier = FakeNotifier::new(vec![]);
    let resp = drive(&mut store, &mut notifier, "foo", "ftbfs", "secret", "secret");
    assert_eq!(resp.code, 200);
    assert_eq!(resp.body.status, ReqStatus::Success);
    assert_eq!(
        notifier.sent[1],
        "fail to delete marks for foo: \n<code>db corrupt</code>"
    );
}

#[test]
fn cleanup_report_send_failure_is_an_error() {
    let mut store = FakeStore::new(alice_assignment(), vec![]);
    let mut notifier = FakeNotifier::new(vec![1]);
    let resp = drive(&mut store, &mut notifier, "foo", "ftbfs", "secret", "secret");
    assert_eq!(resp.code, 500);
    assert_eq!(resp.body.msg, "fail to send telegram message");
    assert_eq!(resp.body.detail, "telegram api error");
}

#[test]
fn mismatched_event_ends_the_invocation() {
    let (step, action) = advance_completion(
        Step::SendingCleanupReport,
        Event::PackagerLookup(Err("late".to_string())),
    );
    assert_eq!(step, Step::Finished);
    match action {
        Action::Respond { resp } => {
            assert_eq!(resp.code, 500);
            assert_eq!(resp.body.msg, "Execution fail");
        }
        _ => panic!("expected a response"),
    }
}

#[test]
fn leaf_status_is_accepted() {
    let mut store = FakeStore::new(alice_assignment(), vec![]);
    let mut notifier = FakeNotifier::new(vec![]);
    let resp = drive(&mut store, &mut notifier, "foo", "leaf", "secret", "secret");
    assert_eq!(resp.code, 200);
}

#[test]
fn mark_vocabulary_is_the_fixed_eight() {
    let v = mark_vocabulary_list();
    assert_eq!(
        v,
        vec![
            "outdated".to_string(),
            "stuck".to_string(),
            "ready".to_string(),
            "outdated_dep".to_string(),
            "missing_dep".to_string(),
            "unknown".to_string(),
            "ignore".to_string(),
            "failing".to_string(),
        ]
    );
}

#[test]
fn mention_link_renders_uid_and_alias() {
    assert_eq!(
        gen_mention_link("alice", 42),
        "<a href=\"tg://user?id=42\">alice</a>"
    );
}

#[test]
fn u64_to_string_exact_values() {
    assert_eq!(u64_to_string(0), "0");
    assert_eq!(u64_to_string(7), "7");
    assert_eq!(u64_to_string(42), "42");
    assert_eq!(u64_to_string(1005), "1005");
    assert_eq!(u64_to_string(u64::MAX), "18446744073709551615");
}

#[test]
fn join_commas_exact_values() {
    assert_eq!(join_commas(&vec![]), "");
    assert_eq!(join_commas(&vec!["a".to_string()]), "a");
    assert_eq!(
        join_commas(&vec!["a".to_string(), "b".to_string(), "c".to_string()]),
        "a,b,c"
    );
}

#[test]
fn str_eq_compares_contents() {
    assert!(str_eq("ftbfs", "ftbfs"));
    assert!(!str_eq("ftbfs", "leaf"));
    assert!(!str_eq("", "a"));
}

#[test]
fn envelope_constructors_exact_fields() {
    let ok = MsgResp::new_200_msg("package deleted".to_string());
    assert_eq!(ok.code, 200);
    assert_eq!(ok.body.status, ReqStatus::Success);
    assert_eq!(ok.body.msg, "Request success");
    assert_eq!(ok.body.detail, "package deleted");

    let ise = MsgResp::new_500_resp("fail to fetch packager", "boom".to_string());
    assert_eq!(ise.code, 500);
    assert_eq!(ise.body.status, ReqStatus::Fail);
    assert_eq!(ise.body.msg, "fail to fetch packager");
    assert_eq!(ise.body.detail, "boom");

    let forbidden = MsgResp::new_403_resp("invalid token");
    assert_eq!(forbidden.code, 403);
    assert_eq!(forbidden.body.msg, "forbidden");

    let bad = MsgResp::new_400_resp("Required 'ftbfs' or 'leaf', get x".to_string());
    assert_eq!(bad.code, 400);
    assert_eq!(bad.body.msg, "bad request");
}
