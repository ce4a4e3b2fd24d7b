//! Workflow-wide guarantees, proved over whole invocation traces.
//!
//! `spec_workflow` gives every action an invocation emits, one per
//! outside-call outcome fed back in. The proofs here pin down what can and
//! cannot appear in such a trace: rejections are side-effect free, failures
//! stop the right steps, a commit failure is absorbed, and mark cleanup
//! never reaches outside the fixed vocabulary.

use vstd::prelude::*;

use crate::resp::{resp_200, resp_400, resp_403, resp_500};
use crate::workflow::{
    cleanup_fail_text, cleanup_ok_text, drop_fail_text, mark_vocabulary, primary_text, run_from,
    spec_start, spec_step, spec_workflow, ActionView, EventView, PackagerView, StepView,
};

verus! {

/// Whether the action sends a notification.
pub open spec fn is_notify(a: ActionView) -> bool {
    match a {
        ActionView::SendMessage { .. } => true,
        _ => false,
    }
}

/// Whether the action calls the status store.
pub open spec fn is_store_call(a: ActionView) -> bool {
    match a {
        ActionView::FindPackager { .. } => true,
        ActionView::DropAssign { .. } => true,
        ActionView::RemoveMarks { .. } => true,
        _ => false,
    }
}

/// Whether the action commits an unassignment.
pub open spec fn is_drop_assign(a: ActionView) -> bool {
    match a {
        ActionView::DropAssign { .. } => true,
        _ => false,
    }
}

/// Whether the action, if it removes marks, restricts itself to the fixed
/// vocabulary.
pub open spec fn filter_is_vocabulary(a: ActionView) -> bool {
    match a {
        ActionView::RemoveMarks { filter, .. } => filter == mark_vocabulary(),
        _ => true,
    }
}

/// A finished invocation emits nothing further, whatever else is fed in.
pub proof fn lemma_finished_runs_empty(events: Seq<EventView>)
    ensures
        run_from(StepView::Finished, events) =~= Seq::<ActionView>::empty(),
{
}

/// A status outside {ftbfs, leaf} is rejected with a bad-request response
/// whose detail echoes the offending value, and neither the status store
/// nor the notifier is ever invoked.
pub proof fn lemma_invalid_status_rejected(
    pkgname: Seq<char>,
    status: Seq<char>,
    token: Seq<char>,
    secret: Seq<char>,
    events: Seq<EventView>,
)
    requires
        token == secret,
        status != "ftbfs"@,
        status != "leaf"@,
    ensures
        ({
            let trace = spec_workflow(pkgname, status, token, secret, events);
            &&& trace =~= seq![
                ActionView::Respond {
                    resp: resp_400("Required 'ftbfs' or 'leaf', get "@ + status),
                },
            ]
            &&& forall|i: int|
                0 <= i < trace.len() ==> !is_notify(#[trigger] trace[i]) && !is_store_call(
                    trace[i],
                )
        }),
{
    lemma_finished_runs_empty(events);
}

/// A credential that differs from the configured secret is rejected with a
/// forbidden response and zero side effects, whatever the status is.
pub proof fn lemma_wrong_token_rejected(
    pkgname: Seq<char>,
    status: Seq<char>,
    token: Seq<char>,
    secret: Seq<char>,
    events: Seq<EventView>,
)
    requires
        token != secret,
    ensures
        ({
            let trace = spec_workflow(pkgname, status, token, secret, events);
            &&& trace =~= seq![ActionView::Respond { resp: resp_403("invalid token"@) }]
            &&& forall|i: int|
                0 <= i < trace.len() ==> !is_notify(#[trigger] trace[i]) && !is_store_call(
                    trace[i],
                )
        }),
{
    lemma_finished_runs_empty(events);
}

/// If the packager lookup fails, the invocation ends with a server-error
/// response and no notification is ever sent.
pub proof fn lemma_lookup_failure_sends_nothing(
    pkgname: Seq<char>,
    status: Seq<char>,
    token: Seq<char>,
    secret: Seq<char>,
    err: Seq<char>,
    rest: Seq<EventView>,
)
    requires
        token == secret,
        status == "ftbfs"@ || status == "leaf"@,
    ensures
        ({
            let events = seq![EventView::PackagerLookup(Err(err))] + rest;
            let trace = spec_workflow(pkgname, status, token, secret, events);
            &&& trace =~= seq![
                ActionView::FindPackager { pkgname },
                ActionView::Respond { resp: resp_500("fail to fetch packager"@, err) },
            ]
            &&& forall|i: int| 0 <= i < trace.len() ==> !is_notify(#[trigger] trace[i])
        }),
{
    let events = seq![EventView::PackagerLookup(Err(err))] + rest;
    let first = spec_start(pkgname, status, token, secret);
    let next = spec_step(first.0, events[0]);
    assert(run_from(first.0, events) =~= seq![next.1] + run_from(next.0, events.skip(1)));
    lemma_finished_runs_empty(events.skip(1));
}

/// If the primary notification send fails, the invocation ends with a
/// server-error response and the unassignment is never committed.
pub proof fn lemma_primary_send_failure_never_drops(
    pkgname: Seq<char>,
    status: Seq<char>,
    token: Seq<char>,
    secret: Seq<char>,
    p: PackagerView,
    err: Seq<char>,
    rest: Seq<EventView>,
)
    requires
        token == secret,
        status == "ftbfs"@ || status == "leaf"@,
    ensures
        ({
            let events = seq![
                EventView::PackagerLookup(Ok(p)),
                EventView::NotifySent(Err(err)),
            ] + rest;
            let trace = spec_workflow(pkgname, status, token, secret, events);
            &&& trace =~= seq![
                ActionView::FindPackager { pkgname },
                ActionView::SendMessage { text: primary_text(pkgname, p) },
                ActionView::Respond { resp: resp_500("fail to send telegram message"@, err) },
            ]
            &&& forall|i: int| 0 <= i < trace.len() ==> !is_drop_assign(#[trigger] trace[i])
        }),
{
    let events = seq![
        EventView::PackagerLookup(Ok(p)),
        EventView::NotifySent(Err(err)),
    ] + rest;
    let first = spec_start(pkgname, status, token, secret);
    let s1 = spec_step(first.0, events[0]);
    assert(run_from(first.0, events) =~= seq![s1.1] + run_from(s1.0, events.skip(1)));
    let s2 = spec_step(s1.0, events.skip(1)[0]);
    assert(run_from(s1.0, events.skip(1)) =~= seq![s2.1] + run_from(
        s2.0,
        events.skip(1).skip(1),
    ));
    lemma_finished_runs_empty(events.skip(1).skip(1));
}

/// The cleanup report sent for a given mark-removal outcome.
pub open spec fn cleanup_report_text(
    pkgname: Seq<char>,
    marks_result: Result<Seq<Seq<char>>, Seq<char>>,
) -> Seq<char> {
    match marks_result {
        Ok(marks) => cleanup_ok_text(pkgname, marks),
        Err(err) => cleanup_fail_text(pkgname, err),
    }
}

/// The commit-failure notification carries the raw store error: after its
/// fixed prefix, the text is exactly the error.
pub proof fn lemma_drop_fail_text_carries_error(err: Seq<char>)
    ensures
        drop_fail_text(err).skip("<code>(auto-merge)</code> failed: "@.len() as int) =~= err,
{
}

/// Soft-failure absorption: when the unassignment commit fails but every
/// notification send succeeds, the invocation still answers with the
/// success response, and the failure notification embeds the raw store
/// error after its fixed prefix.
pub proof fn lemma_commit_failure_absorbed(
    pkgname: Seq<char>,
    status: Seq<char>,
    token: Seq<char>,
    secret: Seq<char>,
    p: PackagerView,
    store_err: Seq<char>,
    marks_result: Result<Seq<Seq<char>>, Seq<char>>,
    rest: Seq<EventView>,
)
    requires
        token == secret,
        status == "ftbfs"@ || status == "leaf"@,
    ensures
        ({
            let events = seq![
                EventView::PackagerLookup(Ok(p)),
                EventView::NotifySent(Ok(())),
                EventView::AssignDropped(Err(store_err)),
                EventView::NotifySent(Ok(())),
                EventView::MarksRemoved(marks_result),
                EventView::NotifySent(Ok(())),
            ] + rest;
            let trace = spec_workflow(pkgname, status, token, secret, events);
            &&& trace =~= seq![
                ActionView::FindPackager { pkgname },
                ActionView::SendMessage { text: primary_text(pkgname, p) },
                ActionView::DropAssign { pkgname, tg_uid: p.tg_uid },
                ActionView::SendMessage { text: drop_fail_text(store_err) },
                ActionView::RemoveMarks { pkgname, filter: mark_vocabulary() },
                ActionView::SendMessage { text: cleanup_report_text(pkgname, marks_result) },
                ActionView::Respond { resp: resp_200("package deleted"@) },
            ]
            &&& drop_fail_text(store_err).skip("<code>(auto-merge)</code> failed: "@.len() as int)
                =~= store_err
        }),
{
    let events = seq![
        EventView::PackagerLookup(Ok(p)),
        EventView::NotifySent(Ok(())),
        EventView::AssignDropped(Err(store_err)),
        EventView::NotifySent(Ok(())),
        EventView::MarksRemoved(marks_result),
        EventView::NotifySent(Ok(())),
    ] + rest;
    let first = spec_start(pkgname, status, token, secret);
    let s1 = spec_step(first.0, events[0]);
    let e1 = events.skip(1);
    assert(run_from(first.0, events) =~= seq![s1.1] + run_from(s1.0, e1));
    let s2 = spec_step(s1.0, e1[0]);
    let e2 = e1.skip(1);
    assert(run_from(s1.0, e1) =~= seq![s2.1] + run_from(s2.0, e2));
    let s3 = spec_step(s2.0, e2[0]);
    let e3 = e2.skip(1);
    assert(run_from(s2.0, e2) =~= seq![s3.1] + run_from(s3.0, e3));
    let s4 = spec_step(s3.0, e3[0]);
    let e4 = e3.skip(1);
    assert(run_from(s3.0, e3) =~= seq![s4.1] + run_from(s4.0, e4));
    let s5 = spec_step(s4.0, e4[0]);
    let e5 = e4.skip(1);
    assert(run_from(s4.0, e4) =~= seq![s5.1] + run_from(s5.0, e5));
    let s6 = spec_step(s5.0, e5[0]);
    let e6 = e5.skip(1);
    assert(run_from(s5.0, e5) =~= seq![s6.1] + run_from(s6.0, e6));
    lemma_finished_runs_empty(e6);
    lemma_drop_fail_text_carries_error(store_err);
}

/// When the unassignment commit succeeds and every notification send
/// succeeds, the invocation answers with the success response, whichever
/// way the mark removal itself came out.
pub proof fn lemma_all_sends_ok_gives_success(
    pkgname: Seq<char>,
    status: Seq<char>,
    token: Seq<char>,
    secret: Seq<char>,
    p: PackagerView,
    marks_result: Result<Seq<Seq<char>>, Seq<char>>,
    rest: Seq<EventView>,
)
    requires
        token == secret,
        status == "ftbfs"@ || status == "leaf"@,
    ensures
        ({
            let events = seq![
                EventView::PackagerLookup(Ok(p)),
                EventView::NotifySent(Ok(())),
                EventView::AssignDropped(Ok(())),
                EventView::MarksRemoved(marks_result),
                EventView::NotifySent(Ok(())),
            ] + rest;
            let trace = spec_workflow(pkgname, status, token, secret, events);
            trace =~= seq![
                ActionView::FindPackager { pkgname },
                ActionView::SendMessage { text: primary_text(pkgname, p) },
                ActionView::DropAssign { pkgname, tg_uid: p.tg_uid },
                ActionView::RemoveMarks { pkgname, filter: mark_vocabulary() },
                ActionView::SendMessage { text: cleanup_report_text(pkgname, marks_result) },
                ActionView::Respond { resp: resp_200("package deleted"@) },
            ]
        }),
{
    let events = seq![
        EventView::PackagerLookup(Ok(p)),
        EventView::NotifySent(Ok(())),
        EventView::AssignDropped(Ok(())),
        EventView::MarksRemoved(marks_result),
        EventView::NotifySent(Ok(())),
    ] + rest;
    let first = spec_start(pkgname, status, token, secret);
    let s1 = spec_step(first.0, events[0]);
    let e1 = events.skip(1);
    assert(run_from(first.0, events) =~= seq![s1.1] + run_from(s1.0, e1));
    let s2 = spec_step(s1.0, e1[0]);
    let e2 = e1.skip(1);
    assert(run_from(s1.0, e1) =~= seq![s2.1] + run_from(s2.0, e2));
    let s3 = spec_step(s2.0, e2[0]);
    let e3 = e2.skip(1);
    assert(run_from(s2.0, e2) =~= seq![s3.1] + run_from(s3.0, e3));
    let s4 = spec_step(s3.0, e3[0]);
    let e4 = e3.skip(1);
    assert(run_from(s3.0, e3) =~= seq![s4.1] + run_from(s4.0, e4));
    let s5 = spec_step(s4.0, e4[0]);
    let e5 = e4.skip(1);
    assert(run_from(s4.0, e4) =~= seq![s5.1] + run_from(s5.0, e5));
    lemma_finished_runs_empty(e5);
}

/// If the commit fails and the failure notification cannot be sent either,
/// the invocation ends with a server-error response, and the mark cleanup
/// never runs.
pub proof fn lemma_commit_note_failure_is_error(
    pkgname: Seq<char>,
    status: Seq<char>,
    token: Seq<char>,
    secret: Seq<char>,
    p: PackagerView,
    store_err: Seq<char>,
    send_err: Seq<char>,
    rest: Seq<EventView>,
)
    requires
        token == secret,
        status == "ftbfs"@ || status == "leaf"@,
    ensures
        ({
            let events = seq![
                EventView::PackagerLookup(Ok(p)),
                EventView::NotifySent(Ok(())),
                EventView::AssignDropped(Err(store_err)),
                EventView::NotifySent(Err(send_err)),
            ] + rest;
            let trace = spec_workflow(pkgname, status, token, secret, events);
            &&& trace =~= seq![
                ActionView::FindPackager { pkgname },
                ActionView::SendMessage { text: primary_text(pkgname, p) },
                ActionView::DropAssign { pkgname, tg_uid: p.tg_uid },
                ActionView::SendMessage { text: drop_fail_text(store_err) },
                ActionView::Respond {
                    resp: resp_500("fail to send telegram message"@, send_err),
                },
            ]
            &&& forall|i: int|
                0 <= i < trace.len() ==> !(#[trigger] trace[i] matches ActionView::RemoveMarks {
                    ..
                })
        }),
{
    let events = seq![
        EventView::PackagerLookup(Ok(p)),
        EventView::NotifySent(Ok(())),
        EventView::AssignDropped(Err(store_err)),
        EventView::NotifySent(Err(send_err)),
    ] + rest;
    let first = spec_start(pkgname, status, token, secret);
    let s1 = spec_step(first.0, events[0]);
    let e1 = events.skip(1);
    assert(run_from(first.0, events) =~= seq![s1.1] + run_from(s1.0, e1));
    let s2 = spec_step(s1.0, e1[0]);
    let e2 = e1.skip(1);
    assert(run_from(s1.0, e1) =~= seq![s2.1] + run_from(s2.0, e2));
    let s3 = spec_step(s2.0, e2[0]);
    let e3 = e2.skip(1);
    assert(run_from(s2.0, e2) =~= seq![s3.1] + run_from(s3.0, e3));
    let s4 = spec_step(s3.0, e3[0]);
    let e4 = e3.skip(1);
    assert(run_from(s3.0, e3) =~= seq![s4.1] + run_from(s4.0, e4));
    lemma_finished_runs_empty(e4);
}

/// If the cleanup report cannot be sent, the invocation ends with a
/// server-error response carrying the send error.
pub proof fn lemma_cleanup_send_failure_is_error(
    pkgname: Seq<char>,
    status: Seq<char>,
    token: Seq<char>,
    secret: Seq<char>,
    p: PackagerView,
    marks_result: Result<Seq<Seq<char>>, Seq<char>>,
    send_err: Seq<char>,
    rest: Seq<EventView>,
)
    requires
        token == secret,
        status == "ftbfs"@ || status == "leaf"@,
    ensures
        ({
            let events = seq![
                EventView::PackagerLookup(Ok(p)),
                EventView::NotifySent(Ok(())),
                EventView::AssignDropped(Ok(())),
                EventView::MarksRemoved(marks_result),
                EventView::NotifySent(Err(send_err)),
            ] + rest;
            let trace = spec_workflow(pkgname, status, token, secret, events);
            trace =~= seq![
                ActionView::FindPackager { pkgname },
                ActionView::SendMessage { text: primary_text(pkgname, p) },
                ActionView::DropAssign { pkgname, tg_uid: p.tg_uid },
                ActionView::RemoveMarks { pkgname, filter: mark_vocabulary() },
                ActionView::SendMessage { text: cleanup_report_text(pkgname, marks_result) },
                ActionView::Respond {
                    resp: resp_500("fail to send telegram message"@, send_err),
                },
            ]
        }),
{
    let events = seq![
        EventView::PackagerLookup(Ok(p)),
        EventView::NotifySent(Ok(())),
        EventView::AssignDropped(Ok(())),
        EventView::MarksRemoved(marks_result),
        EventView::NotifySent(Err(send_err)),
    ] + rest;
    let first = spec_start(pkgname, status, token, secret);
    let s1 = spec_step(first.0, events[0]);
    let e1 = events.skip(1);
    assert(run_from(first.0, events) =~= seq![s1.1] + run_from(s1.0, e1));
    let s2 = spec_step(s1.0, e1[0]);
    let e2 = e1.skip(1);
    assert(run_from(s1.0, e1) =~= seq![s2.1] + run_from(s2.0, e2));
    let s3 = spec_step(s2.0, e2[0]);
    let e3 = e2.skip(1);
    assert(run_from(s2.0, e2) =~= seq![s3.1] + run_from(s3.0, e3));
    let s4 = spec_step(s3.0, e3[0]);
    let e4 = e3.skip(1);
    assert(run_from(s3.0, e3) =~= seq![s4.1] + run_from(s4.0, e4));
    let s5 = spec_step(s4.0, e4[0]);
    let e5 = e4.skip(1);
    assert(run_from(s4.0, e4) =~= seq![s5.1] + run_from(s5.0, e5));
    lemma_finished_runs_empty(e5);
}

/// Every mark removal, in every trace from any step, is restricted to the
/// fixed vocabulary.
pub proof fn lemma_run_filter_fixed(s: StepView, events: Seq<EventView>)
    ensures
        forall|i: int|
            0 <= i < run_from(s, events).len() ==> filter_is_vocabulary(
                #[trigger] run_from(s, events)[i],
            ),
    decreases events.len(),
{
    if s is Finished || events.len() == 0 {
    } else {
        let next = spec_step(s, events[0]);
        lemma_run_filter_fixed(next.0, events.skip(1));
        assert(filter_is_vocabulary(next.1));
        assert(run_from(s, events) =~= seq![next.1] + run_from(next.0, events.skip(1)));
        assert forall|i: int| 0 <= i < run_from(s, events).len() implies filter_is_vocabulary(
            #[trigger] run_from(s, events)[i],
        ) by {
            if i > 0 {
                assert(run_from(s, events)[i] == run_from(next.0, events.skip(1))[i - 1]);
            }
        }
    }
}

/// Mark cleanup is restricted to the fixed vocabulary in every invocation:
/// whatever the inputs and outcomes, no emitted removal names a mark
/// outside it, so a mark outside the vocabulary survives completion.
pub proof fn lemma_mark_cleanup_restricted(
    pkgname: Seq<char>,
    status: Seq<char>,
    token: Seq<char>,
    secret: Seq<char>,
    events: Seq<EventView>,
)
    ensures
        forall|i: int|
            0 <= i < spec_workflow(pkgname, status, token, secret, events).len()
                ==> filter_is_vocabulary(
                #[trigger] spec_workflow(pkgname, status, token, secret, events)[i],
            ),
{
    let first = spec_start(pkgname, status, token, secret);
    lemma_run_filter_fixed(first.0, events);
    assert(filter_is_vocabulary(first.1));
    assert forall|i: int|
        0 <= i < spec_workflow(pkgname, status, token, secret, events).len()
            implies filter_is_vocabulary(
        #[trigger] spec_workflow(pkgname, status, token, secret, events)[i],
    ) by {
        if i > 0 {
            assert(spec_workflow(pkgname, status, token, secret, events)[i] == run_from(
                first.0,
                events,
            )[i - 1]);
        }
    }
}

} // verus!
