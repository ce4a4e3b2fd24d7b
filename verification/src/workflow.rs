//! The package-completion workflow, as a verified state machine.
//!
//! One invocation is strictly sequential: it validates the caller's
//! credential and the requested status, resolves the assigned packager,
//! sends a primary chat notification, commits the unassignment (reporting a
//! commit failure sideways through a second notification instead of failing
//! the request), then removes the fixed vocabulary of advisory marks and
//! reports the cleanup through a third notification. Notification delivery
//! is the hard failure boundary: any failed send ends the invocation with a
//! server-error response, while a storage failure after the primary
//! notification is absorbed.
//!
//! `start_completion` and `advance_completion` take every decision;
//! the storage and chat calls themselves are performed by the caller, which
//! executes each returned [`Action`] and feeds the outcome back as an
//! [`Event`].

use vstd::prelude::*;

use crate::resp::{resp_200, resp_400, resp_403, resp_500, MsgResp, Resp, RespView};
use crate::text::{dec_rep, join_commas, spec_join_commas, str_eq, u64_to_string};

verus! {

/// The packager currently assigned to a package: chat identity and the
/// display alias used in notifications.
#[derive(Clone, Debug, PartialEq, Eq)]
pub struct Packager {
    pub tg_uid: u64,
    pub alias: String,
}

/// Mathematical model of a packager.
pub struct PackagerView {
    pub tg_uid: u64,
    pub alias: Seq<char>,
}

impl View for Packager {
    type V = PackagerView;

    open spec fn view(&self) -> PackagerView {
        PackagerView { tg_uid: self.tg_uid, alias: self.alias@ }
    }
}

/// Path segments of the completion route: the package name and the status
/// the packager reports for it.
#[derive(Clone, Debug, PartialEq, Eq)]
pub struct RouteDeletePathSegment {
    pub pkgname: String,
    pub status: String,
}

/// Query part of the completion route: the caller-supplied credential.
#[derive(Clone, Debug, PartialEq, Eq)]
pub struct RouteDeleteQuery {
    pub token: String,
}

/// Where one invocation stands between two outside calls.
#[derive(Clone, Debug, PartialEq, Eq)]
pub enum Step {
    /// Waiting for the packager lookup.
    FindingPackager { pkgname: String },
    /// Waiting for the primary completion notification to be sent.
    SendingPrimary { pkgname: String, packager: Packager },
    /// Waiting for the unassignment commit.
    Committing { pkgname: String },
    /// The commit failed; waiting for the failure notification to be sent.
    SendingCommitFailure { pkgname: String },
    /// Waiting for the mark removal.
    CleaningUp { pkgname: String },
    /// Waiting for the cleanup-report notification to be sent.
    SendingCleanupReport,
    /// The invocation is over; no further call is made.
    Finished,
}

/// Mathematical model of a [`Step`].
pub enum StepView {
    FindingPackager { pkgname: Seq<char> },
    SendingPrimary { pkgname: Seq<char>, packager: PackagerView },
    Committing { pkgname: Seq<char> },
    SendingCommitFailure { pkgname: Seq<char> },
    CleaningUp { pkgname: Seq<char> },
    SendingCleanupReport,
    Finished,
}

impl View for Step {
    type V = StepView;

    open spec fn view(&self) -> StepView {
        match self {
            Step::FindingPackager { pkgname } => StepView::FindingPackager { pkgname: pkgname@ },
            Step::SendingPrimary { pkgname, packager } => StepView::SendingPrimary {
                pkgname: pkgname@,
                packager: packager@,
            },
            Step::Committing { pkgname } => StepView::Committing { pkgname: pkgname@ },
            Step::SendingCommitFailure { pkgname } => StepView::SendingCommitFailure {
                pkgname: pkgname@,
            },
            Step::CleaningUp { pkgname } => StepView::CleaningUp { pkgname: pkgname@ },
            Step::SendingCleanupReport => StepView::SendingCleanupReport,
            Step::Finished => StepView::Finished,
        }
    }
}

/// The outcome of the outside call the workflow last asked for. Errors
/// arrive already rendered as text.
#[derive(Debug, PartialEq, Eq)]
pub enum Event {
    /// Outcome of the packager lookup.
    PackagerLookup(Result<Packager, String>),
    /// Outcome of a notification send.
    NotifySent(Result<(), String>),
    /// Outcome of the unassignment commit.
    AssignDropped(Result<(), String>),
    /// Outcome of the mark removal: the names actually removed.
    MarksRemoved(Result<Vec<String>, String>),
}

/// Mathematical model of an [`Event`].
pub enum EventView {
    PackagerLookup(Result<PackagerView, Seq<char>>),
    NotifySent(Result<(), Seq<char>>),
    AssignDropped(Result<(), Seq<char>>),
    MarksRemoved(Result<Seq<Seq<char>>, Seq<char>>),
}

impl View for Event {
    type V = EventView;

    open spec fn view(&self) -> EventView {
        match self {
            Event::PackagerLookup(res) => EventView::PackagerLookup(
                match res {
                    Ok(p) => Ok(p@),
                    Err(e) => Err(e@),
                },
            ),
            Event::NotifySent(res) => EventView::NotifySent(
                match res {
                    Ok(u) => Ok(*u),
                    Err(e) => Err(e@),
                },
            ),
            Event::AssignDropped(res) => EventView::AssignDropped(
                match res {
                    Ok(u) => Ok(*u),
                    Err(e) => Err(e@),
                },
            ),
            Event::MarksRemoved(res) => EventView::MarksRemoved(
                match res {
                    Ok(marks) => Ok(marks.deep_view()),
                    Err(e) => Err(e@),
                },
            ),
        }
    }
}

/// The next outside call to make, or the final response.
#[derive(Clone, Debug, PartialEq, Eq)]
pub enum Action {
    /// Look up the packager assigned to the package.
    FindPackager { pkgname: String },
    /// Send one text message to the configured chat channel.
    SendMessage { text: String },
    /// Remove the assignment record for the (package, packager) pair.
    DropAssign { pkgname: String, tg_uid: u64 },
    /// Remove the marks of the package whose names are in `filter`.
    RemoveMarks { pkgname: String, filter: Vec<String> },
    /// Nothing further: answer the caller with this response.
    Respond { resp: Resp },
}

/// Mathematical model of an [`Action`].
pub enum ActionView {
    FindPackager { pkgname: Seq<char> },
    SendMessage { text: Seq<char> },
    DropAssign { pkgname: Seq<char>, tg_uid: u64 },
    RemoveMarks { pkgname: Seq<char>, filter: Seq<Seq<char>> },
    Respond { resp: RespView },
}

impl View for Action {
    type V = ActionView;

    open spec fn view(&self) -> ActionView {
        match self {
            Action::FindPackager { pkgname } => ActionView::FindPackager { pkgname: pkgname@ },
            Action::SendMessage { text } => ActionView::SendMessage { text: text@ },
            Action::DropAssign { pkgname, tg_uid } => ActionView::DropAssign {
                pkgname: pkgname@,
                tg_uid: *tg_uid,
            },
            Action::RemoveMarks { pkgname, filter } => ActionView::RemoveMarks {
                pkgname: pkgname@,
                filter: filter.deep_view(),
            },
            Action::Respond { resp } => ActionView::Respond { resp: resp@ },
        }
    }
}

/// The fixed vocabulary of "needs attention" marks that completion
/// invalidates. Marks outside this list are never touched.
pub open spec fn mark_vocabulary() -> Seq<Seq<char>> {
    seq![
        "outdated"@,
        "stuck"@,
        "ready"@,
        "outdated_dep"@,
        "missing_dep"@,
        "unknown"@,
        "ignore"@,
        "failing"@,
    ]
}

/// The mark vocabulary as a list of owned strings.
pub fn mark_vocabulary_list() -> (r: Vec<String>)
    ensures
        r.deep_view() == mark_vocabulary(),
{
    let mut v: Vec<String> = Vec::new();
    v.push(String::from_str("outdated"));
    v.push(String::from_str("stuck"));
    v.push(String::from_str("ready"));
    v.push(String::from_str("outdated_dep"));
    v.push(String::from_str("missing_dep"));
    v.push(String::from_str("unknown"));
    v.push(String::from_str("ignore"));
    v.push(String::from_str("failing"));
    proof {
        assert(v.deep_view() =~= mark_vocabulary());
    }
    v
}

/// An HTML mention link for the packager, as chat clients render it.
pub open spec fn mention_link_of(alias: Seq<char>, tg_uid: u64) -> Seq<char> {
    "<a href=\"tg://user?id="@ + dec_rep(tg_uid as nat) + "\">"@ + alias + "</a>"@
}

/// Builds the HTML mention link for a packager.
pub fn gen_mention_link(alias: &str, tg_uid: u64) -> (r: String)
    ensures
        r@ == mention_link_of(alias@, tg_uid),
{
    let mut s = String::from_str("<a href=\"tg://user?id=");
    let uid = u64_to_string(tg_uid);
    s.append(uid.as_str());
    s.append("\">");
    s.append(alias);
    s.append("</a>");
    s
}

/// The primary completion notification: tagged as an automated merge event,
/// mentioning the packager and naming the package.
pub open spec fn primary_text(pkgname: Seq<char>, packager: PackagerView) -> Seq<char> {
    "<code>(auto-merge)</code> ping "@ + mention_link_of(packager.alias, packager.tg_uid)
        + ": "@ + pkgname + " 已出包"@
}

fn build_primary_text(pkgname: &str, packager: &Packager) -> (r: String)
    ensures
        r@ == primary_text(pkgname@, packager@),
{
    let mut s = String::from_str("<code>(auto-merge)</code> ping ");
    let link = gen_mention_link(packager.alias.as_str(), packager.tg_uid);
    s.append(link.as_str());
    s.append(": ");
    s.append(pkgname);
    s.append(" 已出包");
    s
}

/// The notification sent when the unassignment commit fails: the raw store
/// error follows the fixed prefix.
pub open spec fn drop_fail_text(err: Seq<char>) -> Seq<char> {
    "<code>(auto-merge)</code> failed: "@ + err
}

fn build_drop_fail_text(err: &str) -> (r: String)
    ensures
        r@ == drop_fail_text(err@),
{
    let mut s = String::from_str("<code>(auto-merge)</code> failed: ");
    s.append(err);
    s
}

/// The cleanup report: which marks the package is no longer flagged with.
pub open spec fn cleanup_ok_text(pkgname: Seq<char>, marks: Seq<Seq<char>>) -> Seq<char> {
    "<code>(auto-unmark)</code> "@ + pkgname + " 已出包，不再标记为："@
        + spec_join_commas(marks)
}

fn build_cleanup_ok_text(pkgname: &str, marks: &Vec<String>) -> (r: String)
    ensures
        r@ == cleanup_ok_text(pkgname@, marks.deep_view()),
{
    let mut s = String::from_str("<code>(auto-unmark)</code> ");
    s.append(pkgname);
    s.append(" 已出包，不再标记为：");
    let joined = join_commas(marks);
    s.append(joined.as_str());
    s
}

/// The notification sent when mark removal itself fails: embeds the raw
/// store error for operator visibility.
pub open spec fn cleanup_fail_text(pkgname: Seq<char>, err: Seq<char>) -> Seq<char> {
    "fail to delete marks for "@ + pkgname + ": \n<code>"@ + err + "</code>"@
}

fn build_cleanup_fail_text(pkgname: &str, err: &str) -> (r: String)
    ensures
        r@ == cleanup_fail_text(pkgname@, err@),
{
    let mut s = String::from_str("fail to delete marks for ");
    s.append(pkgname);
    s.append(": \n<code>");
    s.append(err);
    s.append("</code>");
    s
}

/// What the first decision of an invocation is: reject outright, or start
/// the packager lookup.
pub open spec fn spec_start(
    pkgname: Seq<char>,
    status: Seq<char>,
    token: Seq<char>,
    secret: Seq<char>,
) -> (StepView, ActionView) {
    if token != secret {
        (
            StepView::Finished,
            ActionView::Respond { resp: resp_403("invalid token"@) },
        )
    } else if status != "ftbfs"@ && status != "leaf"@ {
        (
            StepView::Finished,
            ActionView::Respond {
                resp: resp_400("Required 'ftbfs' or 'leaf', get "@ + status),
            },
        )
    } else {
        (
            StepView::FindingPackager { pkgname },
            ActionView::FindPackager { pkgname },
        )
    }
}

/// What each later decision of an invocation is, given where it stands and
/// what the last outside call came back with.
pub open spec fn spec_step(s: StepView, e: EventView) -> (StepView, ActionView) {
    match (s, e) {
        (StepView::FindingPackager { pkgname }, EventView::PackagerLookup(res)) => match res {
            Ok(p) => (
                StepView::SendingPrimary { pkgname, packager: p },
                ActionView::SendMessage { text: primary_text(pkgname, p) },
            ),
            Err(err) => (
                StepView::Finished,
                ActionView::Respond { resp: resp_500("fail to fetch packager"@, err) },
            ),
        },
        (StepView::SendingPrimary { pkgname, packager }, EventView::NotifySent(res)) => match res {
            Ok(_) => (
                StepView::Committing { pkgname },
                ActionView::DropAssign { pkgname, tg_uid: packager.tg_uid },
            ),
            Err(err) => (
                StepView::Finished,
                ActionView::Respond { resp: resp_500("fail to send telegram message"@, err) },
            ),
        },
        (StepView::Committing { pkgname }, EventView::AssignDropped(res)) => match res {
            Ok(_) => (
                StepView::CleaningUp { pkgname },
                ActionView::RemoveMarks { pkgname, filter: mark_vocabulary() },
            ),
            Err(err) => (
                StepView::SendingCommitFailure { pkgname },
                ActionView::SendMessage { text: drop_fail_text(err) },
            ),
        },
        (StepView::SendingCommitFailure { pkgname }, EventView::NotifySent(res)) => match res {
            Ok(_) => (
                StepView::CleaningUp { pkgname },
                ActionView::RemoveMarks { pkgname, filter: mark_vocabulary() },
            ),
            Err(err) => (
                StepView::Finished,
                ActionView::Respond { resp: resp_500("fail to send telegram message"@, err) },
            ),
        },
        (StepView::CleaningUp { pkgname }, EventView::MarksRemoved(res)) => match res {
            Ok(marks) => (
                StepView::SendingCleanupReport,
                ActionView::SendMessage { text: cleanup_ok_text(pkgname, marks) },
            ),
            Err(err) => (
                StepView::SendingCleanupReport,
                ActionView::SendMessage { text: cleanup_fail_text(pkgname, err) },
            ),
        },
        (StepView::SendingCleanupReport, EventView::NotifySent(res)) => match res {
            Ok(_) => (
                StepView::Finished,
                ActionView::Respond { resp: resp_200("package deleted"@) },
            ),
            Err(err) => (
                StepView::Finished,
                ActionView::Respond { resp: resp_500("fail to send telegram message"@, err) },
            ),
        },
        _ => (
            StepView::Finished,
            ActionView::Respond { resp: resp_500("Execution fail"@, "unexpected event"@) },
        ),
    }
}

/// Every action a run emits after `s`, one per consumed event, stopping
/// once the invocation is over.
pub open spec fn run_from(s: StepView, events: Seq<EventView>) -> Seq<ActionView>
    decreases events.len(),
{
    if s is Finished || events.len() == 0 {
        Seq::empty()
    } else {
        let next = spec_step(s, events[0]);
        seq![next.1] + run_from(next.0, events.skip(1))
    }
}

/// Every action one whole invocation emits: the starting decision, then one
/// action per outside-call outcome.
pub open spec fn spec_workflow(
    pkgname: Seq<char>,
    status: Seq<char>,
    token: Seq<char>,
    secret: Seq<char>,
    events: Seq<EventView>,
) -> Seq<ActionView> {
    let first = spec_start(pkgname, status, token, secret);
    seq![first.1] + run_from(first.0, events)
}

/// Begins one completion invocation: authorizes the credential, validates
/// the requested status, and, only when both pass, asks for the packager
/// lookup. A rejection responds without any outside call.
pub fn start_completion(path: &RouteDeletePathSegment, q: &RouteDeleteQuery, secret: &str) -> (r:
    (Step, Action))
    ensures
        r.0@ == spec_start(path.pkgname@, path.status@, q.token@, secret@).0,
        r.1@ == spec_start(path.pkgname@, path.status@, q.token@, secret@).1,
{
    if !str_eq(q.token.as_str(), secret) {
        return (
            Step::Finished,
            Action::Respond { resp: MsgResp::new_403_resp("invalid token") },
        );
    }
    if !(str_eq(path.status.as_str(), "ftbfs") || str_eq(path.status.as_str(), "leaf")) {
        let mut detail = String::from_str("Required 'ftbfs' or 'leaf', get ");
        detail.append(path.status.as_str());
        return (
            Step::Finished,
            Action::Respond { resp: MsgResp::new_400_resp(detail) },
        );
    }
    let pkgname = path.pkgname.clone();
    (
        Step::FindingPackager { pkgname: path.pkgname.clone() },
        Action::FindPackager { pkgname },
    )
}

/// Advances one invocation by one decision, given the outcome of the last
/// outside call. Total: an event that does not belong to the current step
/// ends the invocation with a server-error response.
pub fn advance_completion(s: Step, e: Event) -> (r: (Step, Action))
    ensures
        r.0@ == spec_step(s@, e@).0,
        r.1@ == spec_step(s@, e@).1,
{
    match (s, e) {
        (Step::FindingPackager { pkgname }, Event::PackagerLookup(res)) => match res {
            Ok(p) => {
                let text = build_primary_text(pkgname.as_str(), &p);
                (
                    Step::SendingPrimary { pkgname, packager: p },
                    Action::SendMessage { text },
                )
            },
            Err(err) => (
                Step::Finished,
                Action::Respond { resp: MsgResp::new_500_resp("fail to fetch packager", err) },
            ),
        },
        (Step::SendingPrimary { pkgname, packager }, Event::NotifySent(res)) => match res {
            Ok(_) => {
                let tg_uid = packager.tg_uid;
                (
                    Step::Committing { pkgname: pkgname.clone() },
                    Action::DropAssign { pkgname, tg_uid },
                )
            },
            Err(err) => (
                Step::Finished,
                Action::Respond {
                    resp: MsgResp::new_500_resp("fail to send telegram message", err),
                },
            ),
        },
        (Step::Committing { pkgname }, Event::AssignDropped(res)) => match res {
            Ok(_) => {
                let filter = mark_vocabulary_list();
                (
                    Step::CleaningUp { pkgname: pkgname.clone() },
                    Action::RemoveMarks { pkgname, filter },
                )
            },
            Err(err) => {
                let text = build_drop_fail_text(err.as_str());
                (
                    Step::SendingCommitFailure { pkgname },
                    Action::SendMessage { text },
                )
            },
        },
        (Step::SendingCommitFailure { pkgname }, Event::NotifySent(res)) => match res {
            Ok(_) => {
                let filter = mark_vocabulary_list();
                (
                    Step::CleaningUp { pkgname: pkgname.clone() },
                    Action::RemoveMarks { pkgname, filter },
                )
            },
            Err(err) => (
                Step::Finished,
                Action::Respond {
                    resp: MsgResp::new_500_resp("fail to send telegram message", err),
                },
            ),
        },
        (Step::CleaningUp { pkgname }, Event::MarksRemoved(res)) => match res {
            Ok(marks) => {
                let text = build_cleanup_ok_text(pkgname.as_str(), &marks);
                (Step::SendingCleanupReport, Action::SendMessage { text })
            },
            Err(err) => {
                let text = build_cleanup_fail_text(pkgname.as_str(), err.as_str());
                (Step::SendingCleanupReport, Action::SendMessage { text })
            },
        },
        (Step::SendingCleanupReport, Event::NotifySent(res)) => match res {
            Ok(_) => (
                Step::Finished,
                Action::Respond { resp: MsgResp::new_200_msg(String::from_str("package deleted")) },
            ),
            Err(err) => (
                Step::Finished,
                Action::Respond {
                    resp: MsgResp::new_500_resp("fail to send telegram message", err),
                },
            ),
        },
        (_, _) => (
            Step::Finished,
            Action::Respond {
                resp: MsgResp::new_500_resp("Execution fail", String::from_str("unexpected event")),
            },
        ),
    }
}

} // verus!
