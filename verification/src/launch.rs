use vstd::prelude::*;
use crate::console::{LaunchMessage, LaunchMessageView};
use crate::release::{
    needs_update, spec_find_asset, spec_needs_update, spec_version_core, update_archive_url, GithubRelease,
};

verus! {

/// Where the launch of Vortex stands.
#[derive(PartialEq, Eq, Structural, Clone, Copy, Debug)]
pub enum LaunchStage {
    /// Nothing has happened yet.
    Start,
    /// The newest release was asked for.
    AwaitRelease,
    /// An update is being downloaded and installed.
    AwaitInstall,
    /// Vortex is being started.
    AwaitLaunch,
    /// The launch ended, well or badly.
    Finished,
}

/// What the outside world reports to the launch flow.
pub enum LaunchEvent {
    /// The launch was requested.
    Begin,
    /// The answer to the request for the newest release, or its error's text.
    ReleaseFetched(Result<GithubRelease, String>),
    /// The outcome of installing the update, or its error's text.
    UpdateInstalled(Result<(), String>),
    /// The outcome of starting Vortex, or its error's text.
    Launched(Result<(), String>),
}

/// What the launch flow asks the outside world to do next.
pub enum LaunchAction {
    /// Ask for the newest release.
    FetchRelease,
    /// Download the archive at this address and install it.
    InstallUpdate(String),
    /// Start Vortex.
    LaunchVortex,
    /// The launch is over, with this outcome.
    Finish(Result<(), String>),
    /// Nothing to do: the event did not fit the stage.
    Idle,
}

/// The ghost form of a `LaunchAction`, with strings as characters.
pub enum LaunchActionView {
    FetchRelease,
    InstallUpdate(Seq<char>),
    LaunchVortex,
    Finish(Result<(), Seq<char>>),
    Idle,
}

impl View for LaunchAction {
    type V = LaunchActionView;

    open spec fn view(&self) -> LaunchActionView {
        match self {
            LaunchAction::FetchRelease => LaunchActionView::FetchRelease,
            LaunchAction::InstallUpdate(u) => LaunchActionView::InstallUpdate(u@),
            LaunchAction::LaunchVortex => LaunchActionView::LaunchVortex,
            LaunchAction::Finish(Ok(())) => LaunchActionView::Finish(Ok(())),
            LaunchAction::Finish(Err(e)) => LaunchActionView::Finish(Err(e@)),
            LaunchAction::Idle => LaunchActionView::Idle,
        }
    }
}

/// The answer to one event: lines for the console, then the action.
pub struct LaunchStep {
    pub logs: Vec<String>,
    pub action: LaunchAction,
}

/// The launch of Vortex, from the request to the started process.
pub struct LaunchFlow {
    stage: LaunchStage,
    check_updates: bool,
    current_version: String,
}

/// The console lines of a step as characters.
pub open spec fn log_texts(logs: Seq<String>) -> Seq<Seq<char>> {
    logs.map_values(|l: String| l@)
}

/// The error shown when the newest release cannot be had.
pub open spec fn spec_fetch_failure(err: Seq<char>) -> Seq<char> {
    "Something went wrong during update fetching\nError => "@ + err
        + "\n----\nDisable update on launch if it's not important."@
}

/// The error shown when installing the update fails.
pub open spec fn spec_install_failure(err: Seq<char>) -> Seq<char> {
    "Update install failed: "@ + err
}

/// The console line that announces an update.
pub open spec fn update_notice() -> Seq<char> {
    "New update available. Vortex will automatically boot after update."@
}

/// What one event does to the flow: the next stage, the console lines, the action.
pub open spec fn spec_advance(
    stage: LaunchStage,
    check_updates: bool,
    current_version: Seq<char>,
    event: LaunchEvent,
) -> (LaunchStage, Seq<Seq<char>>, LaunchActionView) {
    match (stage, event) {
        (LaunchStage::Start, LaunchEvent::Begin) => if check_updates {
            (
                LaunchStage::AwaitRelease,
                seq!["Fetching for updates..."@],
                LaunchActionView::FetchRelease,
            )
        } else {
            (LaunchStage::AwaitLaunch, Seq::empty(), LaunchActionView::LaunchVortex)
        },
        (LaunchStage::AwaitRelease, LaunchEvent::ReleaseFetched(Err(e))) => (
            LaunchStage::Finished,
            Seq::empty(),
            LaunchActionView::Finish(Err(spec_fetch_failure(e@))),
        ),
        (LaunchStage::AwaitRelease, LaunchEvent::ReleaseFetched(Ok(r))) => if spec_needs_update(
            current_version,
            r@.0,
        ) {
            let logs = seq![update_notice(), "Downloading new update..."@];
            match spec_find_asset(r@.1, "vortex.zip"@) {
                Some(url) => (
                    LaunchStage::AwaitInstall,
                    logs,
                    LaunchActionView::InstallUpdate(url),
                ),
                None => (
                    LaunchStage::Finished,
                    logs,
                    LaunchActionView::Finish(Err("Missing vortex.zip in GitHub release"@)),
                ),
            }
        } else {
            (LaunchStage::AwaitLaunch, seq!["No new updates."@], LaunchActionView::LaunchVortex)
        },
        (LaunchStage::AwaitInstall, LaunchEvent::UpdateInstalled(Err(e))) => (
            LaunchStage::Finished,
            Seq::empty(),
            LaunchActionView::Finish(Err(spec_install_failure(e@))),
        ),
        (LaunchStage::AwaitInstall, LaunchEvent::UpdateInstalled(Ok(()))) => (
            LaunchStage::AwaitLaunch,
            Seq::empty(),
            LaunchActionView::LaunchVortex,
        ),
        (LaunchStage::AwaitLaunch, LaunchEvent::Launched(Ok(()))) => (
            LaunchStage::Finished,
            Seq::empty(),
            LaunchActionView::Finish(Ok(())),
        ),
        (LaunchStage::AwaitLaunch, LaunchEvent::Launched(Err(e))) => (
            LaunchStage::Finished,
            Seq::empty(),
            LaunchActionView::Finish(Err(e@)),
        ),
        _ => (stage, Seq::empty(), LaunchActionView::Idle),
    }
}

fn one_line(line: &str) -> (res: Vec<String>)
    ensures
        log_texts(res@) == seq![line@],
        res@.len() == 1,
        res@[0]@ == line@,
{
    let mut v = Vec::new();
    v.push(String::from_str(line));
    assert(log_texts(v@) =~= seq![line@]);
    v
}

fn no_lines() -> (res: Vec<String>)
    ensures
        log_texts(res@) == Seq::<Seq<char>>::empty(),
{
    let v = Vec::new();
    assert(log_texts(v@) =~= Seq::<Seq<char>>::empty());
    v
}

impl LaunchFlow {
    /// The flow's stage.
    pub closed spec fn stage(&self) -> LaunchStage {
        self.stage
    }

    /// Whether the flow looks for an update before it starts Vortex.
    pub closed spec fn checks_updates(&self) -> bool {
        self.check_updates
    }

    /// The version of the running launcher.
    pub closed spec fn current_version(&self) -> Seq<char> {
        self.current_version@
    }

    /// A flow that has not begun; `current_version` is the running launcher's version.
    pub fn new(check_updates: bool, current_version: String) -> (res: LaunchFlow)
        ensures
            res.stage() == LaunchStage::Start,
            res.checks_updates() == check_updates,
            res.current_version() == current_version@,
    {
        LaunchFlow { stage: LaunchStage::Start, check_updates, current_version }
    }

    /// The stage the flow is in.
    pub fn current_stage(&self) -> (res: LaunchStage)
        ensures
            res == self.stage(),
    {
        self.stage
    }

    /// Takes one event and answers with the console lines and the next action.
    pub fn advance(&mut self, event: LaunchEvent) -> (res: LaunchStep)
        ensures
            (final(self).stage(), log_texts(res.logs@), res.action@) == spec_advance(
                old(self).stage(),
                old(self).checks_updates(),
                old(self).current_version(),
                event,
            ),
            final(self).checks_updates() == old(self).checks_updates(),
            final(self).current_version() == old(self).current_version(),
    {
        match (self.stage, event) {
            (LaunchStage::Start, LaunchEvent::Begin) => {
                if self.check_updates {
                    self.stage = LaunchStage::AwaitRelease;
                    LaunchStep {
                        logs: one_line("Fetching for updates..."),
                        action: LaunchAction::FetchRelease,
                    }
                } else {
                    self.stage = LaunchStage::AwaitLaunch;
                    LaunchStep { logs: no_lines(), action: LaunchAction::LaunchVortex }
                }
            },
            (LaunchStage::AwaitRelease, LaunchEvent::ReleaseFetched(Err(e))) => {
                self.stage = LaunchStage::Finished;
                let mut msg = String::from_str(
                    "Something went wrong during update fetching\nError => ",
                );
                msg.append(e.as_str());
                msg.append("\n----\nDisable update on launch if it's not important.");
                LaunchStep { logs: no_lines(), action: LaunchAction::Finish(Err(msg)) }
            },
            (LaunchStage::AwaitRelease, LaunchEvent::ReleaseFetched(Ok(r))) => {
                if needs_update(self.current_version.as_str(), r.tag_name.as_str()) {
                    let mut logs = one_line(
                        "New update available. Vortex will automatically boot after update.",
                    );
                    logs.push(String::from_str("Downloading new update..."));
                    assert(log_texts(logs@) =~= seq![update_notice(), "Downloading new update..."@]);
                    match update_archive_url(&r) {
                        Some(url) => {
                            self.stage = LaunchStage::AwaitInstall;
                            LaunchStep { logs, action: LaunchAction::InstallUpdate(url) }
                        },
                        None => {
                            self.stage = LaunchStage::Finished;
                            LaunchStep {
                                logs,
                                action: LaunchAction::Finish(
                                    Err(String::from_str("Missing vortex.zip in GitHub release")),
                                ),
                            }
                        },
                    }
                } else {
                    self.stage = LaunchStage::AwaitLaunch;
                    LaunchStep {
                        logs: one_line("No new updates."),
                        action: LaunchAction::LaunchVortex,
                    }
                }
            },
            (LaunchStage::AwaitInstall, LaunchEvent::UpdateInstalled(Err(e))) => {
                self.stage = LaunchStage::Finished;
                let mut msg = String::from_str("Update install failed: ");
                msg.append(e.as_str());
                LaunchStep { logs: no_lines(), action: LaunchAction::Finish(Err(msg)) }
            },
            (LaunchStage::AwaitInstall, LaunchEvent::UpdateInstalled(Ok(()))) => {
                self.stage = LaunchStage::AwaitLaunch;
                LaunchStep { logs: no_lines(), action: LaunchAction::LaunchVortex }
            },
            (LaunchStage::AwaitLaunch, LaunchEvent::Launched(Ok(()))) => {
                self.stage = LaunchStage::Finished;
                LaunchStep { logs: no_lines(), action: LaunchAction::Finish(Ok(())) }
            },
            (LaunchStage::AwaitLaunch, LaunchEvent::Launched(Err(e))) => {
                self.stage = LaunchStage::Finished;
                LaunchStep { logs: no_lines(), action: LaunchAction::Finish(Err(e)) }
            },
            _ => LaunchStep { logs: no_lines(), action: LaunchAction::Idle },
        }
    }
}

/// How far a stage is along the launch: each step of a launch raises it.
pub open spec fn stage_rank(stage: LaunchStage) -> nat {
    match stage {
        LaunchStage::Start => 0,
        LaunchStage::AwaitRelease => 1,
        LaunchStage::AwaitInstall => 2,
        LaunchStage::AwaitLaunch => 3,
        LaunchStage::Finished => 4,
    }
}

/// Every event either moves the launch strictly forward, or it does not fit the stage
/// and then changes nothing, logs nothing and asks for nothing. So a launch takes at
/// most four steps.
pub proof fn lemma_launch_moves_forward(
    stage: LaunchStage,
    check_updates: bool,
    current_version: Seq<char>,
    event: LaunchEvent,
)
    ensures
        ({
            let (next, logs, action) = spec_advance(stage, check_updates, current_version, event);
            ||| stage_rank(next) > stage_rank(stage)
            ||| next == stage && logs.len() == 0 && action == LaunchActionView::Idle
        }),
{
}

/// A finished launch stays finished and asks for nothing more.
pub proof fn lemma_finished_is_final(
    check_updates: bool,
    current_version: Seq<char>,
    event: LaunchEvent,
)
    ensures
        spec_advance(LaunchStage::Finished, check_updates, current_version, event) == (
            LaunchStage::Finished,
            Seq::<Seq<char>>::empty(),
            LaunchActionView::Idle,
        ),
{
}

/// The launch reports an outcome exactly on the step that finishes it.
pub proof fn lemma_outcome_exactly_when_finishing(
    stage: LaunchStage,
    check_updates: bool,
    current_version: Seq<char>,
    event: LaunchEvent,
)
    ensures
        ({
            let (next, logs, action) = spec_advance(stage, check_updates, current_version, event);
            (action is Finish) <==> (next == LaunchStage::Finished && stage
                != LaunchStage::Finished)
        }),
{
}

/// With update checks off, the launch starts Vortex at once, without a word.
pub proof fn lemma_unchecked_launch_starts_at_once(current_version: Seq<char>)
    ensures
        spec_advance(LaunchStage::Start, false, current_version, LaunchEvent::Begin) == (
            LaunchStage::AwaitLaunch,
            Seq::<Seq<char>>::empty(),
            LaunchActionView::LaunchVortex,
        ),
{
}

/// A release whose tag names the running version (leading `v`s aside) installs nothing:
/// Vortex is started with the line "No new updates.".
pub proof fn lemma_same_version_installs_nothing(
    check_updates: bool,
    current_version: Seq<char>,
    release: GithubRelease,
)
    requires
        spec_version_core(release@.0) == spec_version_core(current_version),
    ensures
        spec_advance(
            LaunchStage::AwaitRelease,
            check_updates,
            current_version,
            LaunchEvent::ReleaseFetched(Ok(release)),
        ) == (
            LaunchStage::AwaitLaunch,
            seq!["No new updates."@],
            LaunchActionView::LaunchVortex,
        ),
{
}

/// A newer release is installed from its `vortex.zip`, or, without one, the launch fails.
pub proof fn lemma_new_version_installs_archive(
    check_updates: bool,
    current_version: Seq<char>,
    release: GithubRelease,
)
    requires
        spec_version_core(release@.0) != spec_version_core(current_version),
    ensures
        ({
            let (next, logs, action) = spec_advance(
                LaunchStage::AwaitRelease,
                check_updates,
                current_version,
                LaunchEvent::ReleaseFetched(Ok(release)),
            );
            &&& logs.len() == 2
            &&& match spec_find_asset(release@.1, "vortex.zip"@) {
                Some(url) => next == LaunchStage::AwaitInstall && action
                    == LaunchActionView::InstallUpdate(url),
                None => next == LaunchStage::Finished && action == LaunchActionView::Finish(
                    Err("Missing vortex.zip in GitHub release"@),
                ),
            }
        }),
{
}

/// Every failure reported to a waiting launch ends it with an error.
pub proof fn lemma_failures_end_the_launch(
    stage: LaunchStage,
    check_updates: bool,
    current_version: Seq<char>,
    err: String,
)
    ensures
        ({
            let event = match stage {
                LaunchStage::AwaitRelease => LaunchEvent::ReleaseFetched(Err(err)),
                LaunchStage::AwaitInstall => LaunchEvent::UpdateInstalled(Err(err)),
                _ => LaunchEvent::Launched(Err(err)),
            };
            let (next, logs, action) = spec_advance(stage, check_updates, current_version, event);
            (stage == LaunchStage::AwaitRelease || stage == LaunchStage::AwaitInstall || stage
                == LaunchStage::AwaitLaunch) ==> (next == LaunchStage::Finished && action
                is Finish && action->Finish_0 is Err)
        }),
{
}

/// The outcome of starting Vortex is the outcome of the launch.
pub proof fn lemma_launch_outcome_passes_through(
    check_updates: bool,
    current_version: Seq<char>,
    outcome: Result<(), String>,
)
    ensures
        spec_advance(
            LaunchStage::AwaitLaunch,
            check_updates,
            current_version,
            LaunchEvent::Launched(outcome),
        ).2 == LaunchActionView::Finish(
            match outcome {
                Ok(()) => Ok(()),
                Err(e) => Err(e@),
            },
        ),
{
}

/// What the launch worker must go and do before it can feed the flow its next event.
pub enum LaunchRequest {
    /// Ask for the newest release; answered by `ReleaseFetched`.
    FetchRelease,
    /// Download and install the archive at this address; answered by `UpdateInstalled`.
    InstallUpdate(String),
    /// Start Vortex; answered by `Launched`.
    LaunchVortex,
}

/// The ghost form of a `LaunchRequest`.
pub enum LaunchRequestView {
    FetchRelease,
    InstallUpdate(Seq<char>),
    LaunchVortex,
}

impl View for LaunchRequest {
    type V = LaunchRequestView;

    open spec fn view(&self) -> LaunchRequestView {
        match self {
            LaunchRequest::FetchRelease => LaunchRequestView::FetchRelease,
            LaunchRequest::InstallUpdate(u) => LaunchRequestView::InstallUpdate(u@),
            LaunchRequest::LaunchVortex => LaunchRequestView::LaunchVortex,
        }
    }
}

/// An optional request as values.
pub open spec fn request_view(r: Option<LaunchRequest>) -> Option<LaunchRequestView> {
    match r {
        Some(r) => Some(r@),
        None => None,
    }
}

/// The messages a step sends to the window: its console lines, then, when the launch
/// ends, its outcome.
pub open spec fn step_messages(logs: Seq<Seq<char>>, action: LaunchActionView) -> Seq<
    LaunchMessageView,
> {
    let lines = logs.map_values(|l: Seq<char>| LaunchMessageView::Log(l));
    match action {
        LaunchActionView::Finish(r) => lines.push(LaunchMessageView::Done(r)),
        _ => lines,
    }
}

/// The request a step leaves to the worker; none when the launch ended or the event did
/// not fit.
pub open spec fn step_request(action: LaunchActionView) -> Option<LaunchRequestView> {
    match action {
        LaunchActionView::FetchRelease => Some(LaunchRequestView::FetchRelease),
        LaunchActionView::InstallUpdate(u) => Some(LaunchRequestView::InstallUpdate(u)),
        LaunchActionView::LaunchVortex => Some(LaunchRequestView::LaunchVortex),
        _ => None,
    }
}

/// One step of the launch worker: the next stage, the messages for the window, and
/// the request left to answer.
pub open spec fn spec_worker_step(
    stage: LaunchStage,
    check_updates: bool,
    current_version: Seq<char>,
    event: LaunchEvent,
) -> (LaunchStage, Seq<LaunchMessageView>, Option<LaunchRequestView>) {
    let (next, logs, action) = spec_advance(stage, check_updates, current_version, event);
    (next, step_messages(logs, action), step_request(action))
}

/// All the messages a launch worker sends when it feeds `event` to the flow and then
/// answers each request with the next of `replies`; it stops when no request is left,
/// or when no reply comes.
pub open spec fn spec_worker_run(
    stage: LaunchStage,
    check_updates: bool,
    current_version: Seq<char>,
    event: LaunchEvent,
    replies: Seq<LaunchEvent>,
) -> Seq<LaunchMessageView>
    decreases replies.len(),
{
    let (next, msgs, request) = spec_worker_step(stage, check_updates, current_version, event);
    match request {
        None => msgs,
        Some(_) => if replies.len() == 0 {
            msgs
        } else {
            msgs + spec_worker_run(
                next,
                check_updates,
                current_version,
                replies[0],
                replies.drop_first(),
            )
        },
    }
}

/// `event` is the kind of answer that `request` waits for.
pub open spec fn answers(request: LaunchRequestView, event: LaunchEvent) -> bool {
    match (request, event) {
        (LaunchRequestView::FetchRelease, LaunchEvent::ReleaseFetched(_)) => true,
        (LaunchRequestView::InstallUpdate(_), LaunchEvent::UpdateInstalled(_)) => true,
        (LaunchRequestView::LaunchVortex, LaunchEvent::Launched(_)) => true,
        _ => false,
    }
}

/// Each of `replies` answers the request left by the step before it.
pub open spec fn replies_answer(
    stage: LaunchStage,
    check_updates: bool,
    current_version: Seq<char>,
    event: LaunchEvent,
    replies: Seq<LaunchEvent>,
) -> bool
    decreases replies.len(),
{
    let (next, msgs, request) = spec_worker_step(stage, check_updates, current_version, event);
    match request {
        None => true,
        Some(r) => replies.len() == 0 || (answers(r, replies[0]) && replies_answer(
            next,
            check_updates,
            current_version,
            replies[0],
            replies.drop_first(),
        )),
    }
}

/// `event` is what the flow waits for in `stage`.
pub open spec fn fits(stage: LaunchStage, event: LaunchEvent) -> bool {
    match (stage, event) {
        (LaunchStage::Start, LaunchEvent::Begin) => true,
        (LaunchStage::AwaitRelease, LaunchEvent::ReleaseFetched(_)) => true,
        (LaunchStage::AwaitInstall, LaunchEvent::UpdateInstalled(_)) => true,
        (LaunchStage::AwaitLaunch, LaunchEvent::Launched(_)) => true,
        _ => false,
    }
}

/// Every message but the last is a console line: an outcome comes at most once, and
/// nothing comes after it.
pub open spec fn outcome_only_last(msgs: Seq<LaunchMessageView>) -> bool {
    forall|i: int| 0 <= i < msgs.len() - 1 ==> #[trigger] msgs[i] is Log
}

/// The last message is the launch's outcome.
pub open spec fn ends_with_outcome(msgs: Seq<LaunchMessageView>) -> bool {
    msgs.len() > 0 && msgs.last() is Done
}

impl LaunchFlow {
    /// One step of the launch worker: feeds `event` to the flow and answers with the
    /// messages for the window and the request left to answer, if any.
    pub fn worker_step(&mut self, event: LaunchEvent) -> (res: (
        Vec<LaunchMessage>,
        Option<LaunchRequest>,
    ))
        ensures
            (final(self).stage(), res.0@.map_values(|m: LaunchMessage| m@), request_view(res.1))
                == spec_worker_step(
                old(self).stage(),
                old(self).checks_updates(),
                old(self).current_version(),
                event,
            ),
            final(self).checks_updates() == old(self).checks_updates(),
            final(self).current_version() == old(self).current_version(),
    {
        let step = self.advance(event);
        let ghost logs = log_texts(step.logs@);
        let mut msgs: Vec<LaunchMessage> = Vec::new();
        let mut i: usize = 0;
        let n = step.logs.len();
        while i < n
            invariant
                n == step.logs.len(),
                i <= n,
                logs == log_texts(step.logs@),
                msgs@.map_values(|m: LaunchMessage| m@) == logs.take(i as int).map_values(
                    |l: Seq<char>| LaunchMessageView::Log(l),
                ),
            decreases n - i,
        {
            msgs.push(LaunchMessage::Log(step.logs[i].clone()));
            assert(logs.take(i + 1).map_values(|l: Seq<char>| LaunchMessageView::Log(l))
                =~= logs.take(i as int).map_values(|l: Seq<char>| LaunchMessageView::Log(l)).push(
                LaunchMessageView::Log(logs[i as int]),
            ));
            i = i + 1;
        }
        assert(logs.take(n as int) =~= logs);
        match step.action {
            LaunchAction::FetchRelease => (msgs, Some(LaunchRequest::FetchRelease)),
            LaunchAction::InstallUpdate(url) => (msgs, Some(LaunchRequest::InstallUpdate(url))),
            LaunchAction::LaunchVortex => (msgs, Some(LaunchRequest::LaunchVortex)),
            LaunchAction::Finish(r) => {
                msgs.push(LaunchMessage::Done(r));
                (msgs, None)
            },
            LaunchAction::Idle => (msgs, None),
        }
    }
}

proof fn lemma_step_messages_shape(logs: Seq<Seq<char>>, action: LaunchActionView)
    ensures
        outcome_only_last(step_messages(logs, action)),
        step_request(action) is Some ==> forall|i: int|
            0 <= i < step_messages(logs, action).len() ==> #[trigger] step_messages(
                logs,
                action,
            )[i] is Log,
        action is Finish ==> ends_with_outcome(step_messages(logs, action)),
{
    let lines = logs.map_values(|l: Seq<char>| LaunchMessageView::Log(l));
    assert forall|i: int| 0 <= i < lines.len() implies #[trigger] lines[i] is Log by {}
}

/// A launch worker never sends more than one outcome, and never anything after it:
/// whatever events it feeds the flow, every message but the last is a console line.
pub proof fn lemma_worker_outcome_is_last(
    stage: LaunchStage,
    check_updates: bool,
    current_version: Seq<char>,
    event: LaunchEvent,
    replies: Seq<LaunchEvent>,
)
    ensures
        outcome_only_last(
            spec_worker_run(stage, check_updates, current_version, event, replies),
        ),
    decreases replies.len(),
{
    let (next, logs, action) = spec_advance(stage, check_updates, current_version, event);
    let msgs = step_messages(logs, action);
    lemma_step_messages_shape(logs, action);
    if step_request(action) is Some && replies.len() > 0 {
        let rest = spec_worker_run(
            next,
            check_updates,
            current_version,
            replies[0],
            replies.drop_first(),
        );
        lemma_worker_outcome_is_last(
            next,
            check_updates,
            current_version,
            replies[0],
            replies.drop_first(),
        );
        let all = msgs + rest;
        assert forall|i: int| 0 <= i < all.len() - 1 implies #[trigger] all[i] is Log by {
            if i < msgs.len() {
                assert(all[i] == msgs[i]);
            } else {
                assert(all[i] == rest[i - msgs.len()]);
            }
        }
    }
}

proof fn lemma_worker_reaches_outcome(
    stage: LaunchStage,
    check_updates: bool,
    current_version: Seq<char>,
    event: LaunchEvent,
    replies: Seq<LaunchEvent>,
)
    requires
        fits(stage, event),
        replies_answer(stage, check_updates, current_version, event, replies),
        replies.len() + stage_rank(stage) >= 3,
    ensures
        ends_with_outcome(spec_worker_run(stage, check_updates, current_version, event, replies)),
    decreases replies.len(),
{
    let (next, logs, action) = spec_advance(stage, check_updates, current_version, event);
    let msgs = step_messages(logs, action);
    lemma_step_messages_shape(logs, action);
    match step_request(action) {
        None => {},
        Some(r) => {
            lemma_worker_reaches_outcome(
                next,
                check_updates,
                current_version,
                replies[0],
                replies.drop_first(),
            );
            let rest = spec_worker_run(
                next,
                check_updates,
                current_version,
                replies[0],
                replies.drop_first(),
            );
            assert((msgs + rest).last() == rest.last());
        },
    }
}

/// A launch that begins and gets an answer to each of its (at most three) requests
/// sends exactly one outcome, as its last message, after its console lines.
pub proof fn lemma_answered_launch_sends_one_outcome(
    check_updates: bool,
    current_version: Seq<char>,
    replies: Seq<LaunchEvent>,
)
    requires
        replies_answer(
            LaunchStage::Start,
            check_updates,
            current_version,
            LaunchEvent::Begin,
            replies,
        ),
        replies.len() >= 3,
    ensures
        ({
            let msgs = spec_worker_run(
                LaunchStage::Start,
                check_updates,
                current_version,
                LaunchEvent::Begin,
                replies,
            );
            &&& ends_with_outcome(msgs)
            &&& outcome_only_last(msgs)
        }),
{
    lemma_worker_reaches_outcome(
        LaunchStage::Start,
        check_updates,
        current_version,
        LaunchEvent::Begin,
        replies,
    );
    lemma_worker_outcome_is_last(
        LaunchStage::Start,
        check_updates,
        current_version,
        LaunchEvent::Begin,
        replies,
    );
}

} // verus!
