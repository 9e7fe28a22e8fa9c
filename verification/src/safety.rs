//! What holds of every flow, whatever its events.

use crate::config::IsolationLevel;
use crate::error::{Error, ErrorModel};
use crate::events::{notes, KindModel, RecordModel};
use crate::flow::{
    advanced, fails, finishes, first_flow, goes_on, is_host_mode, observed, preflight_refusal, silence, stop_begun,
    teardown_plan, tears_down, vm_teardown, Action, Ending, EndingModel, Event, Flow, Sessions,
    Step, Target, TeardownStep,
};
use crate::gateway::FirewallPolicy;
use crate::ids::{ProfileId, SessionId};
use crate::orchestrator::{
    gateway_proxy, host_endpoint, host_profile_dir, is_bundle, is_gateway_config, is_launch_request,
    is_preflight_context, proxy_authority, Capabilities, HostProxy, Orchestrator,
    GUEST_PROFILE_DIR,
};
use crate::preflight::{ConnectivityChecklist, ProtectionStatus};
use crate::profile::Profile;
use crate::session::{SessionState, SessionSummary};
use crate::sessions::{Change, SessionEntry, SessionMode};
use crate::text;
use crate::vm::VmRole;
use vstd::prelude::*;

verus! {

/// The session of a flow; none where nothing is tracked yet or any more.
pub open spec fn session_of(flow: Flow) -> Option<SessionId> {
    match flow {
        Flow::MakeKey { session, .. } => Some(session),
        Flow::ProvisionGateway { session, .. } => Some(session),
        Flow::ProvisionBrowser { session, .. } => Some(session),
        Flow::Configure { session, .. } => Some(session),
        Flow::Firewall { session, .. } => Some(session),
        Flow::StartGateway { session, .. } => Some(session),
        Flow::StartBrowser { session, .. } => Some(session),
        Flow::Preflight { session, .. } => Some(session),
        Flow::HostPrepare { session, .. } => Some(session),
        Flow::Probe { session, .. } => Some(session),
        Flow::Launch { session, .. } => Some(session),
        Flow::Touch { session, .. } => Some(session),
        Flow::Sever { session, .. } => Some(session),
        Flow::TearDown { session, .. } => Some(session),
        Flow::FetchProfile { .. } | Flow::TakeLock { .. } | Flow::DropLock { .. } | Flow::Finished => {
            None
        },
    }
}

/// Whether an event shows that traffic is contained: every preflight check has
/// passed, or the proxy on the host is reachable.
pub open spec fn shows_containment(flow: Flow, event: Event) -> bool {
    ||| flow is Preflight && (event matches Event::Checklist(Ok(c)) && c.complete())
    ||| flow is Probe && event == Event::Reachable(Ok(true))
}

/// No browser is launched, and no session is browsing, unless every preflight
/// check has passed or, on the host, the proxy is reachable; there is no other
/// way.
pub proof fn law_no_launch_without_containment(
    pre: Orchestrator,
    flow: Flow,
    event: Event,
    after: Sessions,
    step: Step,
    id: SessionId,
)
    requires
        advanced(pre, flow, event, after, step),
        !shows_containment(flow, event),
    ensures
        step.action !is Launch,
        after.contains_key(id) && after[id].state is Browsing ==> pre.sessions@.contains_key(id)
            && pre.sessions@[id].state is Browsing,
{
}

/// The bundle that is launched is vetted for production: it holds no forbidden
/// flag and no remote debugging, and the request asks for production.
pub proof fn law_launches_are_vetted(
    pre: Orchestrator,
    flow: Flow,
    event: Event,
    after: Sessions,
    step: Step,
)
    requires
        advanced(pre, flow, event, after, step),
    ensures
        step.action matches Action::Launch { request, bundle, .. } ==> request.production
            && bundle.complaint(true) is None,
{
}

/// The failure that an event reports, if it reports one.
pub open spec fn reported_failure(event: Event) -> Option<ErrorModel> {
    match event {
        Event::Vm(Err(e)) => Some(e@),
        Event::Checklist(Err(e)) => Some(e@),
        Event::Reachable(Err(e)) => Some(e@),
        Event::Launched(Err(e)) => Some(e@),
        Event::Done(Err(e)) => Some(e@),
        _ => None,
    }
}

/// Whether the flow is setting a tracked session up.
pub open spec fn setting_up(flow: Flow) -> bool {
    ||| flow is ProvisionGateway
    ||| flow is ProvisionBrowser
    ||| flow is Configure
    ||| flow is Firewall
    ||| flow is StartGateway
    ||| flow is StartBrowser
    ||| flow is Preflight
    ||| flow is Probe
    ||| flow is Launch
}

/// Failing closed: where setting a session up fails on containment or isolation,
/// where a preflight check has not passed, or where the proxy on the host is not
/// reachable, the next action cuts all traffic and no state has changed before
/// it but what preflight reported.
pub proof fn law_containment_failure_cuts_traffic(
    pre: Orchestrator,
    flow: Flow,
    event: Event,
    after: Sessions,
    step: Step,
)
    requires
        advanced(pre, flow, event, after, step),
        setting_up(flow),
        ({
            ||| reported_failure(event) is Some && reported_failure(event)->0.severs()
            ||| flow is Preflight && (event matches Event::Checklist(Ok(c)) && !c.complete())
            ||| flow is Probe && event == Event::Reachable(Ok(false))
        }),
    ensures
        step.action is EngageKillSwitch,
        step.flow is Sever,
        session_of(step.flow) == session_of(flow),
{
}

/// Once traffic is cut, whether that worked or not, the first record is critical
/// and names the class of the failure, the second says that the kill switch is
/// engaged, and a tracked session is torn down at once.
pub proof fn law_cut_is_recorded_before_teardown(
    pre: Orchestrator,
    session: SessionId,
    error: Error,
    event: Event,
    after: Sessions,
    step: Step,
)
    requires
        advanced(pre, Flow::Sever { session, error }, event, after, step),
    ensures
        notes(step.records@).len() == 2,
        notes(step.records@)[0].severity is Critical,
        notes(step.records@)[0].kind == KindModel::FailClosed(error.classified(), error.shown()),
        notes(step.records@)[1].kind == KindModel::KillSwitch("engaged"@),
        pre.sessions@.contains_key(session) ==> step.action is Undo,
{
}

/// A failure of any other kind leads straight to teardown; an error is handed on
/// unchanged either way.
pub proof fn law_other_failures_do_not_cut(
    pre: Orchestrator,
    flow: Flow,
    event: Event,
    after: Sessions,
    step: Step,
)
    requires
        advanced(pre, flow, event, after, step),
        setting_up(flow),
        reported_failure(event) is Some,
        !reported_failure(event)->0.severs(),
    ensures
        step.action !is EngageKillSwitch,
        step.flow matches Flow::TearDown { ending, .. } ==> ending@ == EndingModel::Failed(
            reported_failure(event)->0,
        ),
        step.flow is TearDown <==> pre.sessions@.contains_key(session_of(flow)->0),
{
}

/// Teardown leaves nothing behind: it ends with the release of the lock, and
/// before that it destroys each VM that the session has, terminates its browser
/// and removes a disposable directory on the host.
pub proof fn law_teardown_covers_everything(e: SessionEntry, caps: Capabilities)
    ensures
        teardown_plan(e, caps).last() == TeardownStep::Release(e.lease),
        e.gateway_vm matches Some(id) ==> teardown_plan(e, caps).contains(
            TeardownStep::Destroy(VmRole::Gateway, id),
        ),
        e.browser_vm matches Some(id) ==> teardown_plan(e, caps).contains(
            TeardownStep::Destroy(VmRole::Browser, id),
        ),
        e.mode is FullVm ==> (e.browser_handle matches Some(handle) ==> teardown_plan(
            e,
            caps,
        ).contains(TeardownStep::Terminate { target: Target::Vm, handle })),
        e.mode matches SessionMode::HostProcess { user_data_dir, ephemeral, engine } ==> {
            &&& ephemeral ==> teardown_plan(e, caps).contains(
                TeardownStep::RemoveDir(user_data_dir),
            )
            &&& e.browser_handle matches Some(handle) ==> (caps.hosts(engine) ==> teardown_plan(
                e,
                caps,
            ).contains(TeardownStep::Terminate { target: Target::Host(engine), handle }))
        },
        1 <= teardown_plan(e, caps).len() <= 7,
{
    let plan = teardown_plan(e, caps);
    let release = seq![TeardownStep::Release(e.lease)];
    let gateway = vm_teardown(VmRole::Gateway, e.gateway_vm);
    let browser = vm_teardown(VmRole::Browser, e.browser_vm);
    let n = plan.len();
    assert(plan[n - 1] == release[0]);
    if let Some(id) = e.gateway_vm {
        assert(plan[n - 2] == gateway[1]);
    }
    if let Some(id) = e.browser_vm {
        assert(plan[n - 2 - gateway.len()] == browser[1]);
    }
    let front = n - 1 - gateway.len() - browser.len();
    if front > 0 {
        assert(plan[front - 1] == plan.take(front)[front - 1]);
        assert(plan[0] == plan.take(front)[0]);
    }
}

/// A teardown that has begun is carried to its end whatever fails on the way:
/// each step leads to the next, and the last one leaves the session in its final
/// state with nothing live.
pub proof fn law_teardown_always_ends(
    pre: Orchestrator,
    session: SessionId,
    profile_id: ProfileId,
    plan: Vec<TeardownStep>,
    at: usize,
    ending: Ending,
    event: Event,
    after: Sessions,
    step: Step,
)
    requires
        at < plan@.len(),
        advanced(
            pre,
            Flow::TearDown { session, profile_id, plan, at, ending },
            event,
            after,
            step,
        ),
    ensures
        at + 1 < plan@.len() ==> step.action == Action::Undo(plan@[at + 1]) && step.flow is TearDown
            && after == pre.sessions@,
        at + 1 == plan@.len() ==> {
            &&& step.flow is Finished
            &&& pre.sessions@.contains_key(session) ==> {
                &&& after[session].state == ending@.state()
                &&& after[session].nothing_live()
            }
            &&& ending matches Ending::Failed(e) ==> finishes(step, Err(e@))
        },
{
}

/// Tearing down what has been torn down undoes nothing further: no browser is
/// terminated and no VM powered off or destroyed a second time.
pub proof fn law_second_teardown_undoes_nothing(
    e: SessionEntry,
    state: SessionState,
    caps: Capabilities,
    i: int,
)
    requires
        0 <= i < teardown_plan(e.changed(Change::Ended(state)), caps).len(),
    ensures
        e.changed(Change::Ended(state)).nothing_live(),
        ({
            let step = teardown_plan(e.changed(Change::Ended(state)), caps)[i];
            step is RemoveDir || step is Release
        }),
{
}

/// A step touches the session of its flow alone.
pub proof fn law_other_sessions_are_untouched(
    pre: Orchestrator,
    flow: Flow,
    event: Event,
    after: Sessions,
    step: Step,
    other: SessionId,
)
    requires
        advanced(pre, flow, event, after, step),
        session_of(flow) != Some(other),
    ensures
        after.contains_key(other) == pre.sessions@.contains_key(other),
        after.contains_key(other) ==> after[other] == pre.sessions@[other],
{
}

/// Whether an event can come of an action.
pub open spec fn comes_of(event: Event, action: Action) -> bool {
    match action {
        Action::GetProfile(_) => event is Profile,
        Action::AcquireLock(_) => event is Lease,
        Action::GenerateKey => event is Key,
        Action::ReadHostProxy => event is HostProxy,
        Action::Provision(_) => event is Vm,
        Action::RunPreflight(_) => event is Checklist,
        Action::ProbeProxy { .. } => event is Reachable,
        Action::Launch { .. } => event is Launched,
        Action::ReleaseLock(_) | Action::Configure(_) | Action::ApplyFirewall(_)
        | Action::StartVm(_) | Action::TouchLaunch(_) | Action::EngageKillSwitch
        | Action::Undo(_) => event is Done,
        Action::Finish(_) => false,
    }
}

/// Whatever comes of the action of a step is what its flow waits for, and only a
/// finished flow waits for nothing. So a caller that performs the actions can
/// always go on.
pub proof fn law_flow_awaits_its_action(
    pre: Orchestrator,
    flow: Flow,
    event: Event,
    after: Sessions,
    step: Step,
    next: Event,
)
    requires
        advanced(pre, flow, event, after, step),
        flow.awaits(event),
    ensures
        comes_of(next, step.action) <==> step.flow.awaits(next),
        step.action is Finish <==> step.flow is Finished,
{
    lemma_failures_are_sound(pre.caps, after, step);
}

/// The same of the first step of a start and of a stop.
pub proof fn law_first_step_awaits_its_action(
    pre: Orchestrator,
    session: SessionId,
    profile: ProfileId,
    after: Sessions,
    step: Step,
    next: Event,
)
    requires
        goes_on(step, silence(), Action::GetProfile(profile), first_flow(session, profile))
            || stop_begun(pre, after, step, session),
    ensures
        comes_of(next, step.action) <==> step.flow.awaits(next),
{
    lemma_failures_are_sound(pre.caps, after, step);
}

/// How many steps a flow may still take.
pub open spec fn steps_left(flow: Flow) -> int {
    match flow {
        Flow::FetchProfile { .. } => 30,
        Flow::TakeLock { .. } => 29,
        Flow::MakeKey { .. } => 28,
        Flow::ProvisionGateway { .. } => 27,
        Flow::ProvisionBrowser { .. } => 26,
        Flow::Configure { .. } => 25,
        Flow::Firewall { .. } => 24,
        Flow::StartGateway { .. } => 23,
        Flow::StartBrowser { .. } => 22,
        Flow::HostPrepare { .. } => 22,
        Flow::Preflight { .. } => 21,
        Flow::Probe { .. } => 21,
        Flow::Launch { .. } => 20,
        Flow::Touch { .. } => 19,
        Flow::Sever { .. } => 8,
        Flow::DropLock { .. } => 1,
        Flow::TearDown { plan, at, .. } => plan@.len() - at,
        Flow::Finished => 0,
    }
}

/// Every flow ends: each step leaves fewer steps to take.
pub proof fn law_flows_end(
    pre: Orchestrator,
    flow: Flow,
    event: Event,
    after: Sessions,
    step: Step,
)
    requires
        advanced(pre, flow, event, after, step),
        flow.awaits(event),
    ensures
        0 <= steps_left(step.flow) < steps_left(flow),
{
    lemma_failures_are_sound(pre.caps, after, step);
}

/// Whether a step that answers a failure waits for its action and for few more.
spec fn sound(step: Step) -> bool {
    &&& 0 <= steps_left(step.flow) <= 8
    &&& step.flow is TearDown ==> steps_left(step.flow) <= 7
    &&& step.action is Finish <==> step.flow is Finished
    &&& forall|next: Event| #[trigger] comes_of(next, step.action) <==> step.flow.awaits(next)
}

proof fn lemma_failures_are_sound(caps: Capabilities, after: Sessions, step: Step)
    ensures
        forall|
            table: Sessions,
            session: SessionId,
            ending: EndingModel,
            prior: Seq<RecordModel>,
        |
            #[trigger] tears_down(caps, table, after, step, session, ending, prior) ==> sound(step)
                && !(step.flow is Sever),
        forall|table: Sessions, session: SessionId, error: ErrorModel, prior: Seq<RecordModel>| #[trigger]
            fails(caps, table, after, step, session, error, prior) ==> sound(step),
{
    assert forall|
        table: Sessions,
        session: SessionId,
        ending: EndingModel,
        prior: Seq<RecordModel>,
    | #[trigger] tears_down(caps, table, after, step, session, ending, prior) implies sound(step)
        && !(step.flow is Sever) by {
        law_teardown_covers_everything(table[session], caps);
    }
    assert forall|
        table: Sessions,
        session: SessionId,
        error: ErrorModel,
        prior: Seq<RecordModel>,
    | #[trigger] fails(caps, table, after, step, session, error, prior) implies sound(step) by {
        if !error.severs() {
            assert(tears_down(
                caps,
                table,
                after,
                step,
                session,
                EndingModel::Failed(error),
                prior,
            ));
        }
    }
}

/// Stopping a tracked session tears it down, whatever its state; stopping an
/// unknown one is refused and changes nothing.
pub proof fn law_stop_tears_down(
    pre: Orchestrator,
    session: SessionId,
    after: Sessions,
    step: Step,
)
    requires
        stop_begun(pre, after, step, session),
    ensures
        pre.sessions@.contains_key(session) <==> step.flow is TearDown,
        pre.sessions@.contains_key(session) ==> after[session].browser_handle is None,
        !pre.sessions@.contains_key(session) ==> after == pre.sessions@ && (
        step.action matches Action::Finish(Err(Error::NotFound(_)))),
{
}

/// One step of a run: what the flow waited for, what came, and what followed.
pub struct Link {
    /// The orchestrator before the step.
    pub pre: Orchestrator,
    /// What the flow waited for.
    pub flow: Flow,
    /// What came.
    pub event: Event,
    /// The sessions after the step.
    pub after: Sessions,
    /// The step.
    pub step: Step,
}

/// Whether a link is a step: its flow waited for the event, and takes it as it
/// must.
#[verifier::opaque]
pub open spec fn is_step(link: Link) -> bool {
    &&& link.flow.awaits(link.event)
    &&& advanced(link.pre, link.flow, link.event, link.after, link.step)
}

/// Whether two tables agree on a session.
pub open spec fn agree(a: Sessions, b: Sessions, session: SessionId) -> bool {
    &&& a.contains_key(session) == b.contains_key(session)
    &&& a.contains_key(session) ==> a[session] == b[session]
}

/// Whether the links are consecutive steps of one flow of a session that nobody
/// else touches meanwhile. Other sessions may come, go and change.
pub open spec fn is_run(run: Seq<Link>, session: SessionId) -> bool {
    &&& forall|i: int| 0 <= i < run.len() ==> is_step(#[trigger] run[i])
    &&& forall|i: int, j: int|
        0 <= i && j == i + 1 && j < run.len() ==> {
            let link = #[trigger] run[i];
            let next = #[trigger] run[j];
            &&& next.flow == link.step.flow
            &&& next.pre.caps == link.pre.caps
            &&& agree(next.pre.sessions@, link.after, session)
        }
}

/// Whether the run performs a teardown step.
pub open spec fn performs(run: Seq<Link>, t: TeardownStep) -> bool {
    exists|i: int| 0 <= i < run.len() && (#[trigger] run[i]).step.action == Action::Undo(t)
}

proof fn lemma_rest_is_run(run: Seq<Link>, session: SessionId)
    requires
        is_run(run, session),
        run.len() > 0,
    ensures
        is_run(run.skip(1), session),
{
    let rest = run.skip(1);
    assert forall|i: int| 0 <= i < rest.len() implies is_step(#[trigger] rest[i]) by {
        assert(rest[i] == run[i + 1]);
    }
    assert forall|i: int, j: int| 0 <= i && j == i + 1 && j < rest.len() implies {
        let link = #[trigger] rest[i];
        let next = #[trigger] rest[j];
        &&& next.flow == link.step.flow
        &&& next.pre.caps == link.pre.caps
        &&& agree(next.pre.sessions@, link.after, session)
    } by {
        assert(rest[i] == run[i + 1]);
        assert(rest[j] == run[j + 1]);
    }
}

/// What a step of a teardown does.
#[verifier::spinoff_prover]
proof fn lemma_teardown_step(
    link: Link,
    session: SessionId,
    plan: Seq<TeardownStep>,
    at: int,
    ending: EndingModel,
)
    requires
        is_step(link),
        0 <= at < plan.len(),
        link.pre.sessions@.contains_key(session),
        link.flow matches Flow::TearDown { session: s, plan: p, at: k, ending: e, .. } && s
            == session && p@ == plan && k == at && e@ == ending,
    ensures
        at + 1 < plan.len() ==> {
            &&& link.step.action == Action::Undo(plan[at + 1])
            &&& link.after == link.pre.sessions@
            &&& link.step.flow matches Flow::TearDown { session: s, plan: p, at: k, ending: e, .. }
                && s == session && p@ == plan && k == at + 1 && e@ == ending
        },
        at + 1 == plan.len() ==> {
            &&& link.step.flow is Finished
            &&& link.step.action is Finish
            &&& link.after.contains_key(session)
            &&& link.after[session].state == ending.state()
            &&& link.after[session].nothing_live()
            &&& finishes(link.step, ending.outcome(session, link.after))
        },
{
    reveal(is_step);
}

/// What follows a failed preflight and then the cut.
#[verifier::spinoff_prover]
proof fn lemma_cut_steps(link: Link)
    requires
        is_step(link),
    ensures
        link.flow matches Flow::Preflight { session, .. } ==> (
        link.event matches Event::Checklist(Ok(c)) ==> (!c.complete() ==> {
            &&& link.step.action is EngageKillSwitch
            &&& link.step.flow matches Flow::Sever { session: s, error } && s == session && error@
                == preflight_refusal(c)
            &&& link.pre.sessions@.contains_key(session) ==> link.after.contains_key(session)
                && link.after[session] == link.pre.sessions@[session].changed(
                Change::Checked(c.aggregate(), observed(c)),
            )
        })),
        link.flow matches Flow::Sever { session, error } ==> (link.pre.sessions@.contains_key(session)
            ==> {
            &&& link.step.flow matches Flow::TearDown { session: s, plan, at, ending, .. } && s
                == session && at == 0 && ending@ == EndingModel::Failed(error@) && plan@
                == teardown_plan(link.pre.sessions@[session], link.pre.caps) && link.step.action
                == Action::Undo(plan@[0])
            &&& link.after.contains_key(session)
        }),
{
    reveal(is_step);
}

/// From within a teardown a run performs all the steps that are left, and at its
/// end the session has nothing live.
proof fn lemma_teardown_run(run: Seq<Link>, session: SessionId, plan: Seq<TeardownStep>, at: int, ending: EndingModel)
    requires
        is_run(run, session),
        run.len() > 0,
        run.last().step.flow is Finished,
        0 <= at < plan.len(),
        run[0].pre.sessions@.contains_key(session),
        run[0].flow matches Flow::TearDown { session: s, plan: p, at: k, ending: e, .. } && s
            == session && p@ == plan && k == at && e@ == ending,
    ensures
        forall|k: int| at < k < plan.len() ==> performs(run, #[trigger] plan[k]),
        forall|i: int| 0 <= i < run.len() ==> (#[trigger] run[i]).step.action !is Launch,
        run.last().after.contains_key(session),
        run.last().after[session].state == ending.state(),
        run.last().after[session].nothing_live(),
        finishes(run.last().step, ending.outcome(session, run.last().after)),
    decreases run.len(),
{
    let link = run[0];
    assert(is_step(link));
    lemma_teardown_step(link, session, plan, at, ending);
    if at + 1 < plan.len() {
        assert(run.len() > 1);
        let rest = run.skip(1);
        lemma_rest_is_run(run, session);
        assert(rest[0] == run[1]);
        assert(run[1].flow == run[0].step.flow);
        assert(rest.last() == run.last());
        lemma_teardown_run(rest, session, plan, at + 1, ending);
        assert forall|k: int| at < k < plan.len() implies performs(run, #[trigger] plan[k]) by {
            if k > at + 1 {
                let i = choose|i: int|
                    0 <= i < rest.len() && (#[trigger] rest[i]).step.action == Action::Undo(plan[k]);
                assert(run[i + 1] == rest[i]);
            }
        }
        assert forall|i: int| 0 <= i < run.len() implies (#[trigger] run[i]).step.action !is Launch by {
            if i > 0 {
                assert(run[i] == rest[i - 1]);
            }
        }
    } else {
        assert(link.step.flow is Finished);
        if run.len() > 1 {
            assert(run[1].flow == run[0].step.flow);
            lemma_no_step_after_end(run[1]);
        }
    }
}

/// Failing closed, from end to end: where preflight does not permit browsing,
/// the run never launches a browser; it cuts traffic first, then tears the
/// session down step by step, down to the release of the lock, whatever fails on
/// the way; and it ends with a containment error that names the checks, and with
/// the session failed and nothing live.
pub proof fn law_failed_preflight_fails_closed(
    run: Seq<Link>,
    session: SessionId,
    profile: Profile,
    c: ConnectivityChecklist,
)
    requires
        is_run(run, session),
        run.len() > 0,
        run.last().step.flow is Finished,
        run[0].flow == (Flow::Preflight { session, profile }),
        run[0].event == Event::Checklist(Ok(c)),
        !c.complete(),
        run[0].pre.sessions@.contains_key(session),
    ensures
        run[0].step.action is EngageKillSwitch,
        forall|i: int| 0 <= i < run.len() ==> (#[trigger] run[i]).step.action !is Launch,
        forall|k: int|
            0 <= k < teardown_plan(run[0].pre.sessions@[session], run[0].pre.caps).len()
                ==> performs(
                run,
                #[trigger] teardown_plan(run[0].pre.sessions@[session], run[0].pre.caps)[k],
            ),
        finishes(run.last().step, Err(preflight_refusal(c))),
        run.last().after.contains_key(session),
        run.last().after[session].state == SessionState::Failed,
        run.last().after[session].nothing_live(),
{
    let caps = run[0].pre.caps;
    let before = run[0].pre.sessions@[session];
    let plan = teardown_plan(before, caps);
    let first = run[0];
    assert(is_step(first));
    lemma_cut_steps(first);
    assert(first.step.flow is Sever);
    assert(run.len() > 1);
    let second = run[1];
    assert(second.flow == first.step.flow);
    assert(is_step(second));
    lemma_cut_steps(second);
    assert(second.step.flow is TearDown);
    assert(teardown_plan(second.pre.sessions@[session], second.pre.caps) =~= plan);
    assert(run.len() > 2);
    let third = run[2];
    assert(third.flow == second.step.flow);
    law_teardown_covers_everything(before, caps);
    let rest = run.skip(1).skip(1);
    lemma_rest_is_run(run, session);
    lemma_rest_is_run(run.skip(1), session);
    assert(rest[0] == run[2]);
    assert(rest.last() == run.last());
    let ending = EndingModel::Failed(preflight_refusal(c));
    lemma_teardown_run(rest, session, plan, 0, ending);
    assert forall|k: int| 0 <= k < plan.len() implies performs(run, #[trigger] plan[k]) by {
        if k == 0 {
            assert(run[1].step.action == Action::Undo(plan[0]));
        } else {
            let i = choose|i: int|
                0 <= i < rest.len() && (#[trigger] rest[i]).step.action == Action::Undo(plan[k]);
            assert(run[i + 2] == rest[i]);
        }
    }
    assert forall|i: int| 0 <= i < run.len() implies (#[trigger] run[i]).step.action !is Launch by {
        if i > 1 {
            assert(run[i] == rest[i - 2]);
        }
    }
}

/// Whether an entry is what a start of the profile ends in: browsing, with full
/// protection in a VM and reduced protection on the host.
pub open spec fn is_started(e: SessionEntry, profile_id: ProfileId, profile: Profile) -> bool {
    &&& e.profile == profile_id
    &&& e.state is Browsing
    &&& e.protection == match profile.spec.isolation {
        IsolationLevel::FullVm => ProtectionStatus::Active,
        IsolationLevel::HostProcess => ProtectionStatus::Partial,
    }
}

/// Whether a start of the profile, once the profile was fetched, waits as it may,
/// or has failed.
spec fn on_course(
    flow: Flow,
    table: Sessions,
    session: SessionId,
    profile_id: ProfileId,
    profile: Profile,
) -> bool {
    let vm = profile.spec.isolation is FullVm;
    let known = table.contains_key(session) && table[session].profile == profile_id;
    match flow {
        Flow::FetchProfile { .. } => false,
        Flow::TakeLock { session: s, profile_id: p, profile: q } => s == session && p == profile_id
            && q == profile,
        Flow::MakeKey { session: s, profile_id: p, profile: q, .. } => s == session && p
            == profile_id && q == profile,
        Flow::ProvisionGateway { session: s, profile: q } => s == session && q == profile && vm
            && known,
        Flow::ProvisionBrowser { session: s, profile: q, .. } => s == session && q == profile && vm
            && known,
        Flow::Configure { session: s, profile: q, .. } => s == session && q == profile && vm
            && known,
        Flow::Firewall { session: s, profile: q, .. } => s == session && q == profile && vm
            && known,
        Flow::StartGateway { session: s, profile: q, .. } => s == session && q == profile && vm
            && known,
        Flow::StartBrowser { session: s, profile: q } => s == session && q == profile && vm
            && known,
        Flow::Preflight { session: s, profile: q } => s == session && q == profile && vm && known,
        Flow::HostPrepare { session: s, profile: q } => s == session && q == profile && !vm
            && known,
        Flow::Probe { session: s, profile: q, .. } => s == session && q == profile && !vm
            && known,
        Flow::Launch { session: s, .. } => s == session && known && is_started(
            table[session],
            profile_id,
            profile,
        ),
        Flow::Touch { session: s, .. } => s == session && known && is_started(
            table[session],
            profile_id,
            profile,
        ) && table[session].browser_handle is Some,
        Flow::TearDown { ending, .. } => ending is Failed,
        Flow::DropLock { .. } | Flow::Sever { .. } | Flow::Finished => true,
    }
}

#[verifier::spinoff_prover]
#[verifier::rlimit(60)]
proof fn lemma_course_is_kept(
    link: Link,
    session: SessionId,
    profile_id: ProfileId,
    profile: Profile,
)
    requires
        on_course(link.flow, link.pre.sessions@, session, profile_id, profile),
        is_step(link),
    ensures
        on_course(link.step.flow, link.after, session, profile_id, profile),
        link.step.action matches Action::Finish(Ok(s)) ==> {
            &&& link.flow is Touch
            &&& link.after.contains_key(session)
            &&& is_started(link.after[session], profile_id, profile)
            &&& link.after[session].browser_handle is Some
            &&& s == link.after[session].summarized(session)
        },
        link.step.flow is Touch ==> link.flow is Launch,
        link.step.flow is Launch ==> shows_containment(link.flow, link.event)
            && link.step.action is Launch,
        link.step.flow is Firewall ==> link.step.action == Action::ApplyFirewall(
            FirewallPolicy::closed_for(profile.spec.network.mode, profile.spec.network.ipv6),
        ),
        link.step.flow is StartGateway ==> link.flow is Firewall && (
        link.event matches Event::Done(Ok(_))),
        link.step.action is StartVm ==> (link.flow is Firewall || link.flow is StartGateway) && (
        link.event matches Event::Done(Ok(_))),
{
    reveal(is_step);
    match link.flow {
        Flow::MakeKey { .. } => {},
        Flow::Preflight { .. } => {},
        Flow::HostPrepare { .. } => {},
        Flow::Probe { .. } => {},
        Flow::TearDown { .. } => {},
        _ => {},
    }
}

/// The first step of a start goes on only with the profile, or ends the run.
proof fn lemma_first_step(link: Link)
    requires
        is_step(link),
        link.flow is FetchProfile,
    ensures
        link.event is Profile,
        link.step.action is AcquireLock || (link.step.action matches Action::Finish(Err(_))),
        link.step.action is AcquireLock <==> link.step.flow is TakeLock,
        link.step.action is AcquireLock ==> (link.event matches Event::Profile(Ok(_))),
        link.step.action is Finish ==> link.step.flow is Finished,
{
    reveal(is_step);
}

/// A finished flow takes no step.
proof fn lemma_no_step_after_end(link: Link)
    requires
        link.flow is Finished,
    ensures
        !is_step(link),
{
    reveal(is_step);
}

/// Behind the first step a start stays on course.
proof fn lemma_on_course(
    run: Seq<Link>,
    session: SessionId,
    profile_id: ProfileId,
    profile: Profile,
    i: int,
)
    requires
        is_run(run, session),
        run[0].flow == first_flow(session, profile_id),
        run[0].event == Event::Profile(Ok(profile)),
        0 < i < run.len(),
    ensures
        on_course(run[i].flow, run[i].pre.sessions@, session, profile_id, profile),
    decreases i,
{
    lemma_step_before(run, session, i);
    if i > 1 {
        lemma_on_course(run, session, profile_id, profile, i - 1);
        lemma_course_is_kept(run[i - 1], session, profile_id, profile);
    } else {
        reveal(is_step);
    }
}

/// A start that succeeds, from end to end: its profile was fetched, containment
/// was shown and only then the browser launched; and the session is tracked as
/// browsing, with its browser, under full protection in a VM and reduced
/// protection on the host. The result is its summary.
pub proof fn law_started_sessions_browse(
    run: Seq<Link>,
    session: SessionId,
    profile_id: ProfileId,
    s: SessionSummary,
)
    requires
        is_run(run, session),
        run.len() > 0,
        run[0].flow == first_flow(session, profile_id),
        run.last().step.action == Action::Finish(Ok(s)),
    ensures
        run[0].event matches Event::Profile(Ok(profile)) && {
            &&& s.id == session
            &&& s.profile == profile_id
            &&& s.state is Browsing
            &&& s.protection == match profile.spec.isolation {
                IsolationLevel::FullVm => ProtectionStatus::Active,
                IsolationLevel::HostProcess => ProtectionStatus::Partial,
            }
        },
        run.last().after.contains_key(session),
        run.last().after[session].browser_handle is Some,
        s == run.last().after[session].summarized(session),
        run.len() > 3,
        shows_containment(run[run.len() - 3].flow, run[run.len() - 3].event),
        run[run.len() - 3].step.action is Launch,
{
    let n = run.len() as int;
    let first = run[0];
    assert(is_step(first));
    lemma_first_step(first);
    let profile = first.event->Profile_0->Ok_0;
    assert(n > 1);
    assert(run[1].flow == first.step.flow);
    if first.step.flow is Finished {
        lemma_no_step_after_end(run[1]);
    }
    lemma_on_course(run, session, profile_id, profile, n - 1);
    lemma_course_is_kept(run[n - 1], session, profile_id, profile);
    assert(run[n - 1].flow == run[n - 2].step.flow);
    assert(n > 2);
    lemma_on_course(run, session, profile_id, profile, n - 2);
    lemma_course_is_kept(run[n - 2], session, profile_id, profile);
    assert(run[n - 2].flow == run[n - 3].step.flow);
    assert(n > 3);
    lemma_on_course(run, session, profile_id, profile, n - 3);
    lemma_course_is_kept(run[n - 3], session, profile_id, profile);
}

/// No VM is started before the fail-closed firewall for the profile's network was
/// applied, and applied with success.
pub proof fn law_firewall_precedes_vms(
    run: Seq<Link>,
    session: SessionId,
    profile_id: ProfileId,
    i: int,
)
    requires
        is_run(run, session),
        run[0].flow == first_flow(session, profile_id),
        0 <= i < run.len(),
        run[i].step.action is StartVm,
    ensures
        run[0].event matches Event::Profile(Ok(profile)) && exists|j: int|
            {
                &&& 0 <= j < i
                &&& (#[trigger] run[j]).step.action == Action::ApplyFirewall(
                    FirewallPolicy::closed_for(
                        profile.spec.network.mode,
                        profile.spec.network.ipv6,
                    ),
                )
                &&& run[j + 1].event matches Event::Done(Ok(_))
            },
{
    let first = run[0];
    assert(is_step(first));
    lemma_first_step(first);
    let profile = first.event->Profile_0->Ok_0;
    assert(i > 0);
    assert(run[1].flow == first.step.flow);
    if first.step.flow is Finished {
        lemma_no_step_after_end(run[1]);
    }
    lemma_on_course(run, session, profile_id, profile, i);
    lemma_course_is_kept(run[i], session, profile_id, profile);
    let k = if run[i].flow is Firewall {
        i
    } else {
        i - 1
    };
    assert(run[i].flow == run[i - 1].step.flow);
    assert(i > 1);
    lemma_on_course(run, session, profile_id, profile, i - 1);
    lemma_course_is_kept(run[i - 1], session, profile_id, profile);
    assert(run[k].flow is Firewall);
    assert(run[k].flow == run[k - 1].step.flow);
    assert(k > 1);
    lemma_on_course(run, session, profile_id, profile, k - 1);
    lemma_course_is_kept(run[k - 1], session, profile_id, profile);
    assert(run[k - 1 + 1].event matches Event::Done(Ok(_)));
}

/// What went before a step of a start in VMs, as far as the step tells it.
#[verifier::spinoff_prover]
proof fn lemma_vm_steps(link: Link)
    requires
        is_step(link),
    ensures
        link.step.flow !is FetchProfile,
        link.step.flow matches Flow::TakeLock { session, profile_id, profile } ==> {
            &&& link.flow == (Flow::FetchProfile { session, profile_id })
            &&& link.event == Event::Profile(Ok(profile))
            &&& link.step.action == Action::AcquireLock(profile_id)
        },
        link.step.flow matches Flow::MakeKey { session, profile_id, profile, lease } ==> {
            &&& link.flow == (Flow::TakeLock { session, profile_id, profile })
            &&& link.event == Event::Lease(Ok(lease))
            &&& link.step.action is GenerateKey
        },
        link.step.flow matches Flow::ProvisionGateway { session, profile } ==> {
            &&& link.flow matches Flow::MakeKey { session: s, profile: q, .. } && s == session && q
                == profile
            &&& link.event matches Event::Key(Ok(_))
            &&& profile.spec.isolation is FullVm
            &&& link.step.action matches Action::Provision(req) && req.role is Gateway
        },
        link.step.flow matches Flow::ProvisionBrowser { session, profile, gateway } ==> {
            &&& link.flow == (Flow::ProvisionGateway { session, profile })
            &&& link.event matches Event::Vm(Ok(vm)) && vm.id == gateway
            &&& link.step.action matches Action::Provision(req) && req.role is Browser
            &&& link.after.contains_key(session) && link.after[session].gateway_vm == Some(gateway)
        },
        link.step.flow matches Flow::Configure { session, profile, gateway, browser } ==> {
            &&& link.flow == (Flow::ProvisionBrowser { session, profile, gateway })
            &&& link.event matches Event::Vm(Ok(vm)) && vm.id == browser
            &&& link.step.action matches Action::Configure(c) && is_gateway_config(
                c,
                profile.spec.network,
            )
            &&& link.pre.sessions@.contains_key(session)
            &&& link.after.contains_key(session)
            &&& link.after[session].browser_vm == Some(browser)
            &&& link.after[session].gateway_vm == link.pre.sessions@[session].gateway_vm
        },
        link.step.flow matches Flow::Firewall { session, profile, gateway, browser } ==> {
            &&& link.flow == (Flow::Configure { session, profile, gateway, browser })
            &&& link.event matches Event::Done(Ok(_))
            &&& link.step.action is ApplyFirewall
            &&& link.after == link.pre.sessions@
        },
        link.step.flow matches Flow::StartGateway { session, profile, browser } ==> {
            &&& link.flow matches Flow::Firewall { session: s, profile: q, gateway, browser: b } && s
                == session && q == profile && b == browser && link.step.action == Action::StartVm(
                gateway,
            )
            &&& link.event matches Event::Done(Ok(_))
            &&& link.after == link.pre.sessions@
        },
        link.step.flow matches Flow::StartBrowser { session, profile } ==> {
            &&& link.flow matches Flow::StartGateway { session: s, profile: q, browser } && s == session
                && q == profile && link.step.action == Action::StartVm(browser)
            &&& link.event matches Event::Done(Ok(_))
            &&& link.after == link.pre.sessions@
        },
        link.step.action matches Action::RunPreflight(ctx) ==> {
            &&& link.flow matches Flow::StartBrowser { session, profile } && link.step.flow == (
            Flow::Preflight { session, profile }) && is_preflight_context(
                ctx,
                session,
                profile.spec.network,
            ) && link.after.contains_key(session) && link.pre.sessions@.contains_key(session)
                && link.after[session].gateway_vm == link.pre.sessions@[session].gateway_vm
                && link.after[session].browser_vm == link.pre.sessions@[session].browser_vm
            &&& link.event matches Event::Done(Ok(_))
        },
{
    reveal(is_step);
}

/// A start in VMs that reaches preflight has gone its way step by step: it took
/// the lock of the profile that was asked for, had the gateway provisioned and
/// then the browser VM, configured the gateway, closed the firewall, and started
/// the very VM that came of the gateway's provisioning and after it the one that
/// came of the browser's. Each of these succeeded, and the session knows both VMs.
pub proof fn law_vms_boot_in_order(
    run: Seq<Link>,
    session: SessionId,
    profile_id: ProfileId,
    n: int,
)
    requires
        is_run(run, session),
        run[0].flow == first_flow(session, profile_id),
        0 <= n < run.len(),
        run[n].step.action is RunPreflight,
    ensures
        n == 8,
        run[0].event matches Event::Profile(Ok(profile)) && profile.spec.isolation is FullVm,
        run[0].step.action == Action::AcquireLock(profile_id),
        run[1].event matches Event::Lease(Ok(_)),
        run[1].step.action is GenerateKey,
        run[2].event matches Event::Key(Ok(_)),
        run[2].step.action matches Action::Provision(req) && req.role is Gateway,
        run[3].event matches Event::Vm(Ok(_)),
        run[3].step.action matches Action::Provision(req) && req.role is Browser,
        run[4].event matches Event::Vm(Ok(_)),
        run[4].step.action is Configure,
        run[5].event matches Event::Done(Ok(_)),
        run[5].step.action is ApplyFirewall,
        run[6].event matches Event::Done(Ok(_)),
        run[6].step.action == Action::StartVm(run[3].event->Vm_0->Ok_0.id),
        run[7].event matches Event::Done(Ok(_)),
        run[7].step.action == Action::StartVm(run[4].event->Vm_0->Ok_0.id),
        run[8].event matches Event::Done(Ok(_)),
        run[8].after.contains_key(session),
        run[8].after[session].gateway_vm == Some(run[3].event->Vm_0->Ok_0.id),
        run[8].after[session].browser_vm == Some(run[4].event->Vm_0->Ok_0.id),
{
    lemma_vm_steps(run[n]);
    assert(run[n].flow is StartBrowser);
    lemma_step_before(run, session, n);
    lemma_vm_steps(run[n - 1]);
    lemma_step_before(run, session, n - 1);
    lemma_vm_steps(run[n - 2]);
    lemma_step_before(run, session, n - 2);
    lemma_vm_steps(run[n - 3]);
    lemma_step_before(run, session, n - 3);
    lemma_vm_steps(run[n - 4]);
    lemma_step_before(run, session, n - 4);
    lemma_vm_steps(run[n - 5]);
    lemma_step_before(run, session, n - 5);
    lemma_vm_steps(run[n - 6]);
    lemma_step_before(run, session, n - 6);
    lemma_vm_steps(run[n - 7]);
    lemma_step_before(run, session, n - 7);
    lemma_vm_steps(run[n - 8]);
    if n > 8 {
        lemma_step_before(run, session, n - 8);
        lemma_vm_steps(run[n - 9]);
    }
}

/// A step that is not the first of its run follows the one before it.
proof fn lemma_step_before(run: Seq<Link>, session: SessionId, i: int)
    requires
        is_run(run, session),
        0 <= i < run.len(),
    ensures
        0 < i ==> {
            &&& run[i].flow == run[i - 1].step.flow
            &&& agree(run[i].pre.sessions@, run[i - 1].after, session)
            &&& is_step(run[i - 1])
        },
        is_step(run[i]),
{
    reveal(is_step);
    let link = run[i];
    if i > 0 {
        let link = run[i - 1];
    }
}

/// Whether a record says that the session of the profile has reached a state.
pub open spec fn tells_state(
    r: RecordModel,
    session: SessionId,
    profile: ProfileId,
    word: Seq<char>,
) -> bool {
    &&& r.severity is Info
    &&& r.session == Some(session)
    &&& r.profile == Some(profile)
    &&& r.kind == KindModel::SessionState(word)
}

/// What went before a launch, and what comes of it.
#[verifier::spinoff_prover]
#[verifier::rlimit(60)]
proof fn lemma_launch_steps(link: Link)
    requires
        is_step(link),
    ensures
        link.step.flow matches Flow::Launch { session, profile_id, target } ==> {
            &&& link.step.action matches Action::Launch { target: t, request, bundle } && t == target
                && is_bundle(bundle, target.renders(), request)
            &&& link.pre.sessions@.contains_key(session)
            &&& link.after.contains_key(session)
            &&& link.after[session].profile == link.pre.sessions@[session].profile
            &&& notes(link.step.records@).len() > 0
            &&& tells_state(
                notes(link.step.records@).last(),
                session,
                link.pre.sessions@[session].profile,
                "browsing"@,
            )
            &&& link.flow is Preflight || link.flow is Probe
        },
        link.step.flow matches Flow::Launch { session, profile_id, target } ==> (
        link.flow matches Flow::Preflight { session: s, profile } ==> {
            &&& s == session
            &&& profile_id == profile.id
            &&& target is Vm
            &&& link.event matches Event::Checklist(Ok(c)) && c.complete() && link.after[session].public_ip
                == observed(c) && notes(link.step.records@).len() == c.reports@.len() + 1
            &&& is_launch_request(
                link.step.action->request,
                session,
                profile,
                GUEST_PROFILE_DIR@,
                gateway_proxy(profile.spec.network.mode),
            )
        }),
        link.step.flow matches Flow::Launch { session, profile_id, target } ==> (
        link.flow matches Flow::Probe { session: s, profile, proxy } ==> {
            let dir = host_profile_dir(
                link.pre.settings.paths.runtime_dir@,
                profile.id,
                link.pre.caps.windows,
            );
            &&& s == session
            &&& profile_id == profile.id
            &&& target == Target::Host(profile.spec.browser)
            &&& link.event == Event::Reachable(Ok(true))
            &&& is_launch_request(link.step.action->request, session, profile, dir, proxy.endpoint@)
            &&& is_host_mode(link.after[session].mode, profile, dir)
            &&& notes(link.step.records@).len() == 2
            &&& notes(link.step.records@)[0].kind == KindModel::PreflightCheck(
                "host_proxy_reachable"@,
                "pass"@,
            )
        }),
        link.step.flow matches Flow::Touch { session, target } ==> {
            &&& link.flow matches Flow::Launch { session: s, profile_id, target: t } && s == session && t
                == target && link.step.action == Action::TouchLaunch(profile_id)
            &&& link.event matches Event::Launched(Ok(h)) && link.after[session].browser_handle == Some(
                h,
            )
            &&& link.pre.sessions@.contains_key(session)
            &&& link.after.contains_key(session)
            &&& link.after[session].public_ip == link.pre.sessions@[session].public_ip
            &&& link.after[session].mode == link.pre.sessions@[session].mode
            &&& target is Vm ==> notes(link.step.records@).len() == 0
            &&& target is Host ==> notes(link.step.records@).len() == 1 && notes(
                link.step.records@,
            )[0].severity is Warning
        },
        link.flow matches Flow::Touch { session, .. } ==> (link.pre.sessions@.contains_key(session)
            ==> {
            &&& link.step.action == Action::Finish(
                Ok(link.pre.sessions@[session].summarized(session)),
            )
            &&& link.after == link.pre.sessions@
        }),
{
    reveal(is_step);
    match link.flow {
        Flow::Preflight { .. } => {},
        Flow::Probe { .. } => {},
        Flow::Launch { .. } => {},
        Flow::TearDown { .. } => {},
        _ => {},
    }
}

/// What went before a probe on the host.
#[verifier::spinoff_prover]
proof fn lemma_host_steps(link: Link)
    requires
        is_step(link),
    ensures
        link.step.flow matches Flow::HostPrepare { session, profile } ==> {
            &&& link.flow matches Flow::MakeKey { session: s, profile: q, profile_id, .. } && s == session
                && q == profile && notes(link.step.records@).len() == 1 && tells_state(
                notes(link.step.records@)[0],
                session,
                profile_id,
                "requested"@,
            )
            &&& link.event matches Event::Key(Ok(_))
            &&& profile.spec.isolation is HostProcess
            &&& link.step.action is ReadHostProxy
        },
        link.step.flow matches Flow::Probe { session, profile, proxy } ==> {
            &&& link.flow == (Flow::HostPrepare { session, profile })
            &&& link.event matches Event::HostProxy(named) && host_endpoint(
                profile.spec.network.mode,
                text::opt_text(named),
            ) == Ok::<Seq<char>, ErrorModel>(proxy.endpoint@) && proxy.reads(proxy.endpoint@)
            &&& link.step.action matches Action::ProbeProxy { host, port } && host@
                == proxy.probe_host@ && port == proxy.probe_port
            &&& link.pre.sessions@.contains_key(session)
            &&& notes(link.step.records@).len() == 3
            &&& tells_state(
                notes(link.step.records@)[0],
                session,
                link.pre.sessions@[session].profile,
                "provisioning"@,
            )
            &&& tells_state(
                notes(link.step.records@)[1],
                session,
                link.pre.sessions@[session].profile,
                "gateway-starting"@,
            )
            &&& tells_state(
                notes(link.step.records@)[2],
                session,
                link.pre.sessions@[session].profile,
                "preflight"@,
            )
        },
{
    reveal(is_step);
}

/// A start in VMs that succeeds launches the profile's browser in the VM, behind
/// the gateway: with the profile's own settings, through the gateway's port for its
/// tunnel, and only after every check has passed. It records the launch on the
/// profile, and the session has the browser that was launched and the address that
/// preflight saw.
#[verifier::spinoff_prover]
#[verifier::rlimit(100)]
pub proof fn law_vm_starts_launch_behind_the_gateway(
    run: Seq<Link>,
    session: SessionId,
    profile_id: ProfileId,
    profile: Profile,
    s: SessionSummary,
)
    requires
        is_run(run, session),
        run.len() > 0,
        run[0].flow == first_flow(session, profile_id),
        run[0].event == Event::Profile(Ok(profile)),
        profile.spec.isolation is FullVm,
        run.last().step.action == Action::Finish(Ok(s)),
    ensures
        run.len() == 12,
        run[8].step.action is RunPreflight,
        run[9].event matches Event::Checklist(Ok(c)) && c.complete() && (match c.observed_ip {
            Some(o) => s.public_ip == Some(o.ip),
            None => s.public_ip is None,
        }),
        run[9].step.action matches Action::Launch { target, request, bundle } && {
            &&& target is Vm
            &&& bundle.backend is Chromium
            &&& request.session == session
            &&& request.profile == profile.id
            &&& request.user_data_dir@ == "/home/user/.aegis/profile"@
            &&& request.production
            &&& profile.spec.network.mode is Tor ==> request.proxy_endpoint@
                == "socks5://10.152.152.1:9050"@
            &&& profile.spec.network.mode !is Tor ==> request.proxy_endpoint@
                == "socks5://10.152.152.1:1080"@
            &&& profile.spec.fingerprint matches Some(q) ==> request.fingerprint == q
        },
        run[10].event matches Event::Launched(Ok(h)) && run[11].after[session].browser_handle
            == Some(h),
        run[10].step.action == Action::TouchLaunch(profile.id),
{
    let n = run.len() as int;
    law_started_sessions_browse(run, session, profile_id, s);
    lemma_step_before(run, session, n - 1);
    lemma_step_before(run, session, n - 2);
    lemma_step_before(run, session, n - 3);
    lemma_on_course(run, session, profile_id, profile, n - 1);
    lemma_on_course(run, session, profile_id, profile, n - 2);
    lemma_on_course(run, session, profile_id, profile, n - 3);
    lemma_course_is_kept(run[n - 1], session, profile_id, profile);
    lemma_course_is_kept(run[n - 2], session, profile_id, profile);
    lemma_launch_steps(run[n - 1]);
    lemma_launch_steps(run[n - 2]);
    lemma_launch_steps(run[n - 3]);
    lemma_course_is_kept(run[n - 3], session, profile_id, profile);
    assert(run[n - 3].flow is Preflight);
    lemma_preflight_follows_boot(run[n - 4]);
    law_vms_boot_in_order(run, session, profile_id, n - 4);
    let request = run[9].step.action->request;
    reveal_strlit("socks5://");
    reveal_strlit("10.152.152.1");
    reveal_strlit(":9050");
    reveal_strlit(":1080");
    reveal_strlit("socks5://10.152.152.1:9050");
    reveal_strlit("socks5://10.152.152.1:1080");
    assert("socks5://"@ + "10.152.152.1"@ + ":9050"@ =~= "socks5://10.152.152.1:9050"@);
    assert("socks5://"@ + "10.152.152.1"@ + ":1080"@ =~= "socks5://10.152.152.1:1080"@);
}

#[verifier::spinoff_prover]
proof fn lemma_preflight_follows_boot(link: Link)
    requires
        is_step(link),
    ensures
        link.step.flow is Preflight ==> link.step.action is RunPreflight,
{
    reveal(is_step);
}

/// A start on the host that succeeds probes the proxy that the profile's tunnel
/// comes to, and launches the profile's own engine through that very proxy, in a
/// directory of the profile's own; the session runs in that directory and gives it
/// up exactly where the profile is ephemeral.
#[verifier::spinoff_prover]
#[verifier::rlimit(100)]
pub proof fn law_host_starts_launch_through_the_probed_proxy(
    run: Seq<Link>,
    session: SessionId,
    profile_id: ProfileId,
    profile: Profile,
    s: SessionSummary,
)
    requires
        is_run(run, session),
        run.len() > 0,
        run[0].flow == first_flow(session, profile_id),
        run[0].event == Event::Profile(Ok(profile)),
        profile.spec.isolation is HostProcess,
        run.last().step.action == Action::Finish(Ok(s)),
    ensures
        run.len() == 7,
        run[0].step.action == Action::AcquireLock(profile_id),
        run[1].step.action is GenerateKey,
        run[2].step.action is ReadHostProxy,
        run[3].event matches Event::HostProxy(named) && (run[4].step.action matches Action::Launch {
            request,
            ..
        } && host_endpoint(profile.spec.network.mode, text::opt_text(named)) == Ok::<
            Seq<char>,
            ErrorModel,
        >(request.proxy_endpoint@)),
        run[3].step.action matches Action::ProbeProxy { host, port } && (
        run[4].step.action matches Action::Launch { request, .. } && proxy_authority(
            request.proxy_endpoint@,
        ) == Ok::<(Seq<char>, nat), Seq<char>>((host@, port as nat))),
        run[4].event == Event::Reachable(Ok(true)),
        run[4].step.action matches Action::Launch { target, request, bundle } && {
            &&& target == Target::Host(profile.spec.browser)
            &&& bundle.backend == profile.spec.browser
            &&& request.session == session
            &&& request.profile == profile.id
            &&& request.production
            &&& run[6].after[session].mode matches SessionMode::HostProcess {
                user_data_dir,
                ephemeral,
                engine,
            } && user_data_dir@ == request.user_data_dir@ && (ephemeral
                <==> profile.spec.kind is Ephemeral) && engine == profile.spec.browser
        },
        run[5].event matches Event::Launched(Ok(h)) && run[6].after[session].browser_handle == Some(
            h,
        ),
        run[5].step.action == Action::TouchLaunch(profile.id),
{
    let n = run.len() as int;
    law_started_sessions_browse(run, session, profile_id, s);
    lemma_step_before(run, session, n - 1);
    lemma_step_before(run, session, n - 2);
    lemma_step_before(run, session, n - 3);
    lemma_on_course(run, session, profile_id, profile, n - 1);
    lemma_on_course(run, session, profile_id, profile, n - 2);
    lemma_on_course(run, session, profile_id, profile, n - 3);
    lemma_course_is_kept(run[n - 1], session, profile_id, profile);
    lemma_course_is_kept(run[n - 2], session, profile_id, profile);
    lemma_launch_steps(run[n - 1]);
    lemma_launch_steps(run[n - 2]);
    lemma_launch_steps(run[n - 3]);
    lemma_course_is_kept(run[n - 3], session, profile_id, profile);
    assert(run[n - 3].flow is Probe);
    lemma_host_steps(run[n - 4]);
    lemma_step_before(run, session, n - 4);
    assert(run[n - 4].flow is HostPrepare);
    lemma_host_steps(run[n - 5]);
    lemma_step_before(run, session, n - 5);
    lemma_vm_steps(run[n - 6]);
    lemma_step_before(run, session, n - 6);
    lemma_vm_steps(run[n - 7]);
    if n > 7 {
        lemma_step_before(run, session, n - 7);
        lemma_vm_steps(run[n - 8]);
    }
}

/// Teardown goes from the inside out: the browser goes first, then a disposable
/// directory, then the browser VM and only then the gateway that contained it, each
/// powered off before it is destroyed, and the lock last of all. Nothing is done
/// twice, and nothing that the session does not have is undone.
pub proof fn law_teardown_goes_inside_out(e: SessionEntry, caps: Capabilities)
    ensures
        ({
            let plan = teardown_plan(e, caps);
            let n = plan.len() as int;
            let gateway: int = if e.gateway_vm is Some { 2 } else { 0 };
            let browser: int = if e.browser_vm is Some { 2 } else { 0 };
            let dir: int = if e.mode matches SessionMode::HostProcess { ephemeral, .. } && ephemeral {
                1
            } else {
                0
            };
            let process: int = if e.browser_handle is Some && (e.mode is FullVm || (
            e.mode matches SessionMode::HostProcess { engine, .. } && caps.hosts(engine))) {
                1
            } else {
                0
            };
            &&& n == process + dir + browser + gateway + 1
            &&& plan[n - 1] == TeardownStep::Release(e.lease)
            &&& e.gateway_vm matches Some(id) ==> plan[n - 3] == TeardownStep::Shutdown(id) && plan[n
                - 2] == TeardownStep::Destroy(VmRole::Gateway, id)
            &&& e.browser_vm matches Some(id) ==> plan[n - 3 - gateway] == TeardownStep::Shutdown(id)
                && plan[n - 2 - gateway] == TeardownStep::Destroy(VmRole::Browser, id)
            &&& process == 1 ==> (plan[0] matches TeardownStep::Terminate { target, handle } && Some(
                handle,
            ) == e.browser_handle && (e.mode is FullVm ==> target is Vm) && (
            e.mode matches SessionMode::HostProcess { engine, .. } ==> target == Target::Host(engine)))
            &&& dir == 1 ==> (plan[process] matches TeardownStep::RemoveDir(d) && (
            e.mode matches SessionMode::HostProcess { user_data_dir, .. } && d == user_data_dir))
        }),
{
}

/// Each preflight report is recorded, in its order, before anything else of the
/// step: as news where it passed, as a warning where it did not, under the names of
/// the check and of its outcome.
pub proof fn law_preflight_reports_are_recorded(
    pre: Orchestrator,
    session: SessionId,
    profile: Profile,
    c: ConnectivityChecklist,
    after: Sessions,
    step: Step,
    i: int,
)
    requires
        advanced(
            pre,
            Flow::Preflight { session, profile },
            Event::Checklist(Ok(c)),
            after,
            step,
        ),
        0 <= i < c.reports@.len(),
    ensures
        notes(step.records@).len() >= c.reports@.len(),
        ({
            let r = notes(step.records@)[i];
            &&& r.kind == KindModel::PreflightCheck(
                c.reports@[i].id.name(),
                c.reports@[i].outcome.name(),
            )
            &&& c.reports@[i].outcome is Pass <==> r.severity is Info
            &&& c.reports@[i].outcome !is Pass <==> r.severity is Warning
            &&& r.session == Some(session)
            &&& r.profile == Some(profile.id)
        }),
{
}

/// A VM is recorded as destroyed exactly where destroying it succeeded, under the
/// name of its role; and the last record of a teardown tells how the session ended.
pub proof fn law_teardown_is_recorded(
    pre: Orchestrator,
    session: SessionId,
    profile_id: ProfileId,
    plan: Vec<TeardownStep>,
    at: usize,
    ending: Ending,
    r: Result<(), Error>,
    after: Sessions,
    step: Step,
)
    requires
        at < plan@.len(),
        advanced(
            pre,
            Flow::TearDown { session, profile_id, plan, at, ending },
            Event::Done(r),
            after,
            step,
        ),
    ensures
        plan@[at as int] matches TeardownStep::Destroy(role, _) ==> (r is Ok ==> {
            &&& notes(step.records@).len() > 0
            &&& role is Gateway ==> notes(step.records@)[0].kind == KindModel::Vm(
                "gateway"@,
                "destroyed"@,
            )
            &&& role is Browser ==> notes(step.records@)[0].kind == KindModel::Vm(
                "browser"@,
                "destroyed"@,
            )
        }),
        r is Err ==> forall|i: int|
            0 <= i < notes(step.records@).len() ==> !((#[trigger] notes(
                step.records@,
            )[i]).kind is Vm),
        at + 1 == plan@.len() && ending is Stopped ==> notes(step.records@).len() > 0 && tells_state(
            notes(step.records@).last(),
            session,
            profile_id,
            "destroyed"@,
        ),
        at + 1 == plan@.len() && ending is Failed ==> notes(step.records@).len() > 0 && tells_state(
            notes(step.records@).last(),
            session,
            profile_id,
            "failed"@,
        ),
{
}

/// Before a session is tracked, a start that cannot go on leaves nothing behind: a
/// profile that cannot be had, or may not start, or is locked, ends it with that
/// error and without a lock; without a key the lock that was taken is given back.
pub proof fn law_early_failures_leave_nothing(
    pre: Orchestrator,
    flow: Flow,
    event: Event,
    after: Sessions,
    step: Step,
)
    requires
        advanced(pre, flow, event, after, step),
    ensures
        flow is FetchProfile ==> (event matches Event::Profile(Err(e)) ==> (
        step.action matches Action::Finish(Err(x)) && x@ == e@) && after == pre.sessions@),
        flow is FetchProfile ==> (event matches Event::Profile(Ok(p)) ==> (
        p.spec.isolation is HostProcess && !pre.enforcement.allow_host_browser ==> (
        step.action matches Action::Finish(Err(x)) && x@.kind is Config) && after == pre.sessions@)),
        flow is TakeLock ==> (event matches Event::Lease(Err(e)) ==> (
        step.action matches Action::Finish(Err(x)) && x@ == e@) && after == pre.sessions@),
        flow matches Flow::MakeKey { lease, .. } ==> (event matches Event::Key(Err(e)) ==> (
        step.action matches Action::ReleaseLock(l) && l == lease) && after == pre.sessions@
            && step.flow == (Flow::DropLock { error: e })),
        flow matches Flow::DropLock { error } ==> (step.action matches Action::Finish(Err(x)) && x@
            == error@),
{
}

/// Once the browser runs, the start has succeeded, whether or not the launch could
/// be recorded on the profile.
pub proof fn law_unrecorded_launches_succeed(
    pre: Orchestrator,
    session: SessionId,
    target: Target,
    r: Result<(), Error>,
    after: Sessions,
    step: Step,
)
    requires
        advanced(pre, Flow::Touch { session, target }, Event::Done(r), after, step),
        pre.sessions@.contains_key(session),
    ensures
        step.action matches Action::Finish(Ok(s)) && s.id == session && s.state
            == pre.sessions@[session].state && s.protection == pre.sessions@[session].protection
            && s.public_ip == pre.sessions@[session].public_ip && s.profile
            == pre.sessions@[session].profile,
        after == pre.sessions@,
{
}

/// A cut names its session and that session's profile, and the kill switch is
/// recorded as a critical event of its own.
pub proof fn law_cuts_name_their_session(
    pre: Orchestrator,
    session: SessionId,
    error: Error,
    event: Event,
    after: Sessions,
    step: Step,
)
    requires
        advanced(pre, Flow::Sever { session, error }, event, after, step),
    ensures
        notes(step.records@)[0].session == Some(session),
        pre.sessions@.contains_key(session) ==> notes(step.records@)[0].profile == Some(
            pre.sessions@[session].profile,
        ),
        notes(step.records@)[1].severity is Critical,
        step.flow matches Flow::TearDown { session: s, ending, .. } ==> s == session && ending@
            == EndingModel::Failed(error@),
{
}

/// A host whose proxy is not there is refused by a containment error that names
/// the proxy that was probed.
pub proof fn law_unreachable_proxies_are_named(
    pre: Orchestrator,
    session: SessionId,
    profile: Profile,
    proxy: HostProxy,
    after: Sessions,
    step: Step,
)
    requires
        advanced(
            pre,
            Flow::Probe { session, profile, proxy },
            Event::Reachable(Ok(false)),
            after,
            step,
        ),
    ensures
        step.action is EngageKillSwitch,
        after == pre.sessions@,
        step.flow matches Flow::Sever { session: s, error } && s == session && error@.kind
            is NetworkContainment && ("host-mode proxy at "@ + proxy.probe_host@ + ":"@
            + text::dec(proxy.probe_port as nat)).is_prefix_of(error@.message),
{
    let front = "host-mode proxy at "@ + proxy.probe_host@ + ":"@ + text::dec(
        proxy.probe_port as nat,
    );
    let m = step.flow->Sever_error@.message;
    assert(m.subrange(0, front.len() as int) =~= front);
}

/// Stopping a tracked session, from end to end: every teardown step is performed
/// whatever fails on the way, and the session is destroyed with nothing live.
pub proof fn law_stop_destroys(
    pre: Orchestrator,
    session: SessionId,
    after: Sessions,
    step: Step,
    run: Seq<Link>,
)
    requires
        pre.sessions@.contains_key(session),
        stop_begun(pre, after, step, session),
        is_run(run, session),
        run.len() > 0,
        run.last().step.flow is Finished,
        run[0].flow == step.flow,
        agree(run[0].pre.sessions@, after, session),
    ensures
        step.action == Action::Undo(teardown_plan(pre.sessions@[session], pre.caps)[0]),
        forall|k: int|
            0 < k < teardown_plan(pre.sessions@[session], pre.caps).len() ==> performs(
                run,
                #[trigger] teardown_plan(pre.sessions@[session], pre.caps)[k],
            ),
        run.last().after.contains_key(session),
        run.last().after[session].state == SessionState::Destroyed,
        run.last().after[session].nothing_live(),
        finishes(run.last().step, Ok(run.last().after[session].summarized(session))),
{
    law_teardown_covers_everything(pre.sessions@[session], pre.caps);
    let plan = teardown_plan(pre.sessions@[session], pre.caps);
    lemma_teardown_run(run, session, plan, 0, EndingModel::Stopped);
}

} // verus!
