//! The course of one run, as a machine: from the configuration to the
//! connection, the subscription, the monitored items, the running session
//! and its end. Each step takes what happened and says what to print and
//! what to do next; the caller does it and reports back.

use crate::node::{monitored_nodes, tag_node, NodeIdentity, NodeIdentityView};
use crate::report::{
    failure_line, failure_report, parsed_tags_line, parsed_tags_report, raw_tags_line,
    raw_tags_report,
};
use crate::session::{
    connection_plan, default_settings, plan_for, subscription_settings, ConnectionPlan,
    ConnectionPlanView, SubscriptionSettings, Timestamps,
};
use crate::tags::{parse_tags, tag_list};
use vstd::prelude::*;

verus! {

/// How far a run has come.
#[derive(Debug, Clone, Copy, PartialEq, Eq, Structural)]
pub enum Phase {
    /// Nothing has been read yet.
    Start,
    /// The configuration is complete; the session is being opened.
    Connecting,
    /// The session is open; the subscription is being created.
    Subscribing,
    /// The subscription exists; its monitored items are being created.
    Registering,
    /// The session runs and the dispatcher reports changes.
    Running,
    /// The run is over.
    Terminated,
}

/// Why a run is given up.
#[derive(Debug, Clone, Copy, PartialEq, Eq, Structural)]
pub enum Failure {
    MissingEndpoint,
    MissingTagList,
    ConnectionFailed,
    UnexpectedEvent,
}

/// What happened outside.
#[derive(Debug, PartialEq, Eq)]
pub enum Event {
    /// The configuration was read: the endpoint and the tag list, each as
    /// far as it is set.
    Configured { endpoint: Option<String>, tag_list: Option<String> },
    /// The session is open.
    Connected,
    /// The session could not be opened.
    ConnectFailed,
    /// The server created the subscription with this id.
    SubscriptionCreated(u32),
    /// The server refused the subscription, with this status.
    SubscriptionRejected(u32),
    /// The server created the monitored items.
    ItemsCreated,
    /// The server refused the monitored items, with this status.
    ItemsRejected(u32),
    /// The session has ended.
    SessionEnded,
}

/// What an `Event` stands for.
pub enum EventView {
    Configured { endpoint: Option<Seq<char>>, tag_list: Option<Seq<char>> },
    Connected,
    ConnectFailed,
    SubscriptionCreated(u32),
    SubscriptionRejected(u32),
    ItemsCreated,
    ItemsRejected(u32),
    SessionEnded,
}

/// What an optional string stands for.
pub open spec fn optional_text(s: Option<String>) -> Option<Seq<char>> {
    match s {
        Some(text) => Some(text@),
        None => None,
    }
}

impl View for Event {
    type V = EventView;

    open spec fn view(&self) -> EventView {
        match self {
            Event::Configured { endpoint, tag_list } => EventView::Configured {
                endpoint: optional_text(*endpoint),
                tag_list: optional_text(*tag_list),
            },
            Event::Connected => EventView::Connected,
            Event::ConnectFailed => EventView::ConnectFailed,
            Event::SubscriptionCreated(id) => EventView::SubscriptionCreated(*id),
            Event::SubscriptionRejected(status) => EventView::SubscriptionRejected(*status),
            Event::ItemsCreated => EventView::ItemsCreated,
            Event::ItemsRejected(status) => EventView::ItemsRejected(*status),
            Event::SessionEnded => EventView::SessionEnded,
        }
    }
}

/// What to do next.
#[derive(Debug, PartialEq, Eq)]
pub enum Action {
    /// Open a session as the plan says.
    Connect(ConnectionPlan),
    /// Create the subscription with these settings.
    CreateSubscription(SubscriptionSettings),
    /// Create one monitored item for each node, on this subscription.
    CreateMonitoredItems { subscription_id: u32, timestamps: Timestamps, nodes: Vec<NodeIdentity> },
    /// Run the session until it ends.
    Run,
    /// Give the run up as failed.
    Abort(Failure),
    /// Leave; the run is over.
    Exit,
}

/// What an `Action` stands for.
pub enum ActionView {
    Connect(ConnectionPlanView),
    CreateSubscription(SubscriptionSettings),
    CreateMonitoredItems {
        subscription_id: u32,
        timestamps: Timestamps,
        nodes: Seq<NodeIdentityView>,
    },
    Run,
    Abort(Failure),
    Exit,
}

impl View for Action {
    type V = ActionView;

    open spec fn view(&self) -> ActionView {
        match self {
            Action::Connect(plan) => ActionView::Connect(plan@),
            Action::CreateSubscription(settings) => ActionView::CreateSubscription(*settings),
            Action::CreateMonitoredItems { subscription_id, timestamps, nodes } => {
                ActionView::CreateMonitoredItems {
                    subscription_id: *subscription_id,
                    timestamps: *timestamps,
                    nodes: nodes@.map_values(|node: NodeIdentity| node@),
                }
            },
            Action::Run => ActionView::Run,
            Action::Abort(failure) => ActionView::Abort(*failure),
            Action::Exit => ActionView::Exit,
        }
    }
}

impl ActionView {
    /// Whether the action asks anything of the network.
    pub open spec fn uses_network(self) -> bool {
        self is Connect || self is CreateSubscription || self is CreateMonitoredItems
            || self is Run
    }
}

/// One step of a run: the lines to print, then the action to take.
#[derive(Debug, PartialEq, Eq)]
pub struct Step {
    pub lines: Vec<String>,
    pub action: Action,
}

/// What a `Step` stands for.
pub struct StepView {
    pub lines: Seq<Seq<char>>,
    pub action: ActionView,
}

impl View for Step {
    type V = StepView;

    open spec fn view(&self) -> StepView {
        StepView { lines: self.lines.deep_view(), action: self.action@ }
    }
}

/// The state of a run: its phase, and the tag list once it is known.
#[derive(Debug)]
pub struct Monitor {
    phase: Phase,
    tag_list: String,
}

/// What a `Monitor` stands for.
pub struct MonitorView {
    pub phase: Phase,
    pub tag_list: Seq<char>,
}

impl View for Monitor {
    type V = MonitorView;

    closed spec fn view(&self) -> MonitorView {
        MonitorView { phase: self.phase, tag_list: self.tag_list@ }
    }
}

/// A run that has not begun.
pub open spec fn start() -> MonitorView {
    MonitorView { phase: Phase::Start, tag_list: Seq::empty() }
}

/// The end of a run: nothing is printed, and the state is final.
pub open spec fn halt(m: MonitorView, action: ActionView) -> (MonitorView, StepView) {
    (
        MonitorView { phase: Phase::Terminated, tag_list: m.tag_list },
        StepView { lines: Seq::empty(), action },
    )
}

/// The end of a run because the subscription could not be set up: the
/// failure is printed, and the run is left without a retry.
pub open spec fn give_up_subscription(m: MonitorView) -> (MonitorView, StepView) {
    (
        MonitorView { phase: Phase::Terminated, tag_list: m.tag_list },
        StepView { lines: seq![failure_line()], action: ActionView::Exit },
    )
}

/// The nodes to monitor for a tag list.
pub open spec fn nodes_of(list: Seq<char>) -> Seq<NodeIdentityView> {
    tag_list(list).map_values(|tag: Seq<char>| tag_node(tag))
}

/// What follows from an event in a state: the next state and the step to
/// take. An event that the phase does not wait for ends the run.
pub open spec fn next(m: MonitorView, e: EventView) -> (MonitorView, StepView) {
    match (m.phase, e) {
        (Phase::Start, EventView::Configured { endpoint: None, tag_list: _ }) => halt(
            m,
            ActionView::Abort(Failure::MissingEndpoint),
        ),
        (Phase::Start, EventView::Configured { endpoint: Some(_), tag_list: None }) => halt(
            m,
            ActionView::Abort(Failure::MissingTagList),
        ),
        (Phase::Start, EventView::Configured { endpoint: Some(url), tag_list: Some(list) }) => (
            MonitorView { phase: Phase::Connecting, tag_list: list },
            StepView { lines: seq![raw_tags_line(list)], action: ActionView::Connect(plan_for(url)) },
        ),
        (Phase::Connecting, EventView::Connected) => (
            MonitorView { phase: Phase::Subscribing, tag_list: m.tag_list },
            StepView {
                lines: Seq::empty(),
                action: ActionView::CreateSubscription(default_settings()),
            },
        ),
        (Phase::Connecting, EventView::ConnectFailed) => halt(
            m,
            ActionView::Abort(Failure::ConnectionFailed),
        ),
        (Phase::Subscribing, EventView::SubscriptionCreated(id)) => (
            MonitorView { phase: Phase::Registering, tag_list: m.tag_list },
            StepView {
                lines: seq![parsed_tags_line(tag_list(m.tag_list))],
                action: ActionView::CreateMonitoredItems {
                    subscription_id: id,
                    timestamps: Timestamps::Both,
                    nodes: nodes_of(m.tag_list),
                },
            },
        ),
        (Phase::Subscribing, EventView::SubscriptionRejected(_)) => give_up_subscription(m),
        (Phase::Registering, EventView::ItemsCreated) => (
            MonitorView { phase: Phase::Running, tag_list: m.tag_list },
            StepView { lines: Seq::empty(), action: ActionView::Run },
        ),
        (Phase::Registering, EventView::ItemsRejected(_)) => give_up_subscription(m),
        (Phase::Running, EventView::SessionEnded) => halt(m, ActionView::Exit),
        _ => halt(m, ActionView::Abort(Failure::UnexpectedEvent)),
    }
}

/// The steps that a sequence of events leads to, one for each event.
pub open spec fn run(m: MonitorView, events: Seq<EventView>) -> Seq<StepView>
    decreases events.len(),
{
    if events.len() == 0 {
        Seq::empty()
    } else {
        let (after, step) = next(m, events.first());
        seq![step] + run(after, events.drop_first())
    }
}

impl Monitor {
    /// A run that has not begun.
    pub fn new() -> (monitor: Monitor)
        ensures
            monitor@ == start(),
    {
        Monitor { phase: Phase::Start, tag_list: String::new() }
    }

    /// How far the run has come.
    pub fn phase(&self) -> (phase: Phase)
        ensures
            phase == self@.phase,
    {
        self.phase
    }

    /// Ends the run with `action`, printing nothing.
    fn halt(&mut self, action: Action) -> (step: Step)
        ensures
            (final(self)@, step@) == halt(old(self)@, action@),
    {
        self.phase = Phase::Terminated;
        let lines: Vec<String> = Vec::new();
        assert(lines.deep_view() =~= Seq::<Seq<char>>::empty());
        Step { lines, action }
    }

    /// Ends the run because the subscription could not be set up.
    fn give_up_subscription(&mut self) -> (step: Step)
        ensures
            (final(self)@, step@) == give_up_subscription(old(self)@),
    {
        self.phase = Phase::Terminated;
        let line = failure_report();
        let mut lines: Vec<String> = Vec::new();
        lines.push(line);
        assert(lines.deep_view() =~= seq![failure_line()]);
        Step { lines, action: Action::Exit }
    }

    /// Moves to `phase` and asks for `action`, printing `lines`.
    fn advance(&mut self, phase: Phase, lines: Vec<String>, action: Action) -> (step: Step)
        ensures
            final(self)@ == (MonitorView { phase, tag_list: old(self)@.tag_list }),
            step@ == (StepView { lines: lines.deep_view(), action: action@ }),
    {
        self.phase = phase;
        Step { lines, action }
    }

    /// Takes one step: given what happened, says what to print and what to
    /// do next, and moves on to the state that follows.
    pub fn step(&mut self, event: Event) -> (step: Step)
        ensures
            (final(self)@, step@) == next(old(self)@, event@),
    {
        match self.phase {
            Phase::Start => match event {
                Event::Configured { endpoint, tag_list } => match endpoint {
                    None => self.halt(Action::Abort(Failure::MissingEndpoint)),
                    Some(url) => match tag_list {
                        None => self.halt(Action::Abort(Failure::MissingTagList)),
                        Some(list) => {
                            let line = raw_tags_report(list.as_str());
                            let mut lines: Vec<String> = Vec::new();
                            lines.push(line);
                            assert(lines.deep_view() =~= seq![raw_tags_line(list@)]);
                            let plan = connection_plan(url.as_str());
                            self.tag_list = list;
                            self.advance(Phase::Connecting, lines, Action::Connect(plan))
                        },
                    },
                },
                _ => self.halt(Action::Abort(Failure::UnexpectedEvent)),
            },
            Phase::Connecting => match event {
                Event::Connected => {
                    let lines: Vec<String> = Vec::new();
                    assert(lines.deep_view() =~= Seq::<Seq<char>>::empty());
                    self.advance(
                        Phase::Subscribing,
                        lines,
                        Action::CreateSubscription(subscription_settings()),
                    )
                },
                Event::ConnectFailed => self.halt(Action::Abort(Failure::ConnectionFailed)),
                _ => self.halt(Action::Abort(Failure::UnexpectedEvent)),
            },
            Phase::Subscribing => match event {
                Event::SubscriptionCreated(id) => {
                    let tags = parse_tags(self.tag_list.as_str());
                    let line = parsed_tags_report(&tags);
                    let mut lines: Vec<String> = Vec::new();
                    lines.push(line);
                    assert(lines.deep_view() =~= seq![parsed_tags_line(tag_list(self.tag_list@))]);
                    let nodes = monitored_nodes(&tags);
                    proof {
                        let views = nodes@.map_values(|node: NodeIdentity| node@);
                        assert forall|i: int| 0 <= i < views.len() implies #[trigger] views[i]
                            == nodes_of(self.tag_list@)[i] by {
                            assert(tags.deep_view()[i] == tags[i]@);
                        }
                        assert(views =~= nodes_of(self.tag_list@));
                    }
                    self.advance(
                        Phase::Registering,
                        lines,
                        Action::CreateMonitoredItems {
                            subscription_id: id,
                            timestamps: Timestamps::Both,
                            nodes,
                        },
                    )
                },
                Event::SubscriptionRejected(_) => self.give_up_subscription(),
                _ => self.halt(Action::Abort(Failure::UnexpectedEvent)),
            },
            Phase::Registering => match event {
                Event::ItemsCreated => {
                    let lines: Vec<String> = Vec::new();
                    assert(lines.deep_view() =~= Seq::<Seq<char>>::empty());
                    self.advance(Phase::Running, lines, Action::Run)
                },
                Event::ItemsRejected(_) => self.give_up_subscription(),
                _ => self.halt(Action::Abort(Failure::UnexpectedEvent)),
            },
            Phase::Running => match event {
                Event::SessionEnded => self.halt(Action::Exit),
                _ => self.halt(Action::Abort(Failure::UnexpectedEvent)),
            },
            Phase::Terminated => self.halt(Action::Abort(Failure::UnexpectedEvent)),
        }
    }
}

/// There is one step for each event.
pub proof fn lemma_run_len(m: MonitorView, events: Seq<EventView>)
    ensures
        run(m, events).len() == events.len(),
    decreases events.len(),
{
    if events.len() > 0 {
        lemma_run_len(next(m, events.first()).0, events.drop_first());
    }
}

/// A run that is over stays over: whatever happens afterwards, nothing is
/// printed and nothing is asked for but to give up.
pub proof fn lemma_terminated_is_final(m: MonitorView, events: Seq<EventView>)
    requires
        m.phase == Phase::Terminated,
    ensures
        run(m, events).len() == events.len(),
        forall|i: int|
            0 <= i < events.len() ==> #[trigger] run(m, events)[i] == (StepView {
                lines: Seq::empty(),
                action: ActionView::Abort(Failure::UnexpectedEvent),
            }),
    decreases events.len(),
{
    if events.len() > 0 {
        let after = next(m, events.first()).0;
        lemma_terminated_is_final(after, events.drop_first());
        assert forall|i: int| 0 <= i < events.len() implies #[trigger] run(m, events)[i] == (
        StepView { lines: Seq::empty(), action: ActionView::Abort(Failure::UnexpectedEvent) }) by {
            if i > 0 {
                assert(run(m, events)[i] == run(after, events.drop_first())[i - 1]);
            }
        }
    }
}

/// Where the endpoint or the tag list is not configured, the run is given
/// up at once, and no step of it, then or later, asks anything of the
/// network.
pub proof fn lemma_missing_setting_stays_off_network(
    endpoint: Option<Seq<char>>,
    tag_list: Option<Seq<char>>,
    later: Seq<EventView>,
)
    requires
        endpoint is None || tag_list is None,
    ensures
        ({
            let steps = run(start(), seq![EventView::Configured { endpoint, tag_list }] + later);
            &&& steps.len() == later.len() + 1
            &&& steps[0].action is Abort
            &&& steps[0].lines.len() == 0
            &&& forall|i: int| 0 <= i < steps.len() ==> !(#[trigger] steps[i]).action.uses_network()
        }),
{
    let first = EventView::Configured { endpoint, tag_list };
    let events = seq![first] + later;
    let after = next(start(), first).0;
    let steps = run(start(), events);
    assert(events.first() == first);
    assert(events.drop_first() == later);
    lemma_terminated_is_final(after, later);
    assert forall|i: int| 0 <= i < steps.len() implies !(#[trigger] steps[i]).action.uses_network() by {
        if i > 0 {
            assert(steps[i] == run(after, later)[i - 1]);
        }
    }
}

/// Where the server refuses the subscription or its monitored items, the
/// failure line is printed, the run is left, and no step of it, then or
/// later, asks to run the session.
pub proof fn lemma_rejected_subscription_never_runs(
    m: MonitorView,
    rejection: EventView,
    later: Seq<EventView>,
)
    requires
        (m.phase == Phase::Subscribing && rejection is SubscriptionRejected) || (m.phase
            == Phase::Registering && rejection is ItemsRejected),
    ensures
        ({
            let steps = run(m, seq![rejection] + later);
            &&& steps.len() == later.len() + 1
            &&& steps[0].lines == seq![failure_line()]
            &&& steps[0].action == ActionView::Exit
            &&& forall|i: int| 0 <= i < steps.len() ==> !((#[trigger] steps[i]).action is Run)
        }),
{
    let events = seq![rejection] + later;
    let after = next(m, rejection).0;
    let steps = run(m, events);
    assert(events.first() == rejection);
    assert(events.drop_first() == later);
    lemma_terminated_is_final(after, later);
    assert forall|i: int| 0 <= i < steps.len() implies !((#[trigger] steps[i]).action is Run) by {
        if i > 0 {
            assert(steps[i] == run(after, later)[i - 1]);
        }
    }
}

/// The session is run in one case only: when the monitored items have been
/// created, and then the run is in its running phase.
pub proof fn lemma_run_follows_created_items(m: MonitorView, e: EventView)
    ensures
        next(m, e).1.action is Run <==> m.phase == Phase::Registering && e is ItemsCreated,
        next(m, e).0.phase == Phase::Running <==> next(m, e).1.action is Run,
{
}

/// The running phase is left in one way only, for the end of the run.
pub proof fn lemma_running_ends_in_termination(m: MonitorView, e: EventView)
    requires
        m.phase == Phase::Running,
    ensures
        next(m, e).0.phase == Phase::Terminated,
        e is SessionEnded ==> next(m, e).1.action == ActionView::Exit,
{
}

} // verus!
