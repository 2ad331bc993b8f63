use opcua_tag_monitor::monitor::{Action, Event, Failure, Monitor, Phase, Step};
use opcua_tag_monitor::node::NodeIdentity;
use opcua_tag_monitor::session::{connection_plan, subscription_settings, Timestamps};

fn configured(endpoint: Option<&str>, tag_list: Option<&str>) -> Event {
    Event::Configured {
        endpoint: endpoint.map(|s| s.to_string()),
        tag_list: tag_list.map(|s| s.to_string()),
    }
}

fn uses_network(action: &Action) -> bool {
    matches!(
        action,
        Action::Connect(_)
            | Action::CreateSubscription(_)
            | Action::CreateMonitoredItems { .. }
            | Action::Run
    )
}

fn every_event() -> Vec<Event> {
    vec![
        configured(Some("opc.tcp://h:1/"), Some("A")),
        Event::Connected,
        Event::ConnectFailed,
        Event::SubscriptionCreated(1),
        Event::SubscriptionRejected(0x8001_0000),
        Event::ItemsCreated,
        Event::ItemsRejected(0x8001_0000),
        Event::SessionEnded,
    ]
}

fn subscribing() -> Monitor {
    let mut monitor = Monitor::new();
    monitor.step(configured(Some("opc.tcp://h:1/"), Some("A, B ,C")));
    monitor.step(Event::Connected);
    assert_eq!(monitor.phase(), Phase::Subscribing);
    monitor
}

#[test]
fn run_goes_from_configuration_to_the_end_of_the_session() {
    let mut monitor = Monitor::new();
    assert_eq!(monitor.phase(), Phase::Start);

    let step = monitor.step(configured(Some("opc.tcp://h:1/"), Some("A, B ,C")));
    assert_eq!(
        step,
        Step {
            lines: vec!["OPC UA tags: \"A, B ,C\"".to_string()],
            action: Action::Connect(connection_plan("opc.tcp://h:1/")),
        }
    );
    assert_eq!(monitor.phase(), Phase::Connecting);

    let step = monitor.step(Event::Connected);
    assert_eq!(
        step,
        Step { lines: Vec::new(), action: Action::CreateSubscription(subscription_settings()) }
    );
    assert_eq!(monitor.phase(), Phase::Subscribing);

    let step = monitor.step(Event::SubscriptionCreated(17));
    assert_eq!(
        step,
        Step {
            lines: vec!["Monitored tags: [\"A\", \"B\", \"C\"]".to_string()],
            action: Action::CreateMonitoredItems {
                subscription_id: 17,
                timestamps: Timestamps::Both,
                nodes: vec![
                    NodeIdentity { namespace: 2, name: "A".to_string() },
                    NodeIdentity { namespace: 2, name: "B".to_string() },
                    NodeIdentity { namespace: 2, name: "C".to_string() },
                ],
            },
        }
    );
    assert_eq!(monitor.phase(), Phase::Registering);

    let step = monitor.step(Event::ItemsCreated);
    assert_eq!(step, Step { lines: Vec::new(), action: Action::Run });
    assert_eq!(monitor.phase(), Phase::Running);

    let step = monitor.step(Event::SessionEnded);
    assert_eq!(step, Step { lines: Vec::new(), action: Action::Exit });
    assert_eq!(monitor.phase(), Phase::Terminated);
}

#[test]
fn missing_endpoint_stops_before_any_connection() {
    for tag_list in [None, Some("A,B")] {
        let mut monitor = Monitor::new();
        let step = monitor.step(configured(None, tag_list));
        assert_eq!(step, Step { lines: Vec::new(), action: Action::Abort(Failure::MissingEndpoint) });
        assert_eq!(monitor.phase(), Phase::Terminated);
        for event in every_event() {
            let step = monitor.step(event);
            assert!(!uses_network(&step.action));
            assert_eq!(monitor.phase(), Phase::Terminated);
        }
    }
}

#[test]
fn missing_tag_list_stops_before_any_connection() {
    let mut monitor = Monitor::new();
    let step = monitor.step(configured(Some("opc.tcp://h:1/"), None));
    assert_eq!(step, Step { lines: Vec::new(), action: Action::Abort(Failure::MissingTagList) });
    assert_eq!(monitor.phase(), Phase::Terminated);
    for event in every_event() {
        let step = monitor.step(event);
        assert!(!uses_network(&step.action));
    }
}

#[test]
fn failed_connection_gives_up() {
    let mut monitor = Monitor::new();
    monitor.step(configured(Some("opc.tcp://h:1/"), Some("A")));
    let step = monitor.step(Event::ConnectFailed);
    assert_eq!(step, Step { lines: Vec::new(), action: Action::Abort(Failure::ConnectionFailed) });
    assert_eq!(monitor.phase(), Phase::Terminated);
}

#[test]
fn rejected_subscription_prints_the_failure_and_never_runs() {
    let mut monitor = subscribing();
    let step = monitor.step(Event::SubscriptionRejected(0x8001_0000));
    assert_eq!(
        step,
        Step { lines: vec!["Error creating subscription".to_string()], action: Action::Exit }
    );
    assert_eq!(monitor.phase(), Phase::Terminated);
    for event in every_event() {
        let step = monitor.step(event);
        assert_ne!(step.action, Action::Run);
        assert!(step.lines.is_empty());
    }
}

#[test]
fn rejected_items_print_the_failure_and_never_run() {
    let mut monitor = subscribing();
    let step = monitor.step(Event::SubscriptionCreated(3));
    assert_eq!(step.lines, vec!["Monitored tags: [\"A\", \"B\", \"C\"]".to_string()]);
    let step = monitor.step(Event::ItemsRejected(0x8034_0000));
    assert_eq!(
        step,
        Step { lines: vec!["Error creating subscription".to_string()], action: Action::Exit }
    );
    assert_eq!(monitor.phase(), Phase::Terminated);
    for event in every_event() {
        assert_ne!(monitor.step(event).action, Action::Run);
    }
}

#[test]
fn event_out_of_turn_ends_the_run() {
    let mut monitor = Monitor::new();
    let step = monitor.step(Event::ItemsCreated);
    assert_eq!(step, Step { lines: Vec::new(), action: Action::Abort(Failure::UnexpectedEvent) });
    assert_eq!(monitor.phase(), Phase::Terminated);

    let mut monitor = subscribing();
    let step = monitor.step(Event::SessionEnded);
    assert_eq!(step, Step { lines: Vec::new(), action: Action::Abort(Failure::UnexpectedEvent) });
    assert_eq!(monitor.phase(), Phase::Terminated);
}

#[test]
fn empty_tag_list_monitors_one_empty_tag() {
    let mut monitor = Monitor::new();
    let step = monitor.step(configured(Some("opc.tcp://h:1/"), Some("")));
    assert_eq!(step.lines, vec!["OPC UA tags: \"\"".to_string()]);
    monitor.step(Event::Connected);
    let step = monitor.step(Event::SubscriptionCreated(1));
    assert_eq!(step.lines, vec!["Monitored tags: [\"\"]".to_string()]);
    assert_eq!(
        step.action,
        Action::CreateMonitoredItems {
            subscription_id: 1,
            timestamps: Timestamps::Both,
            nodes: vec![NodeIdentity { namespace: 2, name: String::new() }],
        }
    );
}
