use thermo_report::cycle::{CycleAction, CycleEvent, Fatal, Phase, ReadOutcome};
use thermo_report::link::{
    remote_endpoint, AssocError, ConnectionStatus, LinkAction, LinkEvent, LinkState,
};
use thermo_report::main_loop::{Action, Event, MainLoop, Rejected};

fn every_cycle_event() -> Vec<CycleEvent> {
    vec![
        CycleEvent::Wake,
        CycleEvent::Sampled { raw: 94 << 3 },
        CycleEvent::Polled { now: 1 },
        CycleEvent::Opened { ok: true },
        CycleEvent::Written { ok: true },
        CycleEvent::Flushed { ok: true, now: 1 },
        CycleEvent::Read { outcome: ReadOutcome::Data(4), now: 1 },
        CycleEvent::Forwarded { now: 1 },
        CycleEvent::Disconnected { now: 1 },
    ]
}

fn every_link_event() -> Vec<LinkEvent> {
    vec![
        LinkEvent::Boot,
        LinkEvent::Connection(ConnectionStatus::Connected),
        LinkEvent::Connection(ConnectionStatus::Pending),
        LinkEvent::Connection(ConnectionStatus::Failed(AssocError)),
        LinkEvent::Interface { up: true },
        LinkEvent::Interface { up: false },
    ]
}

fn ready_node() -> MainLoop {
    let mut node: MainLoop = MainLoop::new();
    assert_eq!(node.step(Event::Link(LinkEvent::Boot)), Ok(Action::Link(LinkAction::Associate)));
    assert_eq!(
        node.step(Event::Link(LinkEvent::Connection(ConnectionStatus::Connected))),
        Ok(Action::Link(LinkAction::PollInterface))
    );
    assert_eq!(
        node.step(Event::Link(LinkEvent::Interface { up: true })),
        Ok(Action::Link(LinkAction::Announce))
    );
    node
}

#[test]
fn new_node_has_not_started() {
    let node: MainLoop = MainLoop::new();
    assert_eq!(node.link().state(), LinkState::Disconnected);
    assert_eq!(node.cycle().phase(), Phase::Idle);
    assert_eq!(node.cycle().request().as_str(), "");
    assert!(!node.is_halted());
}

#[test]
fn rejected_credentials_never_reach_the_cycle() {
    let mut node: MainLoop = MainLoop::new();
    assert_eq!(node.step(Event::Link(LinkEvent::Boot)), Ok(Action::Link(LinkAction::Associate)));
    assert_eq!(
        node.step(Event::Link(LinkEvent::Connection(ConnectionStatus::Pending))),
        Ok(Action::Link(LinkAction::QueryConnection))
    );
    assert_eq!(
        node.step(Event::Link(LinkEvent::Connection(ConnectionStatus::Failed(AssocError)))),
        Ok(Action::Link(LinkAction::Halt))
    );
    assert!(node.is_halted());
    let mut round: u32 = 0;
    while round < 3 {
        for event in every_cycle_event() {
            assert_eq!(node.step(Event::Cycle(event)), Err(Rejected::Halted));
        }
        for event in every_link_event() {
            assert_eq!(node.step(Event::Link(event)), Err(Rejected::Halted));
        }
        round += 1;
    }
    assert!(node.is_halted());
    assert!(!node.link().is_ready());
    assert_eq!(node.link().state(), LinkState::Disconnected);
    assert_eq!(node.cycle().phase(), Phase::Idle);
    assert_eq!(node.cycle().request().as_str(), "");
}

#[test]
fn cycle_waits_for_the_link() {
    let mut node: MainLoop = MainLoop::new();
    for event in every_cycle_event() {
        assert_eq!(node.step(Event::Cycle(event)), Err(Rejected::LinkDown));
    }
    node.step(Event::Link(LinkEvent::Boot)).unwrap();
    for event in every_cycle_event() {
        assert_eq!(node.step(Event::Cycle(event)), Err(Rejected::LinkDown));
    }
    node.step(Event::Link(LinkEvent::Connection(ConnectionStatus::Connected))).unwrap();
    for event in every_cycle_event() {
        assert_eq!(node.step(Event::Cycle(event)), Err(Rejected::LinkDown));
    }
    assert_eq!(node.cycle().phase(), Phase::Idle);
    node.step(Event::Link(LinkEvent::Interface { up: true })).unwrap();
    assert_eq!(node.step(Event::Cycle(CycleEvent::Wake)), Ok(Action::Cycle(CycleAction::ReadSensor)));
}

#[test]
fn node_reports_once_the_link_is_ready() {
    let mut node: MainLoop = ready_node();
    assert_eq!(node.step(Event::Cycle(CycleEvent::Wake)), Ok(Action::Cycle(CycleAction::ReadSensor)));
    assert_eq!(
        node.step(Event::Cycle(CycleEvent::Sampled { raw: 0x0190 })),
        Ok(Action::Cycle(CycleAction::Prepare { quarter_degrees: 50 }))
    );
    assert_eq!(
        node.cycle().request().as_bytes(),
        b"GET /temp/1/12.50 HTTP/1.0\r\nHost: 192.168.1.103:8080\r\n\r\n"
    );
    assert_eq!(
        node.step(Event::Cycle(CycleEvent::Polled { now: 10 })),
        Ok(Action::Cycle(CycleAction::Open(remote_endpoint())))
    );
    assert_eq!(
        node.step(Event::Cycle(CycleEvent::Opened { ok: true })),
        Ok(Action::Cycle(CycleAction::Write))
    );
    assert_eq!(
        node.step(Event::Cycle(CycleEvent::Written { ok: true })),
        Ok(Action::Cycle(CycleAction::Flush))
    );
    assert_eq!(
        node.step(Event::Cycle(CycleEvent::Flushed { ok: true, now: 20 })),
        Ok(Action::Cycle(CycleAction::Read))
    );
    assert_eq!(
        node.step(Event::Cycle(CycleEvent::Read { outcome: ReadOutcome::Data(100), now: 30 })),
        Ok(Action::Cycle(CycleAction::Forward { len: 100 }))
    );
    assert_eq!(
        node.step(Event::Cycle(CycleEvent::Forwarded { now: 40 })),
        Ok(Action::Cycle(CycleAction::Read))
    );
    assert_eq!(
        node.step(Event::Cycle(CycleEvent::Read { outcome: ReadOutcome::WouldBlock, now: 20_000_021 })),
        Ok(Action::Cycle(CycleAction::Disconnect { timed_out: true }))
    );
    assert_eq!(
        node.step(Event::Cycle(CycleEvent::Disconnected { now: 20_000_030 })),
        Ok(Action::Cycle(CycleAction::Poll))
    );
    assert_eq!(
        node.step(Event::Cycle(CycleEvent::Polled { now: 25_000_029 })),
        Ok(Action::Cycle(CycleAction::Poll))
    );
    assert_eq!(
        node.step(Event::Cycle(CycleEvent::Polled { now: 25_000_030 })),
        Ok(Action::Cycle(CycleAction::Restart))
    );
    assert_eq!(node.step(Event::Cycle(CycleEvent::Wake)), Ok(Action::Cycle(CycleAction::ReadSensor)));
    assert!(!node.is_halted());
    assert!(node.link().is_ready());
}

#[test]
fn socket_failure_halts_the_node() {
    let mut node: MainLoop = ready_node();
    node.step(Event::Cycle(CycleEvent::Wake)).unwrap();
    node.step(Event::Cycle(CycleEvent::Sampled { raw: 0x0190 })).unwrap();
    node.step(Event::Cycle(CycleEvent::Polled { now: 0 })).unwrap();
    assert_eq!(
        node.step(Event::Cycle(CycleEvent::Opened { ok: false })),
        Ok(Action::Cycle(CycleAction::Halt(Fatal::Open)))
    );
    assert!(node.is_halted());
    for event in every_cycle_event() {
        assert_eq!(node.step(Event::Cycle(event)), Err(Rejected::Halted));
    }
    for event in every_link_event() {
        assert_eq!(node.step(Event::Link(event)), Err(Rejected::Halted));
    }
    assert_eq!(node.cycle().phase(), Phase::Halted);
}

#[test]
fn events_out_of_turn_are_turned_away() {
    let mut node: MainLoop = MainLoop::new();
    assert_eq!(
        node.step(Event::Link(LinkEvent::Interface { up: true })),
        Err(Rejected::Unexpected)
    );
    assert_eq!(node.link().state(), LinkState::Disconnected);
    let mut node: MainLoop = ready_node();
    assert_eq!(node.step(Event::Link(LinkEvent::Boot)), Err(Rejected::Unexpected));
    assert_eq!(
        node.step(Event::Cycle(CycleEvent::Opened { ok: false })),
        Err(Rejected::Unexpected)
    );
    assert!(!node.is_halted());
    assert_eq!(node.cycle().phase(), Phase::Idle);
    assert_eq!(node.link().state(), LinkState::Ready);
}

#[test]
fn sensor_fault_does_not_halt_the_node() {
    let mut node: MainLoop = ready_node();
    let mut round: u32 = 0;
    while round < 100 {
        assert_eq!(
            node.step(Event::Cycle(CycleEvent::Wake)),
            Ok(Action::Cycle(CycleAction::ReadSensor))
        );
        assert_eq!(
            node.step(Event::Cycle(CycleEvent::Sampled { raw: 0x0004 })),
            Ok(Action::Cycle(CycleAction::BackOff { millis: 500 }))
        );
        round += 1;
    }
    assert!(!node.is_halted());
    assert_eq!(node.cycle().request().as_str(), "");
}
