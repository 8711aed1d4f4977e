//! The driver of the whole node: the link is brought up once, and then the
//! reporting cycle runs for ever.
//!
//! The loop holds the link and the cycle and passes each event to the one it
//! belongs to. It keeps the two in order: the cycle gets no event before the
//! link is ready, and nothing gets an event once either has stopped for good.

use vstd::prelude::*;
use crate::cycle::{CycleAction, CycleEvent, CycleModel, Phase, ReportingCycle};
use crate::link::{
    AssocError, ConnectionStatus, LinkAction, LinkEvent, LinkModel, LinkState, NetworkLink,
};

verus! {

/// What the driver of the node observed.
#[derive(Clone, Copy, Debug, PartialEq, Eq, Structural)]
pub enum Event {
    Link(LinkEvent),
    Cycle(CycleEvent),
}

/// What the driver of the node does next.
#[derive(Clone, Copy, Debug, PartialEq, Eq, Structural)]
pub enum Action {
    Link(LinkAction),
    Cycle(CycleAction),
}

/// Why an event was turned away. The loop is as it was before.
#[derive(Clone, Copy, Debug, PartialEq, Eq, Structural)]
pub enum Rejected {
    /// The node has stopped for good.
    Halted,
    /// The event is for the cycle, and the link is not ready.
    LinkDown,
    /// The event does not answer what was last asked for.
    Unexpected,
}

/// The loop as contracts see it.
pub struct LoopModel {
    pub link: LinkModel,
    pub cycle: CycleModel,
}

impl LoopModel {
    /// The node before anything happened: the link is disconnected, the cycle
    /// is idle, and the request buffer is empty.
    pub open spec fn initial() -> LoopModel {
        LoopModel { link: LinkModel::initial(), cycle: CycleModel::initial() }
    }

    /// True when the node has stopped for good: the radio could not
    /// associate, or a socket operation failed.
    pub open spec fn halted(self) -> bool {
        self.link.halted || self.cycle.phase == Phase::Halted
    }

    /// What holds of the loop at all times: a halted link is disconnected,
    /// and the cycle has left its idle phase only if the link is ready.
    pub open spec fn wf(self) -> bool {
        &&& self.link.wf()
        &&& self.cycle.phase != Phase::Idle ==> self.link.ready()
    }

    /// The table of the loop: the node that follows an event and the action
    /// to take, or the reason why the event is turned away. A halted node
    /// takes nothing; the cycle takes nothing before the link is ready; the
    /// link and the cycle take what their own tables hold.
    pub open spec fn transition(self, event: Event) -> Result<(LoopModel, Action), Rejected> {
        if self.halted() {
            Err(Rejected::Halted)
        } else {
            match event {
                Event::Link(e) => match self.link.transition(e) {
                    Some((link, action)) => Ok(
                        (LoopModel { link, cycle: self.cycle }, Action::Link(action)),
                    ),
                    None => Err(Rejected::Unexpected),
                },
                Event::Cycle(e) => if !self.link.ready() {
                    Err(Rejected::LinkDown)
                } else {
                    match self.cycle.reply(e) {
                        Some(action) => Ok(
                            (
                                LoopModel { link: self.link, cycle: self.cycle.after(e) },
                                Action::Cycle(action),
                            ),
                        ),
                        None => Err(Rejected::Unexpected),
                    }
                },
            }
        }
    }

    /// The loop after any event: an event that is turned away leaves it as it
    /// was.
    pub open spec fn after(self, event: Event) -> LoopModel {
        match self.transition(event) {
            Ok((node, _)) => node,
            Err(_) => self,
        }
    }

    /// The answer to any event.
    pub open spec fn reply(self, event: Event) -> Result<Action, Rejected> {
        match self.transition(event) {
            Ok((_, action)) => Ok(action),
            Err(reason) => Err(reason),
        }
    }

    /// The loop after a run of events, each taken in turn.
    pub open spec fn run(self, events: Seq<Event>) -> LoopModel
        decreases events.len(),
    {
        if events.len() == 0 {
            self
        } else {
            self.run(events.drop_last()).after(events.last())
        }
    }
}

/// The node: its link and its reporting cycle.
pub struct MainLoop {
    link: NetworkLink,
    cycle: ReportingCycle,
}

impl View for MainLoop {
    type V = LoopModel;

    closed spec fn view(&self) -> LoopModel {
        LoopModel { link: self.link@, cycle: self.cycle@ }
    }
}

impl MainLoop {
    /// A node that has not started.
    pub fn new() -> (node: MainLoop)
        ensures
            node@ == LoopModel::initial(),
            node@.wf(),
    {
        MainLoop { link: NetworkLink::new(), cycle: ReportingCycle::new() }
    }

    /// The link of the node.
    pub fn link(&self) -> (link: &NetworkLink)
        ensures
            link@ == self@.link,
    {
        &self.link
    }

    /// The reporting cycle of the node.
    pub fn cycle(&self) -> (cycle: &ReportingCycle)
        ensures
            cycle@ == self@.cycle,
    {
        &self.cycle
    }

    /// True when the node has stopped for good.
    pub fn is_halted(&self) -> (halted: bool)
        ensures
            halted == self@.halted(),
    {
        if self.link.is_halted() {
            true
        } else {
            match self.cycle.phase() {
                Phase::Halted => true,
                _ => false,
            }
        }
    }

    /// Takes what the driver observed and answers with what to do next, or
    /// with the reason why the event was turned away.
    pub fn step(&mut self, event: Event) -> (answer: Result<Action, Rejected>)
        ensures
            final(self)@ == old(self)@.after(event),
            answer == old(self)@.reply(event),
    {
        if self.is_halted() {
            return Err(Rejected::Halted);
        }
        match event {
            Event::Link(e) => match self.link.step(e) {
                Some(action) => Ok(Action::Link(action)),
                None => Err(Rejected::Unexpected),
            },
            Event::Cycle(e) => {
                if !self.link.is_ready() {
                    Err(Rejected::LinkDown)
                } else {
                    match self.cycle.step(e) {
                        Some(action) => Ok(Action::Cycle(action)),
                        None => Err(Rejected::Unexpected),
                    }
                }
            },
        }
    }
}

/// What holds of a node at the start holds after every event.
pub proof fn lemma_step_keeps_wf(m: LoopModel, event: Event)
    requires
        m.wf(),
    ensures
        m.after(event).wf(),
{
}

/// What holds of a node at the start holds after every run of events.
pub proof fn lemma_run_keeps_wf(m: LoopModel, events: Seq<Event>)
    requires
        m.wf(),
    ensures
        m.run(events).wf(),
    decreases events.len(),
{
    if events.len() > 0 {
        lemma_run_keeps_wf(m, events.drop_last());
        lemma_step_keeps_wf(m.run(events.drop_last()), events.last());
    }
}

/// The cycle is asked for nothing until the link is ready: an answer that
/// holds an action of the cycle comes from a node whose link is ready, and an
/// event for the cycle that comes earlier is turned away and changes nothing.
pub proof fn lemma_cycle_waits_for_link(m: LoopModel, event: Event)
    ensures
        m.reply(event) matches Ok(Action::Cycle(_)) ==> m.link.ready(),
        event is Cycle && !m.link.ready() ==> m.reply(event) is Err && m.after(event) == m,
{
}

/// The link becomes ready in one way only: it was associated and the
/// interface came up. And it becomes associated in one way only: it was
/// associating and the radio said that it is connected.
pub proof fn lemma_link_comes_up_in_order(m: LoopModel, event: Event)
    ensures
        !m.link.ready() && m.after(event).link.ready() ==> m.link.state
            == LinkState::AssociatedNoAddress && event == Event::Link(
            LinkEvent::Interface { up: true },
        ),
        m.link.state != LinkState::AssociatedNoAddress && m.after(event).link.state
            == LinkState::AssociatedNoAddress ==> m.link.state == LinkState::Associating && event
            == Event::Link(LinkEvent::Connection(ConnectionStatus::Connected)),
{
}

/// A node that has stopped stays stopped: every event is turned away, and no
/// run of events changes anything.
pub proof fn lemma_halt_is_final(m: LoopModel, events: Seq<Event>)
    requires
        m.halted(),
    ensures
        m.run(events) == m,
        forall|event: Event| m.reply(event) == Err::<Action, Rejected>(Rejected::Halted),
    decreases events.len(),
{
    if events.len() > 0 {
        lemma_halt_is_final(m, events.drop_last());
    }
}

/// An association that the driver refuses stops the node before the cycle has
/// begun: the answer is to halt, and whatever follows, the link never becomes
/// ready and the cycle never leaves its idle phase.
pub proof fn lemma_refused_association_halts(m: LoopModel, cause: AssocError, events: Seq<Event>)
    requires
        m.wf(),
        !m.halted(),
        m.link.state == LinkState::Associating,
    ensures
        m.reply(Event::Link(LinkEvent::Connection(ConnectionStatus::Failed(cause)))) == Ok::<
            Action,
            Rejected,
        >(Action::Link(LinkAction::Halt)),
        ({
            let stopped = m.after(
                Event::Link(LinkEvent::Connection(ConnectionStatus::Failed(cause))),
            );
            &&& stopped.halted()
            &&& stopped.run(events) == stopped
            &&& !stopped.run(events).link.ready()
            &&& stopped.run(events).cycle.phase == Phase::Idle
        }),
{
    let stopped = m.after(Event::Link(LinkEvent::Connection(ConnectionStatus::Failed(cause))));
    lemma_halt_is_final(stopped, events);
}

/// A socket operation that fails stops the node: the answer is to halt, and no
/// later event is taken.
pub proof fn lemma_socket_failure_halts(m: LoopModel, event: Event, events: Seq<Event>)
    requires
        m.reply(event) matches Ok(Action::Cycle(CycleAction::Halt(_))),
    ensures
        m.after(event).halted(),
        m.after(event).run(events) == m.after(event),
{
    lemma_halt_is_final(m.after(event), events);
}

/// True when the node took event `i` of a run as the radio's word that it is
/// connected.
pub open spec fn took_connection(m: LoopModel, events: Seq<Event>, i: int) -> bool {
    &&& m.run(events.take(i)).reply(events[i]) is Ok
    &&& events[i] == Event::Link(LinkEvent::Connection(ConnectionStatus::Connected))
}

/// True when the node took event `i` of a run as the radio's word that it is
/// connected, and event `j` as the interface coming up.
pub open spec fn took_bring_up(m: LoopModel, events: Seq<Event>, i: int, j: int) -> bool {
    &&& took_connection(m, events, i)
    &&& m.run(events.take(j)).reply(events[j]) is Ok
    &&& events[j] == Event::Link(LinkEvent::Interface { up: true })
}

/// True when, among the first `upto` events of a run, the node took the
/// radio's word that it is connected and, later, the interface coming up.
pub open spec fn brought_up(m: LoopModel, events: Seq<Event>, upto: int) -> bool {
    exists|i: int, j: int|
        0 <= i < j < upto && upto <= events.len() && #[trigger] took_bring_up(m, events, i, j)
}

/// True when, among the first `upto` events of a run, the node took the
/// radio's word that it is connected.
spec fn connected(m: LoopModel, events: Seq<Event>, upto: int) -> bool {
    exists|i: int| 0 <= i < upto && upto <= events.len() && #[trigger] took_connection(m, events, i)
}

/// How far the link of a node that started from nothing has come after `upto`
/// events.
spec fn link_progress(m: LoopModel, events: Seq<Event>, upto: int) -> bool {
    match m.run(events.take(upto)).link.state {
        LinkState::Disconnected => true,
        LinkState::Associating => true,
        LinkState::AssociatedNoAddress => connected(m, events, upto),
        LinkState::Ready => brought_up(m, events, upto),
    }
}

/// A link that started from nothing stands no further than the events that
/// the node took allow.
proof fn lemma_link_progress(m: LoopModel, events: Seq<Event>, upto: int)
    requires
        m.link.state == LinkState::Disconnected,
        0 <= upto <= events.len(),
    ensures
        link_progress(m, events, upto),
    decreases upto,
{
    if upto > 0 {
        let k = upto - 1;
        lemma_link_progress(m, events, k);
        assert(events.take(upto).drop_last() =~= events.take(k));
        assert(events.take(upto).last() == events[k]);
        let before = m.run(events.take(k));
        let after = before.after(events[k]);
        assert(after == m.run(events.take(upto)));
        match before.link.state {
            LinkState::Disconnected => {},
            LinkState::Associating => {
                if after.link.state == LinkState::AssociatedNoAddress {
                    assert(took_connection(m, events, k));
                }
            },
            LinkState::AssociatedNoAddress => {
                let i = choose|i: int|
                    0 <= i < k && k <= events.len() && #[trigger] took_connection(m, events, i);
                if after.link.state == LinkState::Ready {
                    assert(took_bring_up(m, events, i, k));
                } else {
                    assert(took_connection(m, events, i));
                }
            },
            LinkState::Ready => {
                let (i, j) = choose|i: int, j: int|
                    0 <= i < j < k && k <= events.len() && #[trigger] took_bring_up(
                        m,
                        events,
                        i,
                        j,
                    );
                assert(took_bring_up(m, events, i, j));
            },
        }
    }
}

/// Nothing is asked of the sensor or the socket before the link is up: if a
/// node whose link is disconnected takes a run of events and answers one of
/// them with an action of the cycle, then before that event it took the
/// radio's word that it is connected and, later, the interface coming up.
pub proof fn lemma_reporting_needs_bring_up(m: LoopModel, events: Seq<Event>, at: int)
    requires
        m.link.state == LinkState::Disconnected,
        0 <= at < events.len(),
        m.run(events.take(at)).reply(events[at]) matches Ok(Action::Cycle(_)),
    ensures
        brought_up(m, events, at),
{
    lemma_link_progress(m, events, at);
}

} // verus!
