//! The wireless link: association, address lease, and the fixed endpoint that
//! the stream socket connects to.
//!
//! The link never waits by itself. Whoever drives it performs the action it
//! asks for and hands back what came of it; the link answers with the next
//! action. Its state changes in no other way.

use vstd::prelude::*;

verus! {

/// How many bytes each of the two buffers of the stream socket holds.
pub const SOCKET_BUFFER_BYTES: usize = 1536;

/// The option of a lease request that carries the hostname.
pub const LEASE_HOSTNAME_OPTION: u8 = 12;

/// The hostname that goes out with every lease request.
pub const LEASE_HOSTNAME: &'static str = "esp-wifi";

/// Where the link stands on its way to a usable address.
#[derive(Clone, Copy, Debug, PartialEq, Eq, Structural)]
pub enum LinkState {
    Disconnected,
    Associating,
    AssociatedNoAddress,
    Ready,
}

/// The radio driver reported that it cannot associate.
#[derive(Clone, Copy, Debug, PartialEq, Eq, Structural)]
pub struct AssocError;

/// The remote side of the stream socket.
#[derive(Clone, Copy, Debug, PartialEq, Eq, Structural)]
pub struct Endpoint {
    pub a: u8,
    pub b: u8,
    pub c: u8,
    pub d: u8,
    pub port: u16,
}

/// The endpoint that every report goes to: 192.168.1.103, port 8080.
pub open spec fn remote() -> Endpoint {
    Endpoint { a: 192, b: 168, c: 1, d: 103, port: 8080 }
}

/// The endpoint that every report goes to.
pub fn remote_endpoint() -> (endpoint: Endpoint)
    ensures
        endpoint == remote(),
{
    Endpoint { a: 192, b: 168, c: 1, d: 103, port: 8080 }
}

/// What the radio answered when asked whether it is connected.
#[derive(Clone, Copy, Debug, PartialEq, Eq, Structural)]
pub enum ConnectionStatus {
    /// The radio is associated.
    Connected,
    /// Not yet: ask again.
    Pending,
    /// The driver reported an error. The link stops for good: wrong
    /// credentials do not mend themselves.
    Failed(AssocError),
}

/// What the driver of the link observed.
#[derive(Clone, Copy, Debug, PartialEq, Eq, Structural)]
pub enum LinkEvent {
    /// The peripherals are up and the link may start.
    Boot,
    /// The radio was asked whether it is connected.
    Connection(ConnectionStatus),
    /// The stack was polled, and the interface has an address or not.
    Interface { up: bool },
}

/// What the driver of the link does next.
#[derive(Clone, Copy, Debug, PartialEq, Eq, Structural)]
pub enum LinkAction {
    /// Configure the credentials, start the radio, request the connection,
    /// then ask whether the radio is connected.
    Associate,
    /// Ask again whether the radio is connected.
    QueryConnection,
    /// Poll the stack and look whether the interface has an address.
    PollInterface,
    /// Report the address. The link is ready.
    Announce,
    /// Stop for good: the radio cannot associate.
    Halt,
}

/// The link as contracts see it.
pub struct LinkModel {
    pub state: LinkState,
    pub halted: bool,
}

impl LinkModel {
    /// The link before anything happened.
    pub open spec fn initial() -> LinkModel {
        LinkModel { state: LinkState::Disconnected, halted: false }
    }

    /// A halted link is disconnected.
    pub open spec fn wf(self) -> bool {
        self.halted ==> self.state == LinkState::Disconnected
    }

    /// True when the link is ready for the stream socket.
    pub open spec fn ready(self) -> bool {
        self.state == LinkState::Ready
    }

    /// The table of the link: for a state and an event that answers what the
    /// state asked for, the link that follows and the action to take; nothing
    /// for any other event, and nothing at all once the link has halted.
    pub open spec fn transition(self, event: LinkEvent) -> Option<(LinkModel, LinkAction)> {
        if self.halted {
            None
        } else {
            match (self.state, event) {
                (LinkState::Disconnected, LinkEvent::Boot) => Some(
                    (LinkModel { state: LinkState::Associating, halted: false }, LinkAction::Associate),
                ),
                (LinkState::Associating, LinkEvent::Connection(status)) => Some(
                    match status {
                        ConnectionStatus::Connected => (
                            LinkModel { state: LinkState::AssociatedNoAddress, halted: false },
                            LinkAction::PollInterface,
                        ),
                        ConnectionStatus::Pending => (self, LinkAction::QueryConnection),
                        ConnectionStatus::Failed(_) => (
                            LinkModel { state: LinkState::Disconnected, halted: true },
                            LinkAction::Halt,
                        ),
                    },
                ),
                (LinkState::AssociatedNoAddress, LinkEvent::Interface { up }) => Some(
                    if up {
                        (LinkModel { state: LinkState::Ready, halted: false }, LinkAction::Announce)
                    } else {
                        (self, LinkAction::PollInterface)
                    },
                ),
                _ => None,
            }
        }
    }

    /// True when the event answers what the link last asked for.
    pub open spec fn accepts(self, event: LinkEvent) -> bool {
        self.transition(event) is Some
    }

    /// The link after any event: an event that it does not accept leaves it
    /// as it was.
    pub open spec fn after(self, event: LinkEvent) -> LinkModel {
        match self.transition(event) {
            Some((link, _)) => link,
            None => self,
        }
    }

    /// The answer to any event: none to an event that the link does not
    /// accept.
    pub open spec fn reply(self, event: LinkEvent) -> Option<LinkAction> {
        match self.transition(event) {
            Some((_, action)) => Some(action),
            None => None,
        }
    }
}

/// The wireless link of the node.
pub struct NetworkLink {
    state: LinkState,
    halted: bool,
}

impl View for NetworkLink {
    type V = LinkModel;

    closed spec fn view(&self) -> LinkModel {
        LinkModel { state: self.state, halted: self.halted }
    }
}

impl NetworkLink {
    #[verifier::type_invariant]
    spec fn inv(self) -> bool {
        self.halted ==> self.state == LinkState::Disconnected
    }

    /// A link that has not started yet.
    pub fn new() -> (link: NetworkLink)
        ensures
            link@ == LinkModel::initial(),
    {
        NetworkLink { state: LinkState::Disconnected, halted: false }
    }

    /// Where the link stands.
    pub fn state(&self) -> (state: LinkState)
        ensures
            state == self@.state,
    {
        self.state
    }

    /// True when the link is ready for the stream socket.
    pub fn is_ready(&self) -> (ready: bool)
        ensures
            ready == self@.ready(),
    {
        match self.state {
            LinkState::Ready => true,
            _ => false,
        }
    }

    /// True when the link has stopped for good.
    pub fn is_halted(&self) -> (halted: bool)
        ensures
            halted == self@.halted,
    {
        self.halted
    }

    /// Takes what the driver observed and answers with what to do next. An
    /// event that does not answer what the link last asked for changes nothing
    /// and gets no answer.
    pub fn step(&mut self, event: LinkEvent) -> (action: Option<LinkAction>)
        ensures
            final(self)@ == old(self)@.after(event),
            action == old(self)@.reply(event),
            final(self)@.wf(),
    {
        proof {
            use_type_invariant(&*self);
        }
        if self.halted {
            return None;
        }
        match (self.state, event) {
            (LinkState::Disconnected, LinkEvent::Boot) => {
                self.state = LinkState::Associating;
                Some(LinkAction::Associate)
            },
            (LinkState::Associating, LinkEvent::Connection(ConnectionStatus::Connected)) => {
                self.state = LinkState::AssociatedNoAddress;
                Some(LinkAction::PollInterface)
            },
            (LinkState::Associating, LinkEvent::Connection(ConnectionStatus::Pending)) => {
                Some(LinkAction::QueryConnection)
            },
            (LinkState::Associating, LinkEvent::Connection(ConnectionStatus::Failed(_))) => {
                self.state = LinkState::Disconnected;
                self.halted = true;
                Some(LinkAction::Halt)
            },
            (LinkState::AssociatedNoAddress, LinkEvent::Interface { up }) => {
                if up {
                    self.state = LinkState::Ready;
                    Some(LinkAction::Announce)
                } else {
                    Some(LinkAction::PollInterface)
                }
            },
            _ => None,
        }
    }
}

/// A halted link is disconnected, whatever it is handed.
pub proof fn lemma_link_keeps_wf(m: LinkModel, event: LinkEvent)
    requires
        m.wf(),
    ensures
        m.after(event).wf(),
{
}

/// A link that has halted takes no event.
pub proof fn lemma_halted_link_stays(m: LinkModel, event: LinkEvent)
    requires
        m.halted,
    ensures
        m.reply(event) is None,
        m.after(event) == m,
{
}

/// Waiting is no failure: a radio that is not yet connected and an interface
/// that has no address yet leave the link where it is, and the link asks
/// again.
pub proof fn lemma_waiting_changes_nothing(m: LinkModel)
    requires
        !m.halted,
    ensures
        m.state == LinkState::Associating ==> m.after(
            LinkEvent::Connection(ConnectionStatus::Pending),
        ) == m && m.reply(LinkEvent::Connection(ConnectionStatus::Pending)) == Some(
            LinkAction::QueryConnection,
        ),
        m.state == LinkState::AssociatedNoAddress ==> m.after(LinkEvent::Interface { up: false })
            == m && m.reply(LinkEvent::Interface { up: false }) == Some(
            LinkAction::PollInterface,
        ),
{
}

} // verus!
