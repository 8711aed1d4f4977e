//! One reporting cycle: read the sensor, format the request, exchange it over
//! the stream socket within a deadline, and let the link settle before the
//! next cycle.
//!
//! The cycle performs no input or output. Whoever drives it performs the
//! action it asks for and hands back what came of it, with a reading of the
//! monotonic clock where time matters; the cycle answers with the next action.
//!
//! A socket that cannot be opened, written or flushed stops the cycle for
//! good. A sensor fault and a receive timeout do not: the first restarts the
//! cycle after a delay, the second ends the receiving phase.

use vstd::prelude::*;
use crate::clock::{Deadline, DRAIN_WINDOW_MICROS, RECEIVE_WINDOW_MICROS};
use crate::link::{remote, remote_endpoint, Endpoint};
use crate::request::{buffer_text, new_buffer, request_text, write_http_request_string};
use crate::sensor::{decode, fault_flagged, reading};

verus! {

/// How long the driver waits after a sensor fault before the next cycle, in
/// milliseconds.
pub const FAULT_DELAY_MILLIS: u32 = 500;

/// How many bytes one read of the socket can give: the size of the driver's
/// read buffer.
pub const READ_CHUNK_BYTES: usize = 512;

/// The steps of the requesting phase, in order.
#[derive(Clone, Copy, Debug, PartialEq, Eq, Structural)]
pub enum RequestStep {
    /// The link is polled once before the socket is touched.
    Settle,
    Open,
    Write,
    Flush,
}

/// The steps of the receiving phase.
#[derive(Clone, Copy, Debug, PartialEq, Eq, Structural)]
pub enum ReceiveStep {
    /// The socket is asked for bytes.
    Read,
    /// Bytes are on their way to the output sink.
    Forward,
}

/// The steps of the draining phase, in order.
#[derive(Clone, Copy, Debug, PartialEq, Eq, Structural)]
pub enum DrainStep {
    /// The socket is being disconnected.
    Close,
    /// The link is polled until the grace window has passed.
    Grace(Deadline),
}

/// Where the cycle stands.
#[derive(Clone, Copy, Debug, PartialEq, Eq, Structural)]
pub enum Phase {
    Idle,
    Sensing,
    Requesting(RequestStep),
    Receiving { step: ReceiveStep, deadline: Deadline },
    Draining(DrainStep),
    /// A socket operation failed. Nothing follows.
    Halted,
}

/// What a read on the socket gave.
#[derive(Clone, Copy, Debug, PartialEq, Eq, Structural)]
pub enum ReadOutcome {
    /// So many bytes arrived in the read buffer. A count that the buffer
    /// cannot hold answers nothing: the cycle does not take it.
    Data(usize),
    /// Nothing is there yet.
    WouldBlock,
    /// The remote side is done.
    Closed,
}

/// The socket operation that failed.
#[derive(Clone, Copy, Debug, PartialEq, Eq, Structural)]
pub enum Fatal {
    Open,
    Write,
    Flush,
}

/// What the driver of the cycle observed. `now` is the monotonic clock in
/// microseconds, read after the action was done.
#[derive(Clone, Copy, Debug, PartialEq, Eq, Structural)]
pub enum CycleEvent {
    /// Time for the next cycle.
    Wake,
    /// The sensor clocked out a word.
    Sampled { raw: u16 },
    /// The link was polled.
    Polled { now: u64 },
    /// The socket was opened, or could not be.
    Opened { ok: bool },
    /// The request was written, or could not be.
    Written { ok: bool },
    /// The request was flushed, or could not be.
    Flushed { ok: bool, now: u64 },
    /// The socket was read.
    Read { outcome: ReadOutcome, now: u64 },
    /// The bytes of the last read went to the output sink.
    Forwarded { now: u64 },
    /// The socket was disconnected.
    Disconnected { now: u64 },
}

/// What the driver of the cycle does next. Each action is answered by one
/// event.
#[derive(Clone, Copy, Debug, PartialEq, Eq, Structural)]
pub enum CycleAction {
    /// Transfer one word from the sensor; answer with `Sampled`.
    ReadSensor,
    /// No sensor is attached: say so, wait, and answer with `Wake`.
    BackOff { millis: u32 },
    /// A sample was taken and the request is in the buffer: show the
    /// temperature, given in quarter degrees, poll the link, and answer with
    /// `Polled`.
    Prepare { quarter_degrees: u16 },
    /// Poll the link; answer with `Polled`.
    Poll,
    /// Open the socket to the endpoint; answer with `Opened`.
    Open(Endpoint),
    /// Write the request buffer to the socket; answer with `Written`.
    Write,
    /// Flush the socket; answer with `Flushed`.
    Flush,
    /// Read from the socket without blocking; answer with `Read`.
    Read,
    /// Hand the first `len` bytes of the read buffer to the output sink as
    /// they are; answer with `Forwarded`.
    Forward { len: usize },
    /// Disconnect the socket, after saying so if the deadline ran out; answer
    /// with `Disconnected`.
    Disconnect { timed_out: bool },
    /// The cycle is over; answer with `Wake`.
    Restart,
    /// Stop for good.
    Halt(Fatal),
}

/// The cycle as contracts see it.
pub struct CycleModel {
    pub phase: Phase,
    /// The text in the request buffer.
    pub request: Seq<char>,
}

/// Where the receiving phase goes at a reading of the clock, and what is asked
/// for: another read while the deadline holds, the disconnect once it has run
/// out.
pub open spec fn read_or_drain(deadline: Deadline, now: u64) -> (Phase, CycleAction) {
    if now > deadline.at() {
        (Phase::Draining(DrainStep::Close), CycleAction::Disconnect { timed_out: true })
    } else {
        (Phase::Receiving { step: ReceiveStep::Read, deadline }, CycleAction::Read)
    }
}

impl CycleModel {
    /// The cycle before anything happened: idle, with an empty request buffer.
    pub open spec fn initial() -> CycleModel {
        CycleModel { phase: Phase::Idle, request: Seq::empty() }
    }

    /// The table of the cycle: for a phase and an event that answers what the
    /// phase asked for, the phase that follows and the action to take; nothing
    /// for any other event.
    pub open spec fn transition(self, event: CycleEvent) -> Option<(Phase, CycleAction)> {
        match (self.phase, event) {
            (Phase::Idle, CycleEvent::Wake) => Some((Phase::Sensing, CycleAction::ReadSensor)),
            (Phase::Sensing, CycleEvent::Sampled { raw }) => Some(
                if fault_flagged(raw) {
                    (Phase::Idle, CycleAction::BackOff { millis: FAULT_DELAY_MILLIS })
                } else {
                    (
                        Phase::Requesting(RequestStep::Settle),
                        CycleAction::Prepare { quarter_degrees: reading(raw) },
                    )
                },
            ),
            (Phase::Requesting(RequestStep::Settle), CycleEvent::Polled { .. }) => Some(
                (Phase::Requesting(RequestStep::Open), CycleAction::Open(remote())),
            ),
            (Phase::Requesting(RequestStep::Open), CycleEvent::Opened { ok }) => Some(
                if ok {
                    (Phase::Requesting(RequestStep::Write), CycleAction::Write)
                } else {
                    (Phase::Halted, CycleAction::Halt(Fatal::Open))
                },
            ),
            (Phase::Requesting(RequestStep::Write), CycleEvent::Written { ok }) => Some(
                if ok {
                    (Phase::Requesting(RequestStep::Flush), CycleAction::Flush)
                } else {
                    (Phase::Halted, CycleAction::Halt(Fatal::Write))
                },
            ),
            (Phase::Requesting(RequestStep::Flush), CycleEvent::Flushed { ok, now }) => Some(
                if ok {
                    (
                        Phase::Receiving {
                            step: ReceiveStep::Read,
                            deadline: Deadline { start: now, span: RECEIVE_WINDOW_MICROS },
                        },
                        CycleAction::Read,
                    )
                } else {
                    (Phase::Halted, CycleAction::Halt(Fatal::Flush))
                },
            ),
            (
                Phase::Receiving { step: ReceiveStep::Read, deadline },
                CycleEvent::Read { outcome, now },
            ) => match outcome {
                ReadOutcome::Data(len) => if len <= READ_CHUNK_BYTES {
                    Some(
                        (
                            Phase::Receiving { step: ReceiveStep::Forward, deadline },
                            CycleAction::Forward { len },
                        ),
                    )
                } else {
                    None
                },
                ReadOutcome::WouldBlock => Some(read_or_drain(deadline, now)),
                ReadOutcome::Closed => Some(
                    (Phase::Draining(DrainStep::Close), CycleAction::Disconnect { timed_out: false }),
                ),
            },
            (
                Phase::Receiving { step: ReceiveStep::Forward, deadline },
                CycleEvent::Forwarded { now },
            ) => Some(read_or_drain(deadline, now)),
            (Phase::Draining(DrainStep::Close), CycleEvent::Disconnected { now }) => Some(
                (
                    Phase::Draining(
                        DrainStep::Grace(Deadline { start: now, span: DRAIN_WINDOW_MICROS }),
                    ),
                    CycleAction::Poll,
                ),
            ),
            (Phase::Draining(DrainStep::Grace(deadline)), CycleEvent::Polled { now }) => Some(
                if now < deadline.at() {
                    (self.phase, CycleAction::Poll)
                } else {
                    (Phase::Idle, CycleAction::Restart)
                },
            ),
            _ => None,
        }
    }

    /// The text in the request buffer after an event: a sample without a fault
    /// overwrites it with the request line for its temperature, and nothing
    /// else touches it.
    pub open spec fn next_request(self, event: CycleEvent) -> Seq<char> {
        match (self.phase, event) {
            (Phase::Sensing, CycleEvent::Sampled { raw }) => if fault_flagged(raw) {
                self.request
            } else {
                request_text(25 * reading(raw) as nat)
            },
            _ => self.request,
        }
    }

    /// True when the event answers what the cycle last asked for.
    pub open spec fn accepts(self, event: CycleEvent) -> bool {
        self.transition(event) is Some
    }

    /// The cycle after any event: an event that it does not accept leaves it
    /// as it was.
    pub open spec fn after(self, event: CycleEvent) -> CycleModel {
        match self.transition(event) {
            Some((phase, _)) => CycleModel { phase, request: self.next_request(event) },
            None => self,
        }
    }

    /// The answer to any event: none to an event that the cycle does not
    /// accept.
    pub open spec fn reply(self, event: CycleEvent) -> Option<CycleAction> {
        match self.transition(event) {
            Some((_, action)) => Some(action),
            None => None,
        }
    }

    /// The cycle after a run of events, each taken in turn.
    pub open spec fn run(self, events: Seq<CycleEvent>) -> CycleModel
        decreases events.len(),
    {
        if events.len() == 0 {
            self
        } else {
            self.run(events.drop_last()).after(events.last())
        }
    }
}

/// The reporting cycle and the request buffer that it fills.
pub struct ReportingCycle {
    phase: Phase,
    request: heapless::String<128>,
}

impl View for ReportingCycle {
    type V = CycleModel;

    closed spec fn view(&self) -> CycleModel {
        CycleModel { phase: self.phase, request: buffer_text(self.request) }
    }
}

impl ReportingCycle {
    /// An idle cycle with an empty request buffer.
    pub fn new() -> (cycle: ReportingCycle)
        ensures
            cycle@ == CycleModel::initial(),
    {
        ReportingCycle { phase: Phase::Idle, request: new_buffer() }
    }

    /// Where the cycle stands.
    pub fn phase(&self) -> (phase: Phase)
        ensures
            phase == self@.phase,
    {
        self.phase
    }

    /// The request buffer, for the driver to write to the socket.
    pub fn request(&self) -> (buffer: &heapless::String<128>)
        ensures
            buffer_text(*buffer) == self@.request,
    {
        &self.request
    }

    /// Takes what the driver observed and answers with what to do next. An
    /// event that does not answer what the cycle last asked for changes
    /// nothing and gets no answer.
    pub fn step(&mut self, event: CycleEvent) -> (action: Option<CycleAction>)
        ensures
            final(self)@ == old(self)@.after(event),
            action == old(self)@.reply(event),
    {
        match (self.phase, event) {
            (Phase::Idle, CycleEvent::Wake) => {
                self.phase = Phase::Sensing;
                Some(CycleAction::ReadSensor)
            },
            (Phase::Sensing, CycleEvent::Sampled { raw }) => {
                match decode(raw) {
                    Err(_) => {
                        self.phase = Phase::Idle;
                        Some(CycleAction::BackOff { millis: FAULT_DELAY_MILLIS })
                    },
                    Ok(sample) => {
                        write_http_request_string(&mut self.request, sample.hundredths());
                        self.phase = Phase::Requesting(RequestStep::Settle);
                        Some(CycleAction::Prepare { quarter_degrees: sample.quarter_degrees() })
                    },
                }
            },
            (Phase::Requesting(RequestStep::Settle), CycleEvent::Polled { .. }) => {
                self.phase = Phase::Requesting(RequestStep::Open);
                Some(CycleAction::Open(remote_endpoint()))
            },
            (Phase::Requesting(RequestStep::Open), CycleEvent::Opened { ok }) => {
                if ok {
                    self.phase = Phase::Requesting(RequestStep::Write);
                    Some(CycleAction::Write)
                } else {
                    self.phase = Phase::Halted;
                    Some(CycleAction::Halt(Fatal::Open))
                }
            },
            (Phase::Requesting(RequestStep::Write), CycleEvent::Written { ok }) => {
                if ok {
                    self.phase = Phase::Requesting(RequestStep::Flush);
                    Some(CycleAction::Flush)
                } else {
                    self.phase = Phase::Halted;
                    Some(CycleAction::Halt(Fatal::Write))
                }
            },
            (Phase::Requesting(RequestStep::Flush), CycleEvent::Flushed { ok, now }) => {
                if ok {
                    self.phase = Phase::Receiving {
                        step: ReceiveStep::Read,
                        deadline: Deadline::after(now, RECEIVE_WINDOW_MICROS),
                    };
                    Some(CycleAction::Read)
                } else {
                    self.phase = Phase::Halted;
                    Some(CycleAction::Halt(Fatal::Flush))
                }
            },
            (
                Phase::Receiving { step: ReceiveStep::Read, deadline },
                CycleEvent::Read { outcome, now },
            ) => {
                match outcome {
                    ReadOutcome::Data(len) => {
                        if len <= READ_CHUNK_BYTES {
                            self.phase = Phase::Receiving { step: ReceiveStep::Forward, deadline };
                            Some(CycleAction::Forward { len })
                        } else {
                            None
                        }
                    },
                    ReadOutcome::WouldBlock => Some(self.read_or_drain(deadline, now)),
                    ReadOutcome::Closed => {
                        self.phase = Phase::Draining(DrainStep::Close);
                        Some(CycleAction::Disconnect { timed_out: false })
                    },
                }
            },
            (
                Phase::Receiving { step: ReceiveStep::Forward, deadline },
                CycleEvent::Forwarded { now },
            ) => Some(self.read_or_drain(deadline, now)),
            (Phase::Draining(DrainStep::Close), CycleEvent::Disconnected { now }) => {
                self.phase = Phase::Draining(
                    DrainStep::Grace(Deadline::after(now, DRAIN_WINDOW_MICROS)),
                );
                Some(CycleAction::Poll)
            },
            (Phase::Draining(DrainStep::Grace(deadline)), CycleEvent::Polled { now }) => {
                if deadline.pending(now) {
                    Some(CycleAction::Poll)
                } else {
                    self.phase = Phase::Idle;
                    Some(CycleAction::Restart)
                }
            },
            _ => None,
        }
    }

    /// Goes on reading while the deadline holds, and starts to drain once it
    /// has run out.
    fn read_or_drain(&mut self, deadline: Deadline, now: u64) -> (action: CycleAction)
        ensures
            (final(self)@.phase, action) == read_or_drain(deadline, now),
            final(self)@.request == old(self)@.request,
    {
        if deadline.exceeded(now) {
            self.phase = Phase::Draining(DrainStep::Close);
            CycleAction::Disconnect { timed_out: true }
        } else {
            self.phase = Phase::Receiving { step: ReceiveStep::Read, deadline };
            CycleAction::Read
        }
    }
}

/// The reads of a socket that has nothing to give, one for each reading of
/// the clock.
pub open spec fn silent_reads(times: Seq<u64>) -> Seq<CycleEvent> {
    Seq::new(
        times.len(),
        |i: int| CycleEvent::Read { outcome: ReadOutcome::WouldBlock, now: times[i] },
    )
}

/// True when some reading of the clock lies past the deadline.
pub open spec fn some_past(times: Seq<u64>, deadline: Deadline) -> bool {
    exists|i: int| 0 <= i < times.len() && #[trigger] times[i] > deadline.at()
}

/// The receiving phase begins when the request is flushed, with the whole
/// receive window ahead of it.
pub proof fn lemma_receive_window_starts_at_flush(m: CycleModel, now: u64)
    requires
        m.phase == Phase::Requesting(RequestStep::Flush),
    ensures
        m.reply(CycleEvent::Flushed { ok: true, now }) == Some(CycleAction::Read),
        m.after(CycleEvent::Flushed { ok: true, now }).phase matches Phase::Receiving {
            step: ReceiveStep::Read,
            deadline,
        } && deadline.at() == now + RECEIVE_WINDOW_MICROS,
{
}

/// Once the clock has passed the deadline, the receiving phase ends with the
/// next event that carries no data: the cycle asks for the disconnect and
/// starts to drain.
pub proof fn lemma_receiving_ends_past_deadline(m: CycleModel, event: CycleEvent)
    requires
        m.accepts(event),
        m.phase matches Phase::Receiving { deadline, .. } && match event {
            CycleEvent::Read { outcome, now } => !(outcome is Data) && now > deadline.at(),
            CycleEvent::Forwarded { now } => now > deadline.at(),
            _ => false,
        },
    ensures
        m.after(event).phase == Phase::Draining(DrainStep::Close),
        m.reply(event) matches Some(CycleAction::Disconnect { .. }),
{
}

/// The cycle asks for another read only while the deadline holds: the clock
/// reading that it was just given does not lie past it.
pub proof fn lemma_read_only_within_deadline(m: CycleModel, event: CycleEvent)
    requires
        m.phase is Receiving,
        m.reply(event) == Some(CycleAction::Read),
    ensures
        m.phase matches Phase::Receiving { deadline, .. } && match event {
            CycleEvent::Read { outcome, now } => outcome is WouldBlock && now <= deadline.at(),
            CycleEvent::Forwarded { now } => now <= deadline.at(),
            _ => false,
        },
        m.after(event).phase matches Phase::Receiving { step: ReceiveStep::Read, deadline: later }
            && m.phase matches Phase::Receiving { deadline, .. } && later == deadline,
{
}

/// Bytes that were read go to the output sink, all of them, and the deadline
/// is looked at right after.
pub proof fn lemma_data_is_forwarded(m: CycleModel, deadline: Deadline, len: usize, now: u64)
    requires
        m.phase == (Phase::Receiving { step: ReceiveStep::Read, deadline }),
        len <= READ_CHUNK_BYTES,
    ensures
        m.reply(CycleEvent::Read { outcome: ReadOutcome::Data(len), now }) == Some(
            CycleAction::Forward { len },
        ),
        m.after(CycleEvent::Read { outcome: ReadOutcome::Data(len), now }).phase == (
        Phase::Receiving { step: ReceiveStep::Forward, deadline }),
{
}

/// A remote side that never sends and never closes cannot hold the cycle: over
/// any run of reads that find nothing, the cycle stays in the receiving phase
/// exactly as long as no reading of the clock lies past the deadline, and
/// drains from then on.
pub proof fn lemma_silent_socket_times_out(m: CycleModel, deadline: Deadline, times: Seq<u64>)
    requires
        m.phase == (Phase::Receiving { step: ReceiveStep::Read, deadline }),
    ensures
        m.run(silent_reads(times)).request == m.request,
        m.run(silent_reads(times)).phase == if some_past(times, deadline) {
            Phase::Draining(DrainStep::Close)
        } else {
            m.phase
        },
    decreases times.len(),
{
    if times.len() > 0 {
        let earlier = times.drop_last();
        assert(silent_reads(times).drop_last() =~= silent_reads(earlier));
        lemma_silent_socket_times_out(m, deadline, earlier);
        if some_past(earlier, deadline) {
            let i = choose|i: int| 0 <= i < earlier.len() && #[trigger] earlier[i] > deadline.at();
            assert(times[i] > deadline.at());
        } else if times.last() > deadline.at() {
            assert(times[times.len() - 1] > deadline.at());
        } else {
            assert forall|i: int| 0 <= i < times.len() implies !(#[trigger] times[i]
                > deadline.at()) by {
                if i < earlier.len() {
                    assert(earlier[i] == times[i]);
                }
            }
        }
    }
}

/// The grace window begins when the socket is disconnected, and it is whole.
pub proof fn lemma_grace_starts_at_disconnect(m: CycleModel, now: u64)
    requires
        m.phase == Phase::Draining(DrainStep::Close),
    ensures
        m.reply(CycleEvent::Disconnected { now }) == Some(CycleAction::Poll),
        m.after(CycleEvent::Disconnected { now }).phase matches Phase::Draining(
            DrainStep::Grace(deadline),
        ) && deadline.at() == now + DRAIN_WINDOW_MICROS,
{
}

/// Within the grace window the cycle only polls the link, and the first poll
/// at or after the deadline ends the cycle.
pub proof fn lemma_grace_step(m: CycleModel, deadline: Deadline, event: CycleEvent)
    requires
        m.phase == Phase::Draining(DrainStep::Grace(deadline)),
    ensures
        m.accepts(event) <==> event is Polled,
        event matches CycleEvent::Polled { now } ==> {
            &&& now < deadline.at() ==> m.after(event) == m && m.reply(event) == Some(
                CycleAction::Poll,
            )
            &&& now >= deadline.at() ==> m.after(event).phase == Phase::Idle && m.reply(event)
                == Some(CycleAction::Restart)
        },
{
}

/// True when the event is no poll of the link at or after the deadline.
pub open spec fn before_deadline(event: CycleEvent, deadline: Deadline) -> bool {
    event matches CycleEvent::Polled { now } ==> now < deadline.at()
}

/// Whatever is handed to a draining cycle, it stays where it is as long as no
/// poll of the link comes at or after the deadline.
pub proof fn lemma_grace_is_served(m: CycleModel, deadline: Deadline, events: Seq<CycleEvent>)
    requires
        m.phase == Phase::Draining(DrainStep::Grace(deadline)),
        forall|i: int| 0 <= i < events.len() ==> before_deadline(#[trigger] events[i], deadline),
    ensures
        m.run(events) == m,
    decreases events.len(),
{
    if events.len() > 0 {
        lemma_grace_is_served(m, deadline, events.drop_last());
        assert(before_deadline(events[events.len() - 1], deadline));
    }
}

/// The cycle never asks to forward more than the read buffer holds, and it
/// asks to forward exactly what the read gave.
pub proof fn lemma_forward_is_in_bounds(m: CycleModel, event: CycleEvent, len: usize)
    requires
        m.reply(event) == Some(CycleAction::Forward { len }),
    ensures
        len <= READ_CHUNK_BYTES,
        event matches CycleEvent::Read { outcome: ReadOutcome::Data(given), .. } && given == len,
{
}

/// A socket is opened only as the answer to the poll that follows a sample.
pub proof fn lemma_open_follows_settle(m: CycleModel, event: CycleEvent)
    requires
        m.reply(event) matches Some(CycleAction::Open(_)),
    ensures
        m.phase == Phase::Requesting(RequestStep::Settle),
        event is Polled,
        m.reply(event) == Some(CycleAction::Open(remote())),
{
}

/// A cycle that has stopped for good takes no event.
pub proof fn lemma_halted_cycle_stays(m: CycleModel, events: Seq<CycleEvent>)
    requires
        m.phase == Phase::Halted,
    ensures
        m.run(events) == m,
        forall|event: CycleEvent| m.reply(event) is None,
    decreases events.len(),
{
    if events.len() > 0 {
        lemma_halted_cycle_stays(m, events.drop_last());
    }
}

/// A cycle starts afresh: what an idle cycle asks for, and what it holds once
/// a sample has come, do not depend on what the request buffer held before.
pub proof fn lemma_cycle_starts_afresh(a: CycleModel, b: CycleModel, raw: u16)
    requires
        a.phase == Phase::Idle,
        b.phase == Phase::Idle,
    ensures
        a.reply(CycleEvent::Wake) == b.reply(CycleEvent::Wake),
        a.after(CycleEvent::Wake).reply(CycleEvent::Sampled { raw }) == b.after(
            CycleEvent::Wake,
        ).reply(CycleEvent::Sampled { raw }),
        !fault_flagged(raw) ==> a.after(CycleEvent::Wake).after(CycleEvent::Sampled { raw })
            == b.after(CycleEvent::Wake).after(CycleEvent::Sampled { raw }),
{
}

/// A sensor fault sends the cycle back to idle without a socket operation:
/// the answer is the delay, and the request buffer is not touched.
pub proof fn lemma_fault_restarts(m: CycleModel, raw: u16)
    requires
        m.phase == Phase::Sensing,
        fault_flagged(raw),
    ensures
        m.reply(CycleEvent::Sampled { raw }) == Some(
            CycleAction::BackOff { millis: FAULT_DELAY_MILLIS },
        ),
        m.after(CycleEvent::Sampled { raw }) == (CycleModel {
            phase: Phase::Idle,
            request: m.request,
        }),
{
}

/// True when the cycle took a disconnect as event `i` of a run and a poll of
/// the link as event `j`, and the clock reading of the poll is at least a
/// grace window later than that of the disconnect.
pub open spec fn grace_pair(m: CycleModel, events: Seq<CycleEvent>, i: int, j: int) -> bool {
    &&& m.run(events.take(i)).accepts(events[i])
    &&& m.run(events.take(j)).accepts(events[j])
    &&& events[i] matches CycleEvent::Disconnected { now: closed }
    &&& events[j] matches CycleEvent::Polled { now }
    &&& now >= closed + DRAIN_WINDOW_MICROS
}

/// True when, among the first `upto` events of a run, the cycle took a
/// disconnect and, later, a poll of the link at least a grace window after it.
pub open spec fn grace_served(m: CycleModel, events: Seq<CycleEvent>, upto: int) -> bool {
    exists|i: int, j: int|
        0 <= i < j < upto && upto <= events.len() && #[trigger] grace_pair(m, events, i, j)
}

/// True when the cycle took event `i` of a run as the disconnect that set the
/// deadline.
spec fn sets_deadline(m: CycleModel, events: Seq<CycleEvent>, i: int, deadline: Deadline) -> bool {
    &&& m.run(events.take(i)).accepts(events[i])
    &&& events[i] matches CycleEvent::Disconnected { now }
    &&& deadline.at() == now + DRAIN_WINDOW_MICROS
}

/// True when, among the first `upto` events, a disconnect set the deadline.
spec fn grace_started(
    m: CycleModel,
    events: Seq<CycleEvent>,
    upto: int,
    deadline: Deadline,
) -> bool {
    exists|i: int|
        0 <= i < upto && upto <= events.len() && #[trigger] sets_deadline(m, events, i, deadline)
}

/// How far a cycle that began to drain has come after `upto` events.
spec fn drain_progress(m: CycleModel, events: Seq<CycleEvent>, upto: int) -> bool {
    match m.run(events.take(upto)).phase {
        Phase::Draining(DrainStep::Close) => true,
        Phase::Draining(DrainStep::Grace(deadline)) => grace_started(m, events, upto, deadline),
        _ => grace_served(m, events, upto),
    }
}

/// A cycle that began to drain is still closing, or a disconnect has set its
/// deadline, or the grace window has been served.
proof fn lemma_drain_progress(m: CycleModel, events: Seq<CycleEvent>, upto: int)
    requires
        m.phase == Phase::Draining(DrainStep::Close),
        0 <= upto <= events.len(),
    ensures
        drain_progress(m, events, upto),
    decreases upto,
{
    if upto > 0 {
        let k = upto - 1;
        lemma_drain_progress(m, events, k);
        assert(events.take(upto).drop_last() =~= events.take(k));
        assert(events.take(upto).last() == events[k]);
        let before = m.run(events.take(k));
        let event = events[k];
        let after = before.after(event);
        assert(after == m.run(events.take(upto)));
        match before.phase {
            Phase::Draining(DrainStep::Close) => {
                if let CycleEvent::Disconnected { now } = event {
                    let deadline = Deadline { start: now, span: DRAIN_WINDOW_MICROS };
                    assert(sets_deadline(m, events, k, deadline));
                }
            },
            Phase::Draining(DrainStep::Grace(deadline)) => {
                let i = choose|i: int|
                    0 <= i < k && k <= events.len() && #[trigger] sets_deadline(
                        m,
                        events,
                        i,
                        deadline,
                    );
                if after.phase == before.phase {
                    assert(sets_deadline(m, events, i, deadline));
                } else {
                    assert(grace_pair(m, events, i, k));
                }
            },
            _ => {
                if before.accepts(event) && after.phase is Draining {
                    assert(after.phase == Phase::Draining(DrainStep::Close));
                } else {
                    let (i, j) = choose|i: int, j: int|
                        0 <= i < j < k && k <= events.len() && #[trigger] grace_pair(
                            m,
                            events,
                            i,
                            j,
                        );
                    assert(grace_pair(m, events, i, j));
                }
            },
        }
    }
}

/// From the disconnect to the next opening of the socket the link is polled
/// for a whole grace window at least: if a cycle that is about to disconnect
/// takes a run of events and answers one of them by asking to open the socket,
/// then before that event it took a disconnect and, later, a poll of the link
/// whose clock reading is at least a grace window after that of the
/// disconnect.
pub proof fn lemma_reopen_needs_grace(m: CycleModel, events: Seq<CycleEvent>, at: int)
    requires
        m.phase == Phase::Draining(DrainStep::Close),
        0 <= at < events.len(),
        m.run(events.take(at)).reply(events[at]) matches Some(CycleAction::Open(_)),
    ensures
        grace_served(m, events, at),
{
    lemma_drain_progress(m, events, at);
    lemma_open_follows_settle(m.run(events.take(at)), events[at]);
}

} // verus!
