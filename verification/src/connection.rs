//! The connection manager: the lifecycle of the transport and the steps of
//! the reader and the writer.
//!
//! The manager decides and never waits. Its caller connects, reads and
//! writes, tells the manager what happened, and carries out what the manager
//! answers. The registry and the event queue live inside it, so that one
//! lock around the manager covers each step.

use crate::client::{inbound_meaning, ChatClient, Inbound};
use crate::commands::{wire_text, CommandPayload};
use crate::error::TransportError;
use crate::queue::{Queue, QueueError, QueueItem, QueueModel};
use crate::registry::{entries_map, ids_distinct, CorrelationRegistry};
use crate::response::ServerResponse;
use crate::subscription::Subscription;
use vstd::prelude::*;

verus! {

/// How long a connect attempt may take, in seconds.
pub const CONNECT_TIMEOUT_SECS: u64 = 15;

/// Where the connection stands.
#[derive(Debug, Clone, Copy, PartialEq, Eq)]
pub enum ConnectionState {
    /// Not started, or shut down.
    Disconnected,
    /// A connect attempt is due or under way.
    Connecting,
    /// The reader and the writer run.
    Connected,
    /// The connection ended in good order and is being torn down.
    Closing,
    /// The connection broke and is being torn down.
    Failed,
}

/// How a connect attempt ended.
#[derive(Debug, Clone, PartialEq, Eq)]
pub enum ConnectAttempt {
    /// The handshake went through in time.
    Established,
    /// The handshake failed, with the transport's message.
    Refused(String),
    /// The handshake took longer than `CONNECT_TIMEOUT_SECS`.
    TimedOut,
}

/// What the reader does with one inbound frame.
#[derive(Debug, PartialEq, Eq)]
pub enum ReaderStep<S> {
    /// The frame is the reply to a command: complete `sink` with it.
    Reply { sink: S, response: ServerResponse },
    /// The frame is an event and stands in the event queue.
    Published,
    /// The frame is an event that the queue did not take; it comes back for
    /// the caller to offer again.
    Refused { error: QueueError, response: ServerResponse },
    /// The frame was dropped; reading goes on.
    Skipped(TransportError),
    /// Reading ends here, and with it the connection.
    Fatal(TransportError),
}

/// What the writer does with one command.
#[derive(Debug, PartialEq, Eq)]
pub enum WriterStep<S> {
    /// Send `frame`. `released` is a sink that no reply can reach any more:
    /// the one that an id in flight displaced, or the command's own where
    /// the envelope carries no id.
    Transmit { frame: String, released: Option<S> },
    /// The envelope could not be written; writing ends here, and with it the
    /// connection.
    Fatal { error: TransportError, released: Option<S> },
    /// There is no connection: the command and its sink come back.
    NotConnected { command: CommandPayload, sink: S },
}

/// The manager as a mathematical value.
pub struct ManagerModel<S> {
    pub state: ConnectionState,
    /// The sinks in flight, by correlation id.
    pub registry: Map<Seq<char>, S>,
    pub events: QueueModel<ServerResponse>,
}

/// The error that a connect attempt stands for, if it is one.
pub open spec fn attempt_meaning(attempt: ConnectAttempt) -> Result<(), TransportError> {
    match attempt {
        ConnectAttempt::Established => Ok(()),
        ConnectAttempt::Refused(reason) => Err(TransportError::WebSocket(reason)),
        ConnectAttempt::TimedOut => Err(TransportError::Timeout),
    }
}

/// Whether a loop ended in good order: without an error, or because the
/// connection was closed.
pub open spec fn ended_in_order(outcome: Result<(), TransportError>) -> bool {
    match outcome {
        Ok(_) => true,
        Err(e) => e is ConnectionClosed,
    }
}

/// What the writer does once the envelope is written, or failed to be.
pub open spec fn writer_step<S>(
    written: Result<String, TransportError>,
    released: Option<S>,
) -> WriterStep<S> {
    match written {
        Ok(frame) => WriterStep::Transmit { frame, released },
        Err(error) => WriterStep::Fatal { error, released },
    }
}

impl<S> ManagerModel<S> {
    /// A manager that has not started, with an empty event queue.
    pub open spec fn initial(event_capacity: nat) -> Self {
        ManagerModel {
            state: ConnectionState::Disconnected,
            registry: Map::empty(),
            events: QueueModel::empty(event_capacity),
        }
    }

    /// The id under which a sink waits for this envelope, if one does.
    pub open spec fn awaited(self, envelope: ServerResponse) -> Option<Seq<char>> {
        match envelope.corr_id {
            Some(id) => if self.registry.contains_key(id@) {
                Some(id@)
            } else {
                None
            },
            None => None,
        }
    }

    /// What the reader does with a frame in this state.
    pub open spec fn receive_step(self, msg: Inbound) -> ReaderStep<S> {
        match inbound_meaning(msg) {
            Ok(envelope) => match self.awaited(envelope) {
                Some(id) => ReaderStep::Reply { sink: self.registry[id], response: envelope },
                None => match self.events.enqueue_outcome() {
                    Ok(_) => ReaderStep::Published,
                    Err(error) => ReaderStep::Refused { error, response: envelope },
                },
            },
            Err(e) => if e.is_recoverable() {
                ReaderStep::Skipped(e)
            } else {
                ReaderStep::Fatal(e)
            },
        }
    }

    /// The state after the reader has dealt with a frame.
    pub open spec fn receive(self, msg: Inbound) -> Self {
        match inbound_meaning(msg) {
            Ok(envelope) => match self.awaited(envelope) {
                Some(id) => ManagerModel { registry: self.registry.remove(id), ..self },
                None => ManagerModel { events: self.events.enqueue(envelope), ..self },
            },
            Err(_) => self,
        }
    }

    /// The sink that a command makes unreachable when it is registered.
    pub open spec fn released(self, command: CommandPayload, sink: S) -> Option<S> {
        match command.corr_id {
            Some(id) => if self.registry.contains_key(id@) {
                Some(self.registry[id@])
            } else {
                None
            },
            None => Some(sink),
        }
    }

    /// The state after the writer has dealt with a command.
    pub open spec fn transmit(self, command: CommandPayload, sink: S) -> Self {
        if self.state is Connected {
            match command.corr_id {
                Some(id) => ManagerModel { registry: self.registry.insert(id@, sink), ..self },
                None => self,
            }
        } else {
            self
        }
    }

    /// Whether `step` is the answer of the writer to a command in this
    /// state: the frame of the command while connected, and the command
    /// itself, handed back, while not.
    pub open spec fn transmit_answer(
        self,
        command: CommandPayload,
        sink: S,
        step: WriterStep<S>,
    ) -> bool {
        match step {
            WriterStep::Transmit { frame, released } => {
                &&& self.state is Connected
                &&& frame@ == wire_text(command)
                &&& released == self.released(command, sink)
            },
            WriterStep::Fatal { .. } => false,
            WriterStep::NotConnected { command: returned, sink: kept } => {
                &&& !(self.state is Connected)
                &&& returned == command
                &&& kept == sink
            },
        }
    }

    /// The state after `start`.
    pub open spec fn start(self) -> Self {
        if self.state is Disconnected {
            ManagerModel { state: ConnectionState::Connecting, ..self }
        } else {
            self
        }
    }

    /// The state after a connect attempt has ended.
    pub open spec fn connect(self, attempt: ConnectAttempt) -> Self {
        if self.state is Connecting && attempt is Established {
            ManagerModel { state: ConnectionState::Connected, ..self }
        } else {
            self
        }
    }

    /// The state after the reader or the writer has ended.
    pub open spec fn loop_exit(self, outcome: Result<(), TransportError>) -> Self {
        if self.state is Connected {
            ManagerModel {
                state: if ended_in_order(outcome) {
                    ConnectionState::Closing
                } else {
                    ConnectionState::Failed
                },
                registry: Map::empty(),
                ..self
            }
        } else {
            self
        }
    }

    /// The state after the teardown is done.
    pub open spec fn reconnect(self) -> Self {
        if self.state is Closing || self.state is Failed {
            ManagerModel { state: ConnectionState::Connecting, ..self }
        } else {
            self
        }
    }

    /// The state after `shutdown`.
    pub open spec fn shutdown(self) -> Self {
        ManagerModel {
            state: ConnectionState::Disconnected,
            registry: Map::empty(),
            events: self.events.close(),
        }
    }

    /// The state after a caller's timeout has fired for `id`.
    pub open spec fn expire(self, id: Seq<char>) -> Self {
        ManagerModel { registry: self.registry.remove(id), ..self }
    }

    /// The state after a consumer has called `dequeue`.
    pub open spec fn dequeue(self) -> Self {
        ManagerModel { events: self.events.dequeue(), ..self }
    }
}

/// The connection manager, for reply sinks of type `S`.
pub struct ConnectionManager<S> {
    state: ConnectionState,
    registry: CorrelationRegistry<S>,
    events: Queue<ServerResponse>,
}

impl<S> View for ConnectionManager<S> {
    type V = ManagerModel<S>;

    closed spec fn view(&self) -> ManagerModel<S> {
        ManagerModel { state: self.state, registry: self.registry@, events: self.events@ }
    }
}

impl<S> ConnectionManager<S> {
    /// The invariant of the manager: that of its registry and of its queue.
    pub closed spec fn wf(&self) -> bool {
        &&& self.registry.wf()
        &&& self.events.wf()
    }

    /// The receiving end of the notification stream of the event queue. No
    /// step of the manager gives the queue another.
    pub closed spec fn subscription(&self) -> Subscription<ServerResponse> {
        self.events.subscription()
    }

    /// A manager that has not started, with room for `event_capacity`
    /// events.
    pub fn new(event_capacity: usize) -> (manager: Self)
        ensures
            manager.wf(),
            manager@ == ManagerModel::<S>::initial(event_capacity as nat),
    {
        ConnectionManager {
            state: ConnectionState::Disconnected,
            registry: CorrelationRegistry::new(),
            events: Queue::new(event_capacity),
        }
    }

    /// Where the connection stands.
    pub fn state(&self) -> (state: ConnectionState)
        ensures
            state == self@.state,
    {
        self.state
    }

    /// Starts the manager. The answer says whether a connect attempt is due:
    /// it is where the manager was disconnected.
    pub fn start(&mut self) -> (due: bool)
        requires
            old(self).wf(),
        ensures
            final(self).wf(),
            final(self)@ == old(self)@.start(),
            final(self).subscription() == old(self).subscription(),
            due == (old(self)@.state is Disconnected),
    {
        match self.state {
            ConnectionState::Disconnected => {
                self.state = ConnectionState::Connecting;
                true
            },
            _ => false,
        }
    }

    /// Takes note of how a connect attempt ended. Success connects a manager
    /// that was connecting. A failure comes back as the typed error, and the
    /// manager stays as it is: where it was connecting, the next attempt is
    /// due at once.
    pub fn on_connect(&mut self, attempt: ConnectAttempt) -> (r: Result<(), TransportError>)
        requires
            old(self).wf(),
        ensures
            final(self).wf(),
            final(self)@ == old(self)@.connect(attempt),
            final(self).subscription() == old(self).subscription(),
            r == attempt_meaning(attempt),
    {
        match attempt {
            ConnectAttempt::Established => {
                match self.state {
                    ConnectionState::Connecting => {
                        self.state = ConnectionState::Connected;
                    },
                    _ => {},
                }
                Ok(())
            },
            ConnectAttempt::Refused(reason) => Err(TransportError::WebSocket(reason)),
            ConnectAttempt::TimedOut => Err(TransportError::Timeout),
        }
    }

    /// Takes note that the reader or the writer has ended, with `outcome`.
    /// A connected manager goes to `Closing` or `Failed` and gives up every
    /// sink in flight: they come back for the caller to fail each with
    /// `ConnectionClosed`. In any other state nothing happens.
    pub fn on_loop_exit(&mut self, outcome: Result<(), TransportError>) -> (abandoned: Vec<
        (String, S),
    >)
        requires
            old(self).wf(),
        ensures
            final(self).wf(),
            final(self)@ == old(self)@.loop_exit(outcome),
            final(self).subscription() == old(self).subscription(),
            ids_distinct(abandoned@),
            entries_map(abandoned@) == (if old(self)@.state is Connected {
                old(self)@.registry
            } else {
                Map::<Seq<char>, S>::empty()
            }),
    {
        match self.state {
            ConnectionState::Connected => {
                let in_order = match outcome {
                    Ok(_) => true,
                    Err(TransportError::ConnectionClosed) => true,
                    Err(_) => false,
                };
                self.state = if in_order {
                    ConnectionState::Closing
                } else {
                    ConnectionState::Failed
                };
                self.registry.drain()
            },
            _ => Vec::new(),
        }
    }

    /// Ends the teardown: a manager in `Closing` or `Failed` goes back to
    /// `Connecting`. The answer says whether a connect attempt is due.
    pub fn reconnect(&mut self) -> (due: bool)
        requires
            old(self).wf(),
        ensures
            final(self).wf(),
            final(self)@ == old(self)@.reconnect(),
            final(self).subscription() == old(self).subscription(),
            due == (old(self)@.state is Closing || old(self)@.state is Failed),
    {
        match self.state {
            ConnectionState::Closing => {
                self.state = ConnectionState::Connecting;
                true
            },
            ConnectionState::Failed => {
                self.state = ConnectionState::Connecting;
                true
            },
            _ => false,
        }
    }

    /// Shuts the manager down, whatever its state: the event queue is closed
    /// behind its backlog, and every sink in flight comes back for the
    /// caller to fail with `ConnectionClosed`.
    pub fn shutdown(&mut self) -> (abandoned: Vec<(String, S)>)
        requires
            old(self).wf(),
        ensures
            final(self).wf(),
            final(self)@ == old(self)@.shutdown(),
            final(self).subscription() == old(self).subscription(),
            ids_distinct(abandoned@),
            entries_map(abandoned@) == old(self)@.registry,
    {
        self.state = ConnectionState::Disconnected;
        self.events.close();
        self.registry.drain()
    }

    /// The reader's step. An envelope whose id has a sink waiting takes that
    /// sink out of the registry and goes to it alone; any other envelope
    /// goes to the event queue, or comes back where the queue does not take
    /// it. A frame that did not parse, or is of no kind the client handles,
    /// is skipped. A close, a failed read or the end of the stream is fatal.
    pub fn receive(&mut self, msg: Inbound) -> (step: ReaderStep<S>)
        requires
            old(self).wf(),
        ensures
            final(self).wf(),
            final(self)@ == old(self)@.receive(msg),
            final(self).subscription() == old(self).subscription(),
            step == old(self)@.receive_step(msg),
    {
        match ChatClient::handle_server_message(msg) {
            Ok(envelope) => {
                let waiting = match &envelope.corr_id {
                    Some(id) => self.registry.resolve(id),
                    None => None,
                };
                match waiting {
                    Some(sink) => ReaderStep::Reply { sink, response: envelope },
                    None => {
                        assert(self.registry@ =~= old(self).registry@);
                        match self.events.accepts() {
                            Ok(_) => {
                                let _ = self.events.enqueue(envelope);
                                ReaderStep::Published
                            },
                            Err(error) => ReaderStep::Refused { error, response: envelope },
                        }
                    },
                }
            },
            Err(e) => {
                if e.is_recoverable() {
                    ReaderStep::Skipped(e)
                } else {
                    ReaderStep::Fatal(e)
                }
            },
        }
    }

    /// The writer's step. While connected, the sink is registered under the
    /// command's id before anything is sent, and the envelope is written:
    /// the answer is the frame to send. While not connected, the command and
    /// its sink come back untouched.
    pub fn transmit(&mut self, command: CommandPayload, sink: S) -> (step: WriterStep<S>)
        requires
            old(self).wf(),
        ensures
            final(self).wf(),
            final(self)@ == old(self)@.transmit(command, sink),
            final(self).subscription() == old(self).subscription(),
            old(self)@.transmit_answer(command, sink, step),
    {
        match self.state {
            ConnectionState::Connected => {
                let released = match &command.corr_id {
                    Some(id) => self.registry.replace(id.clone(), sink),
                    None => Some(sink),
                };
                Self::after_writing(command.to_wire(), released)
            },
            _ => WriterStep::NotConnected { command, sink },
        }
    }

    /// What the writer does once the envelope is written, or failed to be:
    /// it sends the frame, or ends with the error.
    pub fn after_writing(written: Result<String, TransportError>, released: Option<S>) -> (step:
        WriterStep<S>)
        ensures
            step == writer_step(written, released),
    {
        match written {
            Ok(frame) => WriterStep::Transmit { frame, released },
            Err(error) => WriterStep::Fatal { error, released },
        }
    }

    /// Gives up the sink that waits under `id`, for a caller whose timeout
    /// fired, and says whether it was still there: a reply may have come
    /// first.
    pub fn expire(&mut self, id: &String) -> (was_pending: bool)
        requires
            old(self).wf(),
        ensures
            final(self).wf(),
            final(self)@ == old(self)@.expire(id@),
            final(self).subscription() == old(self).subscription(),
            was_pending == old(self)@.registry.contains_key(id@),
    {
        self.registry.expire(id)
    }

    /// Whether a sink waits under `id`.
    pub fn is_pending(&self, id: &String) -> (pending: bool)
        requires
            self.wf(),
        ensures
            pending == self@.registry.contains_key(id@),
    {
        self.registry.contains(id)
    }

    /// Takes the oldest event out of the queue. `QueueEmpty` is no fault:
    /// the consumer polls again, or waits for a notification.
    pub fn dequeue(&mut self) -> (r: Result<ServerResponse, QueueError>)
        requires
            old(self).wf(),
        ensures
            final(self).wf(),
            final(self)@ == old(self)@.dequeue(),
            final(self).subscription() == old(self).subscription(),
            r == old(self)@.events.dequeue_outcome(),
    {
        self.events.dequeue()
    }

    /// The handle of the event queue's notification stream. All subscribers
    /// share the one stream that the manager was made with.
    pub fn subscribe(&self) -> (handle: Subscription<ServerResponse>)
        ensures
            handle == self.subscription(),
    {
        self.events.subscribe()
    }
}

/// A reply resolves the command that was sent under its id, and no other:
/// a frame that carries the id takes the sink that waits under it and goes
/// to that sink; any other frame, whatever it carries, leaves that sink
/// waiting.
pub proof fn lemma_reply_resolves_its_own_id<S>(m: ManagerModel<S>, id: Seq<char>, msg: Inbound)
    requires
        m.registry.contains_key(id),
    ensures
        match inbound_meaning(msg) {
            Ok(ServerResponse { corr_id: Some(carried), resp }) if carried@ == id => {
                &&& m.receive_step(msg) == (ReaderStep::Reply {
                    sink: m.registry[id],
                    response: ServerResponse { corr_id: Some(carried), resp },
                })
                &&& !m.receive(msg).registry.contains_key(id)
            },
            _ => {
                &&& m.receive(msg).registry.contains_key(id)
                &&& m.receive(msg).registry[id] == m.registry[id]
                &&& m.receive_step(msg) matches ReaderStep::Reply { sink, response } ==> {
                    &&& response.corr_id matches Some(other)
                    &&& other@ != id
                    &&& sink == m.registry[other@]
                }
            },
        },
{
}

/// Two commands in flight under different ids are resolved each by its own
/// reply, in whichever order the replies arrive, and the manager ends up the
/// same either way.
pub proof fn lemma_replies_in_any_order<S>(m: ManagerModel<S>, x: ServerResponse, y: ServerResponse)
    requires
        x.corr_id matches Some(a) && m.registry.contains_key(a@),
        y.corr_id matches Some(b) && m.registry.contains_key(b@),
        x.corr_id->0@ != y.corr_id->0@,
    ensures
        m.receive_step(Inbound::Envelope(y)) == (ReaderStep::Reply {
            sink: m.registry[y.corr_id->0@],
            response: y,
        }),
        m.receive(Inbound::Envelope(y)).receive_step(Inbound::Envelope(x)) == (ReaderStep::Reply {
            sink: m.registry[x.corr_id->0@],
            response: x,
        }),
        m.receive_step(Inbound::Envelope(x)) == (ReaderStep::Reply {
            sink: m.registry[x.corr_id->0@],
            response: x,
        }),
        m.receive(Inbound::Envelope(x)).receive_step(Inbound::Envelope(y)) == (ReaderStep::Reply {
            sink: m.registry[y.corr_id->0@],
            response: y,
        }),
        m.receive(Inbound::Envelope(y)).receive(Inbound::Envelope(x)) == m.receive(
            Inbound::Envelope(x),
        ).receive(Inbound::Envelope(y)),
{
    let a = x.corr_id->0@;
    let b = y.corr_id->0@;
    assert(m.registry.remove(a).remove(b) =~= m.registry.remove(b).remove(a));
}

/// An envelope that no sink waits for is not dropped: it goes to the back of
/// the event queue where the queue takes it, and comes back to the caller
/// with the queue's reason where it does not. The registry stays as it is.
pub proof fn lemma_unmatched_envelope_is_kept<S>(m: ManagerModel<S>, envelope: ServerResponse)
    requires
        m.awaited(envelope) is None,
    ensures
        m.receive(Inbound::Envelope(envelope)).registry == m.registry,
        m.receive(Inbound::Envelope(envelope)).state == m.state,
        m.events.enqueue_outcome() is Ok ==> {
            &&& m.receive_step(Inbound::Envelope(envelope)) == ReaderStep::<S>::Published
            &&& m.receive(Inbound::Envelope(envelope)).events.items == m.events.items.push(
                QueueItem::Item(envelope),
            )
        },
        m.events.enqueue_outcome() matches Err(error) ==> {
            &&& m.receive_step(Inbound::Envelope(envelope)) == (ReaderStep::<S>::Refused {
                error,
                response: envelope,
            })
            &&& m.receive(Inbound::Envelope(envelope)) == m
        },
{
}

/// A frame that does not parse is skipped and changes nothing: the reader
/// goes on, and deals with the next frame as if the bad one had not come.
pub proof fn lemma_malformed_frame_is_skipped<S>(m: ManagerModel<S>, reason: String, next: Inbound)
    ensures
        m.receive_step(Inbound::Malformed(reason)) == ReaderStep::<S>::Skipped(
            TransportError::InvalidFormat(reason),
        ),
        m.receive(Inbound::Malformed(reason)) == m,
        m.receive(Inbound::Malformed(reason)).receive_step(next) == m.receive_step(next),
        m.receive(Inbound::Malformed(reason)).receive(next) == m.receive(next),
{
}

/// A connection that ends, however it ends, takes a connected manager back
/// to `Connecting`, from where the next attempt that goes through connects
/// it again and every attempt that fails leaves it connecting. On the way
/// every sink in flight is given up, and the event queue is not touched.
pub proof fn lemma_lost_connection_is_made_again<S>(
    m: ManagerModel<S>,
    outcome: Result<(), TransportError>,
    attempt: ConnectAttempt,
)
    requires
        m.state is Connected,
    ensures
        m.loop_exit(outcome).state is Closing || m.loop_exit(outcome).state is Failed,
        m.loop_exit(outcome).registry == Map::<Seq<char>, S>::empty(),
        m.loop_exit(outcome).events == m.events,
        m.loop_exit(outcome).reconnect().state is Connecting,
        m.loop_exit(outcome).reconnect().events == m.events,
        attempt is Established ==> m.loop_exit(outcome).reconnect().connect(attempt).state
            is Connected,
        !(attempt is Established) ==> m.loop_exit(outcome).reconnect().connect(attempt).state
            is Connecting,
{
}

/// A command that reaches the writer while there is no connection is not
/// lost: the only answer is to hand it back with its sink, and the manager
/// stays as it is.
pub proof fn lemma_outage_hands_commands_back<S>(
    m: ManagerModel<S>,
    command: CommandPayload,
    sink: S,
    step: WriterStep<S>,
)
    requires
        !(m.state is Connected),
        m.transmit_answer(command, sink, step),
    ensures
        step == (WriterStep::NotConnected { command, sink }),
        m.transmit(command, sink) == m,
{
}

} // verus!
