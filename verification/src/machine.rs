//! The tunnel state machine engine.
//!
//! The engine owns exactly one active state at a time, a FIFO command queue
//! and the shared context.  Each [`TunnelStateMachine::poll`] drains delivered
//! commands and tunnel events until the active state either replaces itself
//! (an externally visible transition) or runs out of pending events (the
//! engine suspends).  The whole step relation is captured by the spec
//! function [`spec_run`], and `poll` is proved to follow it exactly.

use vstd::prelude::*;

use crate::net::{AccountToken, TunnelEndpoint, TunnelMetadata, TunnelOptions};

verus! {

/// Representation of external commands for the tunnel state machine.
#[derive(Debug, PartialEq)]
pub enum TunnelCommand {
    /// Open tunnel connection.
    Connect(TunnelParameters),
    /// Close tunnel connection.
    Disconnect,
}

/// Information necessary to open a tunnel.
#[derive(Debug, PartialEq)]
pub struct TunnelParameters {
    pub endpoint: TunnelEndpoint,
    pub options: TunnelOptions,
    pub log_dir: Option<String>,
    pub resource_dir: String,
    pub account_token: AccountToken,
}

/// Event resulting from a transition to a new tunnel state.
#[derive(Clone, Copy, Debug, PartialEq, Eq)]
pub enum TunnelStateTransition {
    Disconnected,
    Connecting(TunnelEndpoint),
    Connected(TunnelEndpoint, TunnelMetadata),
    Disconnecting,
}

/// A wake-up delivered by the collaborators the active state listens to:
/// the outcome of the in-flight connection attempt, the loss of an
/// established tunnel, or the end of a teardown.
#[derive(Clone, Copy, Debug, PartialEq, Eq)]
pub enum TunnelEvent {
    /// The tunnel device came up with the reported interface configuration.
    Up(TunnelMetadata),
    /// The connection attempt failed, the tunnel was lost, or a teardown
    /// finished, depending on the phase that observes it.
    Down,
}

/// Error a state entry reports while degrading to its fallback state.
#[derive(Clone, Copy, Debug, PartialEq, Eq)]
pub enum Error {
    /// The parameters handed to a connection attempt name no usable endpoint.
    InvalidParameters,
}

/// What one call of [`TunnelStateMachine::poll`] reports: an emitted
/// transition, a suspension until new events arrive, or the end of the
/// sequence once the engine has halted.
#[derive(Clone, Copy, Debug, PartialEq, Eq)]
pub enum MachinePoll {
    /// The active state was replaced; the descriptor of the new state.
    Transition(TunnelStateTransition),
    /// No pending event warranted a change; the engine suspends.
    Pending,
    /// The engine holds no state any more and produces nothing further.
    Finished,
}

/// The engine's end of the unbounded command channel.  Delivered commands
/// wait here in FIFO order; closing the sender side is a normal
/// "no more commands" condition, not an error.
pub struct CommandQueue {
    queue: Vec<TunnelCommand>,
    closed: bool,
}

impl CommandQueue {
    /// The commands delivered and not yet consumed, oldest first.
    pub closed spec fn spec_commands(&self) -> Seq<TunnelCommand> {
        self.queue@
    }

    /// Whether the sender side has been closed.
    pub closed spec fn spec_is_closed(&self) -> bool {
        self.closed
    }

    pub fn new() -> (r: CommandQueue)
        ensures
            r.spec_commands() == Seq::<TunnelCommand>::empty(),
            !r.spec_is_closed(),
    {
        CommandQueue { queue: Vec::new(), closed: false }
    }

    /// Unbounded capacity: a send on an open channel is always accepted;
    /// on a closed channel the command is handed back.
    pub fn send(&mut self, command: TunnelCommand) -> (r: Result<(), TunnelCommand>)
        ensures
            !old(self).spec_is_closed() ==> {
                &&& r is Ok
                &&& final(self).spec_commands() == old(self).spec_commands().push(command)
                &&& !final(self).spec_is_closed()
            },
            old(self).spec_is_closed() ==> {
                &&& r == Result::<(), TunnelCommand>::Err(command)
                &&& *final(self) == *old(self)
            },
    {
        if self.closed {
            Err(command)
        } else {
            self.queue.push(command);
            Ok(())
        }
    }

    /// Closes the sender side; already delivered commands stay consumable.
    pub fn close(&mut self)
        ensures
            final(self).spec_is_closed(),
            final(self).spec_commands() == old(self).spec_commands(),
    {
        self.closed = true;
    }

    /// Takes the oldest pending command, if any.
    fn pop_front(&mut self) -> (r: Option<TunnelCommand>)
        ensures
            old(self).spec_commands().len() == 0 ==> r is None && *final(self) == *old(self),
            old(self).spec_commands().len() > 0 ==> {
                &&& r == Some(old(self).spec_commands()[0])
                &&& final(self).spec_commands() == old(self).spec_commands().subrange(
                    1,
                    old(self).spec_commands().len() as int,
                )
            },
            final(self).spec_is_closed() == old(self).spec_is_closed(),
    {
        if self.queue.len() > 0 {
            let command = self.queue.remove(0);
            proof {
                assert(self.queue@ =~= old(self).queue@.subrange(1, old(self).queue@.len() as int));
            }
            Some(command)
        } else {
            None
        }
    }
}

/// Values that are common to all tunnel states.  The engine lends this
/// context to exactly one state at a time; beside the durable cross-state
/// resources it queues the wake-ups of the state-private event sources,
/// delivered by the surrounding runtime.
pub struct SharedTunnelStateValues {
    tunnel_events: Vec<TunnelEvent>,
}

impl SharedTunnelStateValues {
    /// The tunnel events delivered and not yet consumed, oldest first.
    pub closed spec fn spec_tunnel_events(&self) -> Seq<TunnelEvent> {
        self.tunnel_events@
    }

    pub fn new() -> (r: SharedTunnelStateValues)
        ensures
            r.spec_tunnel_events() == Seq::<TunnelEvent>::empty(),
    {
        SharedTunnelStateValues { tunnel_events: Vec::new() }
    }

    /// Queues a wake-up from a state-private event source.
    pub fn notify(&mut self, event: TunnelEvent)
        ensures
            final(self).spec_tunnel_events() == old(self).spec_tunnel_events().push(event),
    {
        self.tunnel_events.push(event);
    }

    /// Takes the oldest pending tunnel event, if any.
    fn pop_event(&mut self) -> (r: Option<TunnelEvent>)
        ensures
            old(self).spec_tunnel_events().len() == 0 ==> r is None && *final(self) == *old(self),
            old(self).spec_tunnel_events().len() > 0 ==> {
                &&& r == Some(old(self).spec_tunnel_events()[0])
                &&& final(self).spec_tunnel_events() == old(self).spec_tunnel_events().subrange(
                    1,
                    old(self).spec_tunnel_events().len() as int,
                )
            },
    {
        if self.tunnel_events.len() > 0 {
            let event = self.tunnel_events.remove(0);
            proof {
                assert(self.tunnel_events@ =~= old(self).tunnel_events@.subrange(
                    1,
                    old(self).tunnel_events@.len() as int,
                ));
            }
            Some(event)
        } else {
            None
        }
    }
}

/// The tunnel is down and the engine waits for a command.
#[derive(Debug, PartialEq)]
pub struct DisconnectedState;

/// A connection attempt towards `params.endpoint` is in flight.
#[derive(Debug, PartialEq)]
pub struct ConnectingState {
    pub params: TunnelParameters,
}

/// The tunnel is up with the reported interface configuration.
#[derive(Debug, PartialEq)]
pub struct ConnectedState {
    pub metadata: TunnelMetadata,
    pub params: TunnelParameters,
}

/// What the engine does once the tunnel is fully torn down.
#[derive(Debug, PartialEq)]
pub enum AfterDisconnect {
    Nothing,
    Reconnect(TunnelParameters),
}

/// The tunnel is being torn down.
#[derive(Debug, PartialEq)]
pub struct DisconnectingState {
    pub after_disconnect: AfterDisconnect,
}

/// Valid states of the tunnel: exactly one concrete state exists at any
/// instant, and ownership moves through every `handle_event` call.
#[derive(Debug, PartialEq)]
pub enum TunnelStateWrapper {
    Disconnected(DisconnectedState),
    Connecting(ConnectingState),
    Connected(ConnectedState),
    Disconnecting(DisconnectingState),
}

/// Result of entering a state: the state itself when successful, or an
/// error (for reporting) paired with the fallback state to stand instead.
pub type StateEntryResult = Result<TunnelStateWrapper, (Error, TunnelStateWrapper)>;

/// Result of one attempt to progress a state.
#[derive(Debug, PartialEq)]
pub enum EventConsequence {
    /// Transition to a new state.
    NewState(StateEntryResult),
    /// An event was received, but it was ignored by the state so no
    /// transition is performed.
    SameState(TunnelStateWrapper),
    /// No events were received; the engine should suspend until one
    /// becomes available.
    NoEvents(TunnelStateWrapper),
}

/// Action the state machine takes after classifying an event consequence:
/// run another iteration at once, or store a state and notify the caller.
#[derive(Debug, PartialEq)]
pub enum TunnelStateMachineAction {
    Repeat(TunnelStateWrapper),
    Notify(Option<TunnelStateWrapper>, MachinePoll),
}

/// Whether the parameters name a usable endpoint: a connection attempt can
/// only be directed at a non-zero port.
pub open spec fn spec_is_valid_parameters(params: TunnelParameters) -> bool {
    params.endpoint.address.port != 0
}

/// What entering the connecting phase yields: the connecting state itself,
/// or an error with the disconnected state as fallback.
pub open spec fn spec_enter_connecting(params: TunnelParameters) -> StateEntryResult {
    if spec_is_valid_parameters(params) {
        Ok(TunnelStateWrapper::Connecting(ConnectingState { params }))
    } else {
        Err((Error::InvalidParameters, TunnelStateWrapper::Disconnected(DisconnectedState)))
    }
}

/// The externally visible descriptor of a state.
pub open spec fn spec_info(state: TunnelStateWrapper) -> TunnelStateTransition {
    match state {
        TunnelStateWrapper::Disconnected(_) => TunnelStateTransition::Disconnected,
        TunnelStateWrapper::Connecting(s) => TunnelStateTransition::Connecting(s.params.endpoint),
        TunnelStateWrapper::Connected(s) => TunnelStateTransition::Connected(
            s.params.endpoint,
            s.metadata,
        ),
        TunnelStateWrapper::Disconnecting(_) => TunnelStateTransition::Disconnecting,
    }
}

/// The state an entry result leaves the engine in: the entered state on
/// success, the fallback on failure.
pub open spec fn spec_entry_state(r: StateEntryResult) -> TunnelStateWrapper {
    match r {
        Ok(state) => state,
        Err((_, fallback)) => fallback,
    }
}

/// How the active state reacts to one command.
pub open spec fn spec_on_command(
    state: TunnelStateWrapper,
    command: TunnelCommand,
) -> EventConsequence {
    match state {
        TunnelStateWrapper::Disconnected(s) => match command {
            TunnelCommand::Connect(params) => EventConsequence::NewState(
                spec_enter_connecting(params),
            ),
            TunnelCommand::Disconnect => EventConsequence::SameState(
                TunnelStateWrapper::Disconnected(s),
            ),
        },
        TunnelStateWrapper::Connecting(_) => match command {
            TunnelCommand::Connect(params) => EventConsequence::NewState(
                Ok(
                    TunnelStateWrapper::Disconnecting(
                        DisconnectingState { after_disconnect: AfterDisconnect::Reconnect(params) },
                    ),
                ),
            ),
            TunnelCommand::Disconnect => EventConsequence::NewState(
                Ok(
                    TunnelStateWrapper::Disconnecting(
                        DisconnectingState { after_disconnect: AfterDisconnect::Nothing },
                    ),
                ),
            ),
        },
        TunnelStateWrapper::Connected(s) => match command {
            TunnelCommand::Connect(params) => EventConsequence::NewState(
                Ok(
                    TunnelStateWrapper::Disconnecting(
                        DisconnectingState { after_disconnect: AfterDisconnect::Reconnect(params) },
                    ),
                ),
            ),
            TunnelCommand::Disconnect => EventConsequence::NewState(
                Ok(
                    TunnelStateWrapper::Disconnecting(
                        DisconnectingState { after_disconnect: AfterDisconnect::Nothing },
                    ),
                ),
            ),
        },
        TunnelStateWrapper::Disconnecting(_) => match command {
            TunnelCommand::Connect(params) => EventConsequence::SameState(
                TunnelStateWrapper::Disconnecting(
                    DisconnectingState { after_disconnect: AfterDisconnect::Reconnect(params) },
                ),
            ),
            TunnelCommand::Disconnect => EventConsequence::SameState(
                TunnelStateWrapper::Disconnecting(
                    DisconnectingState { after_disconnect: AfterDisconnect::Nothing },
                ),
            ),
        },
    }
}

/// How the active state reacts to one tunnel event.
pub open spec fn spec_on_tunnel_event(
    state: TunnelStateWrapper,
    event: TunnelEvent,
) -> EventConsequence {
    match state {
        TunnelStateWrapper::Disconnected(s) => EventConsequence::SameState(
            TunnelStateWrapper::Disconnected(s),
        ),
        TunnelStateWrapper::Connecting(s) => match event {
            TunnelEvent::Up(metadata) => EventConsequence::NewState(
                Ok(TunnelStateWrapper::Connected(ConnectedState { metadata, params: s.params })),
            ),
            TunnelEvent::Down => EventConsequence::NewState(
                Ok(TunnelStateWrapper::Disconnected(DisconnectedState)),
            ),
        },
        TunnelStateWrapper::Connected(s) => match event {
            TunnelEvent::Up(_) => EventConsequence::SameState(TunnelStateWrapper::Connected(s)),
            TunnelEvent::Down => EventConsequence::NewState(
                Ok(
                    TunnelStateWrapper::Disconnecting(
                        DisconnectingState {
                            after_disconnect: AfterDisconnect::Reconnect(s.params),
                        },
                    ),
                ),
            ),
        },
        TunnelStateWrapper::Disconnecting(s) => match event {
            TunnelEvent::Up(_) => EventConsequence::SameState(
                TunnelStateWrapper::Disconnecting(s),
            ),
            TunnelEvent::Down => match s.after_disconnect {
                AfterDisconnect::Nothing => EventConsequence::NewState(
                    Ok(TunnelStateWrapper::Disconnected(DisconnectedState)),
                ),
                AfterDisconnect::Reconnect(params) => EventConsequence::NewState(
                    spec_enter_connecting(params),
                ),
            },
        },
    }
}

/// One `handle_event` step: the active state consumes the oldest pending
/// command, else the oldest pending tunnel event, else reports that no
/// event was ready.  Returns the consequence and the remaining queues.
pub open spec fn spec_handle_event(
    state: TunnelStateWrapper,
    commands: Seq<TunnelCommand>,
    events: Seq<TunnelEvent>,
) -> (EventConsequence, Seq<TunnelCommand>, Seq<TunnelEvent>) {
    if commands.len() > 0 {
        (spec_on_command(state, commands[0]), commands.subrange(1, commands.len() as int), events)
    } else if events.len() > 0 {
        (spec_on_tunnel_event(state, events[0]), commands, events.subrange(1, events.len() as int))
    } else {
        (EventConsequence::NoEvents(state), commands, events)
    }
}

/// The action the engine takes for an event consequence.
pub open spec fn spec_action_of(consequence: EventConsequence) -> TunnelStateMachineAction {
    match consequence {
        EventConsequence::NewState(r) => TunnelStateMachineAction::Notify(
            Some(spec_entry_state(r)),
            MachinePoll::Transition(spec_info(spec_entry_state(r))),
        ),
        EventConsequence::SameState(state) => TunnelStateMachineAction::Repeat(state),
        EventConsequence::NoEvents(state) => TunnelStateMachineAction::Notify(
            Some(state),
            MachinePoll::Pending,
        ),
    }
}

/// The whole of one `poll`: starting from `state` with the pending queues,
/// the engine repeats `handle_event` while events are received and ignored,
/// and stops on the first replacement (emitting its descriptor) or when no
/// event is ready (suspending).  Returns what the poll reports, the state
/// the engine then holds, and the remaining queues.
pub open spec fn spec_run(
    state: TunnelStateWrapper,
    commands: Seq<TunnelCommand>,
    events: Seq<TunnelEvent>,
) -> (MachinePoll, TunnelStateWrapper, Seq<TunnelCommand>, Seq<TunnelEvent>)
    decreases commands.len() + events.len(),
{
    if commands.len() > 0 {
        let rest = commands.subrange(1, commands.len() as int);
        match spec_on_command(state, commands[0]) {
            EventConsequence::NewState(r) => (
                MachinePoll::Transition(spec_info(spec_entry_state(r))),
                spec_entry_state(r),
                rest,
                events,
            ),
            EventConsequence::SameState(s2) => spec_run(s2, rest, events),
            EventConsequence::NoEvents(s2) => (MachinePoll::Pending, s2, rest, events),
        }
    } else if events.len() > 0 {
        let rest = events.subrange(1, events.len() as int);
        match spec_on_tunnel_event(state, events[0]) {
            EventConsequence::NewState(r) => (
                MachinePoll::Transition(spec_info(spec_entry_state(r))),
                spec_entry_state(r),
                commands,
                rest,
            ),
            EventConsequence::SameState(s2) => spec_run(s2, commands, rest),
            EventConsequence::NoEvents(s2) => (MachinePoll::Pending, s2, commands, rest),
        }
    } else {
        (MachinePoll::Pending, state, commands, events)
    }
}

/// One unfolding of [`spec_run`], phrased through [`spec_handle_event`]:
/// whatever step the active state takes, the run either stops at it (a
/// replacement or a suspension) or continues with the remaining queues.
proof fn lemma_run_unfold(
    state: TunnelStateWrapper,
    commands: Seq<TunnelCommand>,
    events: Seq<TunnelEvent>,
)
    ensures
        ({
            let step = spec_handle_event(state, commands, events);
            spec_run(state, commands, events) == (match step.0 {
                EventConsequence::NewState(r) => (
                    MachinePoll::Transition(spec_info(spec_entry_state(r))),
                    spec_entry_state(r),
                    step.1,
                    step.2,
                ),
                EventConsequence::SameState(s2) => spec_run(s2, step.1, step.2),
                EventConsequence::NoEvents(s2) => (MachinePoll::Pending, s2, step.1, step.2),
            })
        }),
{
    if commands.len() > 0 {
    } else if events.len() > 0 {
    } else {
    }
}

/// An event a state observes and ignores never changes the externally
/// visible descriptor: a `SameState` consequence of a command keeps
/// `spec_info` as it was.
pub proof fn lemma_same_state_command_preserves_info(
    state: TunnelStateWrapper,
    command: TunnelCommand,
)
    ensures
        spec_on_command(state, command) matches EventConsequence::SameState(s2) ==> spec_info(s2)
            == spec_info(state),
{
}

/// An event a state observes and ignores never changes the externally
/// visible descriptor: a `SameState` consequence of a tunnel event keeps
/// `spec_info` as it was.
pub proof fn lemma_same_state_event_preserves_info(state: TunnelStateWrapper, event: TunnelEvent)
    ensures
        spec_on_tunnel_event(state, event) matches EventConsequence::SameState(s2) ==> spec_info(
            s2,
        ) == spec_info(state),
{
}

/// A poll that suspends emitted no transition and left the externally
/// visible descriptor exactly as it was, having drained both queues:
/// consecutive ignored events never produce a duplicate transition.
pub proof fn lemma_pending_run_preserves_info(
    state: TunnelStateWrapper,
    commands: Seq<TunnelCommand>,
    events: Seq<TunnelEvent>,
)
    ensures
        ({
            let run = spec_run(state, commands, events);
            run.0 is Pending ==> {
                &&& spec_info(run.1) == spec_info(state)
                &&& run.2.len() == 0
                &&& run.3.len() == 0
            }
        }),
    decreases commands.len() + events.len(),
{
    if commands.len() > 0 {
        let rest = commands.subrange(1, commands.len() as int);
        match spec_on_command(state, commands[0]) {
            EventConsequence::SameState(s2) => {
                lemma_same_state_command_preserves_info(state, commands[0]);
                lemma_pending_run_preserves_info(s2, rest, events);
            },
            _ => {},
        }
    } else if events.len() > 0 {
        let rest = events.subrange(1, events.len() as int);
        match spec_on_tunnel_event(state, events[0]) {
            EventConsequence::SameState(s2) => {
                lemma_same_state_event_preserves_info(state, events[0]);
                lemma_pending_run_preserves_info(s2, commands, rest);
            },
            _ => {},
        }
    }
}

/// A transition is emitted exactly when the active state was replaced, and
/// the emitted descriptor is the one of the state the engine then holds.
/// A run never ends the sequence by itself.
pub proof fn lemma_transition_reports_new_state(
    state: TunnelStateWrapper,
    commands: Seq<TunnelCommand>,
    events: Seq<TunnelEvent>,
)
    ensures
        ({
            let run = spec_run(state, commands, events);
            &&& !(run.0 is Finished)
            &&& (run.0 matches MachinePoll::Transition(t) ==> t == spec_info(run.1))
        }),
    decreases commands.len() + events.len(),
{
    if commands.len() > 0 {
        let rest = commands.subrange(1, commands.len() as int);
        match spec_on_command(state, commands[0]) {
            EventConsequence::SameState(s2) => {
                lemma_transition_reports_new_state(s2, rest, events);
            },
            _ => {},
        }
    } else if events.len() > 0 {
        let rest = events.subrange(1, events.len() as int);
        match spec_on_tunnel_event(state, events[0]) {
            EventConsequence::SameState(s2) => {
                lemma_transition_reports_new_state(s2, commands, rest);
            },
            _ => {},
        }
    }
}

/// An emission that repeats the descriptor the run started with happens
/// only when a state entry fell back, and the fallback is the disconnected
/// state; every other emission reports an actual change of descriptor.
pub proof fn lemma_repeated_descriptor_is_fallback(
    state: TunnelStateWrapper,
    commands: Seq<TunnelCommand>,
    events: Seq<TunnelEvent>,
)
    ensures
        ({
            let run = spec_run(state, commands, events);
            run.0 matches MachinePoll::Transition(t) ==> (t == spec_info(state) ==> t
                == TunnelStateTransition::Disconnected)
        }),
    decreases commands.len() + events.len(),
{
    if commands.len() > 0 {
        let rest = commands.subrange(1, commands.len() as int);
        match spec_on_command(state, commands[0]) {
            EventConsequence::SameState(s2) => {
                lemma_same_state_command_preserves_info(state, commands[0]);
                lemma_repeated_descriptor_is_fallback(s2, rest, events);
            },
            _ => {},
        }
    } else if events.len() > 0 {
        let rest = events.subrange(1, events.len() as int);
        match spec_on_tunnel_event(state, events[0]) {
            EventConsequence::SameState(s2) => {
                lemma_same_state_event_preserves_info(state, events[0]);
                lemma_repeated_descriptor_is_fallback(s2, commands, rest);
            },
            _ => {},
        }
    }
}

/// With nothing pending, a poll suspends and changes nothing: an idle
/// engine stays in its state and emits no transition until something is
/// delivered.
pub proof fn lemma_idle_poll_is_noop(state: TunnelStateWrapper)
    ensures
        spec_run(state, Seq::<TunnelCommand>::empty(), Seq::<TunnelEvent>::empty()) == (
            MachinePoll::Pending,
            state,
            Seq::<TunnelCommand>::empty(),
            Seq::<TunnelEvent>::empty(),
        ),
{
}

/// Entering the connecting phase succeeds exactly on valid parameters, and
/// a failed entry always carries the disconnected state as its fallback:
/// construction failure degrades, it never halts the engine.
pub proof fn lemma_enter_fallback_valid(params: TunnelParameters)
    ensures
        spec_enter_connecting(params) is Ok <==> spec_is_valid_parameters(params),
        spec_enter_connecting(params) matches Err((e, fallback)) ==> {
            &&& e == Error::InvalidParameters
            &&& fallback == TunnelStateWrapper::Disconnected(DisconnectedState)
        },
{
}

/// A connect command followed at once by a disconnect command never leaves
/// the engine stuck in the connecting phase: the run emits the connecting
/// descriptor (or at once the disconnected fallback), then the
/// disconnecting descriptor, and once the teardown has finished the engine
/// stands disconnected.
pub proof fn lemma_connect_then_disconnect_settles(params: TunnelParameters)
    ensures
        ({
            let start = TunnelStateWrapper::Disconnected(DisconnectedState);
            let queued = seq![TunnelCommand::Connect(params), TunnelCommand::Disconnect];
            let first = spec_run(start, queued, Seq::<TunnelEvent>::empty());
            if spec_is_valid_parameters(params) {
                &&& first.0 == MachinePoll::Transition(
                    TunnelStateTransition::Connecting(params.endpoint),
                )
                &&& ({
                    let second = spec_run(first.1, first.2, first.3);
                    &&& second.0 == MachinePoll::Transition(TunnelStateTransition::Disconnecting)
                    &&& ({
                        let third = spec_run(second.1, second.2, seq![TunnelEvent::Down]);
                        &&& third.0 == MachinePoll::Transition(
                            TunnelStateTransition::Disconnected,
                        )
                        &&& spec_info(third.1) == TunnelStateTransition::Disconnected
                    })
                })
            } else {
                &&& first.0 == MachinePoll::Transition(TunnelStateTransition::Disconnected)
                &&& ({
                    let second = spec_run(first.1, first.2, first.3);
                    &&& second.0 is Pending
                    &&& spec_info(second.1) == TunnelStateTransition::Disconnected
                })
            }
        }),
{
    reveal_with_fuel(spec_run, 4);
    let start = TunnelStateWrapper::Disconnected(DisconnectedState);
    let queued = seq![TunnelCommand::Connect(params), TunnelCommand::Disconnect];
    let first = spec_run(start, queued, Seq::<TunnelEvent>::empty());
    assert(queued[0] == TunnelCommand::Connect(params));
    assert(queued.subrange(1, 2)[0] == TunnelCommand::Disconnect);
    if spec_is_valid_parameters(params) {
        let second = spec_run(first.1, first.2, first.3);
        assert(second.2.len() == 0 && second.3.len() == 0);
        let third = spec_run(second.1, second.2, seq![TunnelEvent::Down]);
        assert(third.0 == MachinePoll::Transition(TunnelStateTransition::Disconnected));
    } else {
        let second = spec_run(first.1, first.2, first.3);
        assert(first.2.subrange(1, 1).len() == 0);
        assert(second.0 is Pending);
    }
}

impl DisconnectedState {
    /// Entering the disconnected phase never fails.
    pub fn enter(shared_values: &mut SharedTunnelStateValues, _bootstrap: ()) -> (r: StateEntryResult)
        ensures
            r == Ok::<TunnelStateWrapper, (Error, TunnelStateWrapper)>(
                TunnelStateWrapper::Disconnected(DisconnectedState),
            ),
            *final(shared_values) == *old(shared_values),
    {
        Ok(TunnelStateWrapper::Disconnected(DisconnectedState))
    }

    pub fn handle_command(
        self,
        command: TunnelCommand,
        shared_values: &mut SharedTunnelStateValues,
    ) -> (c: EventConsequence)
        ensures
            c == spec_on_command(TunnelStateWrapper::Disconnected(self), command),
            *final(shared_values) == *old(shared_values),
    {
        match command {
            TunnelCommand::Connect(params) => EventConsequence::NewState(
                ConnectingState::enter(shared_values, params),
            ),
            TunnelCommand::Disconnect => EventConsequence::SameState(
                TunnelStateWrapper::Disconnected(self),
            ),
        }
    }

    pub fn handle_tunnel_event(
        self,
        _event: TunnelEvent,
        shared_values: &mut SharedTunnelStateValues,
    ) -> (c: EventConsequence)
        ensures
            c == spec_on_tunnel_event(TunnelStateWrapper::Disconnected(self), _event),
            *final(shared_values) == *old(shared_values),
    {
        EventConsequence::SameState(TunnelStateWrapper::Disconnected(self))
    }
}

impl ConnectingState {
    /// Entering the connecting phase validates the parameters; on failure
    /// it degrades to the disconnected state instead of halting the engine.
    pub fn enter(
        shared_values: &mut SharedTunnelStateValues,
        params: TunnelParameters,
    ) -> (r: StateEntryResult)
        ensures
            r == spec_enter_connecting(params),
            *final(shared_values) == *old(shared_values),
    {
        if params.endpoint.address.port != 0 {
            Ok(TunnelStateWrapper::Connecting(ConnectingState { params }))
        } else {
            Err((Error::InvalidParameters, TunnelStateWrapper::Disconnected(DisconnectedState)))
        }
    }

    /// Returns information describing the state.
    pub fn info(&self) -> (t: TunnelStateTransition)
        ensures
            t == spec_info(TunnelStateWrapper::Connecting(*self)),
    {
        TunnelStateTransition::Connecting(self.params.endpoint)
    }

    pub fn handle_command(
        self,
        command: TunnelCommand,
        shared_values: &mut SharedTunnelStateValues,
    ) -> (c: EventConsequence)
        ensures
            c == spec_on_command(TunnelStateWrapper::Connecting(self), command),
            *final(shared_values) == *old(shared_values),
    {
        match command {
            TunnelCommand::Connect(params) => EventConsequence::NewState(
                DisconnectingState::enter(shared_values, AfterDisconnect::Reconnect(params)),
            ),
            TunnelCommand::Disconnect => EventConsequence::NewState(
                DisconnectingState::enter(shared_values, AfterDisconnect::Nothing),
            ),
        }
    }

    pub fn handle_tunnel_event(
        self,
        event: TunnelEvent,
        shared_values: &mut SharedTunnelStateValues,
    ) -> (c: EventConsequence)
        ensures
            c == spec_on_tunnel_event(TunnelStateWrapper::Connecting(self), event),
            *final(shared_values) == *old(shared_values),
    {
        match event {
            TunnelEvent::Up(metadata) => EventConsequence::NewState(
                ConnectedState::enter(shared_values, (self.params, metadata)),
            ),
            TunnelEvent::Down => EventConsequence::NewState(
                Ok(TunnelStateWrapper::Disconnected(DisconnectedState)),
            ),
        }
    }
}

impl ConnectedState {
    /// Entering the connected phase records the reported configuration.
    pub fn enter(
        shared_values: &mut SharedTunnelStateValues,
        bootstrap: (TunnelParameters, TunnelMetadata),
    ) -> (r: StateEntryResult)
        ensures
            r == Ok::<TunnelStateWrapper, (Error, TunnelStateWrapper)>(
                TunnelStateWrapper::Connected(
                    ConnectedState { metadata: bootstrap.1, params: bootstrap.0 },
                ),
            ),
            *final(shared_values) == *old(shared_values),
    {
        let (params, metadata) = bootstrap;
        Ok(TunnelStateWrapper::Connected(ConnectedState { metadata, params }))
    }

    /// Returns information describing the state.
    pub fn info(&self) -> (t: TunnelStateTransition)
        ensures
            t == spec_info(TunnelStateWrapper::Connected(*self)),
    {
        TunnelStateTransition::Connected(self.params.endpoint, self.metadata)
    }

    pub fn handle_command(
        self,
        command: TunnelCommand,
        shared_values: &mut SharedTunnelStateValues,
    ) -> (c: EventConsequence)
        ensures
            c == spec_on_command(TunnelStateWrapper::Connected(self), command),
            *final(shared_values) == *old(shared_values),
    {
        match command {
            TunnelCommand::Connect(params) => EventConsequence::NewState(
                DisconnectingState::enter(shared_values, AfterDisconnect::Reconnect(params)),
            ),
            TunnelCommand::Disconnect => EventConsequence::NewState(
                DisconnectingState::enter(shared_values, AfterDisconnect::Nothing),
            ),
        }
    }

    pub fn handle_tunnel_event(
        self,
        event: TunnelEvent,
        shared_values: &mut SharedTunnelStateValues,
    ) -> (c: EventConsequence)
        ensures
            c == spec_on_tunnel_event(TunnelStateWrapper::Connected(self), event),
            *final(shared_values) == *old(shared_values),
    {
        match event {
            TunnelEvent::Up(_) => EventConsequence::SameState(
                TunnelStateWrapper::Connected(self),
            ),
            TunnelEvent::Down => EventConsequence::NewState(
                DisconnectingState::enter(
                    shared_values,
                    AfterDisconnect::Reconnect(self.params),
                ),
            ),
        }
    }
}

impl DisconnectingState {
    /// Entering the disconnecting phase never fails; it records what to do
    /// once the teardown has finished.
    pub fn enter(
        shared_values: &mut SharedTunnelStateValues,
        after_disconnect: AfterDisconnect,
    ) -> (r: StateEntryResult)
        ensures
            r == Ok::<TunnelStateWrapper, (Error, TunnelStateWrapper)>(
                TunnelStateWrapper::Disconnecting(DisconnectingState { after_disconnect }),
            ),
            *final(shared_values) == *old(shared_values),
    {
        Ok(TunnelStateWrapper::Disconnecting(DisconnectingState { after_disconnect }))
    }

    pub fn handle_command(
        self,
        command: TunnelCommand,
        shared_values: &mut SharedTunnelStateValues,
    ) -> (c: EventConsequence)
        ensures
            c == spec_on_command(TunnelStateWrapper::Disconnecting(self), command),
            *final(shared_values) == *old(shared_values),
    {
        match command {
            TunnelCommand::Connect(params) => EventConsequence::SameState(
                TunnelStateWrapper::Disconnecting(
                    DisconnectingState { after_disconnect: AfterDisconnect::Reconnect(params) },
                ),
            ),
            TunnelCommand::Disconnect => EventConsequence::SameState(
                TunnelStateWrapper::Disconnecting(
                    DisconnectingState { after_disconnect: AfterDisconnect::Nothing },
                ),
            ),
        }
    }

    pub fn handle_tunnel_event(
        self,
        event: TunnelEvent,
        shared_values: &mut SharedTunnelStateValues,
    ) -> (c: EventConsequence)
        ensures
            c == spec_on_tunnel_event(TunnelStateWrapper::Disconnecting(self), event),
            *final(shared_values) == *old(shared_values),
    {
        match event {
            TunnelEvent::Up(_) => EventConsequence::SameState(
                TunnelStateWrapper::Disconnecting(self),
            ),
            TunnelEvent::Down => match self.after_disconnect {
                AfterDisconnect::Nothing => EventConsequence::NewState(
                    DisconnectedState::enter(shared_values, ()),
                ),
                AfterDisconnect::Reconnect(params) => EventConsequence::NewState(
                    ConnectingState::enter(shared_values, params),
                ),
            },
        }
    }
}

impl TunnelStateWrapper {
    /// Returns information describing the state.
    pub fn info(&self) -> (t: TunnelStateTransition)
        ensures
            t == spec_info(*self),
    {
        match self {
            TunnelStateWrapper::Disconnected(_) => TunnelStateTransition::Disconnected,
            TunnelStateWrapper::Connecting(state) => state.info(),
            TunnelStateWrapper::Connected(state) => state.info(),
            TunnelStateWrapper::Disconnecting(_) => TunnelStateTransition::Disconnecting,
        }
    }

    /// The state entry point of the whole machine: the initial state is
    /// the disconnected one.
    pub fn enter(shared_values: &mut SharedTunnelStateValues, bootstrap: ()) -> (r: StateEntryResult)
        ensures
            r == Ok::<TunnelStateWrapper, (Error, TunnelStateWrapper)>(
                TunnelStateWrapper::Disconnected(DisconnectedState),
            ),
            *final(shared_values) == *old(shared_values),
    {
        DisconnectedState::enter(shared_values, bootstrap)
    }

    /// Gives the active state first access to the command queue, then to
    /// the queued tunnel events; if neither holds a pending item the state
    /// reports that no events were ready.
    pub fn handle_event(
        self,
        commands: &mut CommandQueue,
        shared_values: &mut SharedTunnelStateValues,
    ) -> (c: EventConsequence)
        ensures
            ({
                let step = spec_handle_event(
                    self,
                    old(commands).spec_commands(),
                    old(shared_values).spec_tunnel_events(),
                );
                &&& c == step.0
                &&& final(commands).spec_commands() == step.1
                &&& final(shared_values).spec_tunnel_events() == step.2
                &&& final(commands).spec_is_closed() == old(commands).spec_is_closed()
            }),
    {
        match commands.pop_front() {
            Some(command) => self.handle_command(command, shared_values),
            None => match shared_values.pop_event() {
                Some(event) => self.handle_tunnel_event(event, shared_values),
                None => EventConsequence::NoEvents(self),
            },
        }
    }

    fn handle_command(
        self,
        command: TunnelCommand,
        shared_values: &mut SharedTunnelStateValues,
    ) -> (c: EventConsequence)
        ensures
            c == spec_on_command(self, command),
            *final(shared_values) == *old(shared_values),
    {
        match self {
            TunnelStateWrapper::Disconnected(state) => state.handle_command(command, shared_values),
            TunnelStateWrapper::Connecting(state) => state.handle_command(command, shared_values),
            TunnelStateWrapper::Connected(state) => state.handle_command(command, shared_values),
            TunnelStateWrapper::Disconnecting(state) => state.handle_command(
                command,
                shared_values,
            ),
        }
    }

    fn handle_tunnel_event(
        self,
        event: TunnelEvent,
        shared_values: &mut SharedTunnelStateValues,
    ) -> (c: EventConsequence)
        ensures
            c == spec_on_tunnel_event(self, event),
            *final(shared_values) == *old(shared_values),
    {
        match self {
            TunnelStateWrapper::Disconnected(state) => state.handle_tunnel_event(
                event,
                shared_values,
            ),
            TunnelStateWrapper::Connecting(state) => state.handle_tunnel_event(
                event,
                shared_values,
            ),
            TunnelStateWrapper::Connected(state) => state.handle_tunnel_event(
                event,
                shared_values,
            ),
            TunnelStateWrapper::Disconnecting(state) => state.handle_tunnel_event(
                event,
                shared_values,
            ),
        }
    }
}

impl EventConsequence {
    /// Helper method to chain handling multiple different event types: the
    /// handler runs only if no events were handled so far.
    pub fn or_else<F: FnOnce(TunnelStateWrapper) -> EventConsequence>(
        self,
        handle_event: F,
    ) -> (r: EventConsequence)
        requires
            self matches EventConsequence::NoEvents(state) ==> call_requires(
                handle_event,
                (state,),
            ),
        ensures
            !(self matches EventConsequence::NoEvents(_)) ==> r == self,
            self matches EventConsequence::NoEvents(state) ==> call_ensures(
                handle_event,
                (state,),
                r,
            ),
    {
        match self {
            EventConsequence::NoEvents(state) => handle_event(state),
            consequence => consequence,
        }
    }
}

impl From<EventConsequence> for TunnelStateMachineAction {
    fn from(event_consequence: EventConsequence) -> Self {
        match event_consequence {
            EventConsequence::NewState(result) => {
                let state = match result {
                    Ok(state) => state,
                    Err((_, fallback)) => fallback,
                };
                let transition = state.info();
                TunnelStateMachineAction::Notify(
                    Some(state),
                    MachinePoll::Transition(transition),
                )
            },
            EventConsequence::SameState(state) => TunnelStateMachineAction::Repeat(state),
            EventConsequence::NoEvents(state) => TunnelStateMachineAction::Notify(
                Some(state),
                MachinePoll::Pending,
            ),
        }
    }
}

impl vstd::std_specs::convert::FromSpecImpl<EventConsequence> for TunnelStateMachineAction {
    open spec fn obeys_from_spec() -> bool {
        true
    }

    open spec fn from_spec(event_consequence: EventConsequence) -> Self {
        spec_action_of(event_consequence)
    }
}

/// Asynchronous handling of the tunnel state machine.
///
/// The machine owns the single active state, the command queue and the
/// shared context.  The surrounding runtime delivers commands and tunnel
/// events and calls [`TunnelStateMachine::poll`]; every time the machine
/// successfully advances, the poll reports a [`TunnelStateTransition`].
pub struct TunnelStateMachine {
    current_state: Option<TunnelStateWrapper>,
    commands: CommandQueue,
    shared_values: SharedTunnelStateValues,
}

impl TunnelStateMachine {
    /// The state the engine holds, or `None` once it has halted.
    pub closed spec fn spec_state(&self) -> Option<TunnelStateWrapper> {
        self.current_state
    }

    /// The commands delivered and not yet consumed, oldest first.
    pub closed spec fn spec_commands(&self) -> Seq<TunnelCommand> {
        self.commands.spec_commands()
    }

    /// Whether the command channel's sender side has been closed.
    pub closed spec fn spec_commands_closed(&self) -> bool {
        self.commands.spec_is_closed()
    }

    /// The tunnel events delivered and not yet consumed, oldest first.
    pub closed spec fn spec_tunnel_events(&self) -> Seq<TunnelEvent> {
        self.shared_values.spec_tunnel_events()
    }

    /// Creates the machine in its initial, disconnected state with nothing
    /// pending.
    pub fn new() -> (r: TunnelStateMachine)
        ensures
            r.spec_state() == Some(TunnelStateWrapper::Disconnected(DisconnectedState)),
            r.spec_commands() == Seq::<TunnelCommand>::empty(),
            r.spec_tunnel_events() == Seq::<TunnelEvent>::empty(),
            !r.spec_commands_closed(),
    {
        let mut shared_values = SharedTunnelStateValues::new();
        let initial_state = match TunnelStateWrapper::enter(&mut shared_values, ()) {
            Ok(state) => state,
            Err(_) => vstd::pervasive::unreached(),
        };
        TunnelStateMachine {
            current_state: Some(initial_state),
            commands: CommandQueue::new(),
            shared_values,
        }
    }

    /// Delivers one command; FIFO order among commands is kept.  On a
    /// closed channel the command is handed back.
    pub fn send_command(&mut self, command: TunnelCommand) -> (r: Result<(), TunnelCommand>)
        ensures
            final(self).spec_state() == old(self).spec_state(),
            final(self).spec_tunnel_events() == old(self).spec_tunnel_events(),
            !old(self).spec_commands_closed() ==> {
                &&& r is Ok
                &&& final(self).spec_commands() == old(self).spec_commands().push(command)
                &&& !final(self).spec_commands_closed()
            },
            old(self).spec_commands_closed() ==> {
                &&& r == Result::<(), TunnelCommand>::Err(command)
                &&& final(self).spec_commands() == old(self).spec_commands()
                &&& final(self).spec_commands_closed()
            },
    {
        self.commands.send(command)
    }

    /// Closes the command channel: a normal "no more commands" condition,
    /// which by itself never halts the engine.
    pub fn close_commands(&mut self)
        ensures
            final(self).spec_state() == old(self).spec_state(),
            final(self).spec_tunnel_events() == old(self).spec_tunnel_events(),
            final(self).spec_commands() == old(self).spec_commands(),
            final(self).spec_commands_closed(),
    {
        self.commands.close();
    }

    /// Delivers one wake-up from a state-private event source.
    pub fn notify_tunnel_event(&mut self, event: TunnelEvent)
        ensures
            final(self).spec_state() == old(self).spec_state(),
            final(self).spec_commands() == old(self).spec_commands(),
            final(self).spec_commands_closed() == old(self).spec_commands_closed(),
            final(self).spec_tunnel_events() == old(self).spec_tunnel_events().push(event),
    {
        self.shared_values.notify(event);
    }

    /// Advances the machine: repeatedly lets the active state handle one
    /// pending item, until a state replacement is reported (its descriptor
    /// is emitted) or no event is ready (the engine suspends).  The engine
    /// holds a valid state again as soon as the poll returns; a failed
    /// state entry leaves its fallback state in place instead.
    pub fn poll(&mut self) -> (r: MachinePoll)
        ensures
            old(self).spec_state() is None ==> {
                &&& r == MachinePoll::Finished
                &&& final(self).spec_state() is None
                &&& final(self).spec_commands() == old(self).spec_commands()
                &&& final(self).spec_tunnel_events() == old(self).spec_tunnel_events()
                &&& final(self).spec_commands_closed() == old(self).spec_commands_closed()
            },
            ({
                old(self).spec_state() matches Some(state) ==> {
                    let run = spec_run(
                        state,
                        old(self).spec_commands(),
                        old(self).spec_tunnel_events(),
                    );
                    &&& r == run.0
                    &&& final(self).spec_state() == Some(run.1)
                    &&& final(self).spec_commands() == run.2
                    &&& final(self).spec_tunnel_events() == run.3
                    &&& final(self).spec_commands_closed() == old(self).spec_commands_closed()
                }
            }),
    {
        let ghost c0 = self.commands.spec_commands();
        let ghost e0 = self.shared_values.spec_tunnel_events();
        let ghost closed0 = self.commands.spec_is_closed();
        let mut state = match self.current_state.take() {
            Some(state) => state,
            None => {
                return MachinePoll::Finished;
            },
        };
        let ghost s0 = state;
        loop
            invariant
                old(self).spec_state() == Some(s0),
                c0 == old(self).spec_commands(),
                e0 == old(self).spec_tunnel_events(),
                closed0 == old(self).spec_commands_closed(),
                self.current_state is None,
                self.commands.spec_is_closed() == closed0,
                spec_run(s0, c0, e0) == spec_run(
                    state,
                    self.commands.spec_commands(),
                    self.shared_values.spec_tunnel_events(),
                ),
            decreases self.commands.spec_commands().len()
                + self.shared_values.spec_tunnel_events().len(),
        {
            let ghost pre_state = state;
            let ghost pre_commands = self.commands.spec_commands();
            let ghost pre_events = self.shared_values.spec_tunnel_events();
            let consequence = state.handle_event(&mut self.commands, &mut self.shared_values);
            proof {
                lemma_run_unfold(pre_state, pre_commands, pre_events);
            }
            let action = TunnelStateMachineAction::from(consequence);
            match action {
                TunnelStateMachineAction::Repeat(returned_state) => {
                    state = returned_state;
                },
                TunnelStateMachineAction::Notify(new_state, result) => {
                    self.current_state = new_state;
                    return result;
                },
            }
        }
    }
}

} // verus!
