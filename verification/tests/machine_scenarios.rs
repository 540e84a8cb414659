//! Scenario tests driving the tunnel state machine engine through its
//! externally visible transitions.

use tunnel_state_machine::machine::{
    AfterDisconnect, ConnectingState, DisconnectedState, DisconnectingState, Error,
    EventConsequence, MachinePoll, SharedTunnelStateValues, TunnelCommand, TunnelEvent,
    TunnelParameters, TunnelStateMachine, TunnelStateTransition, TunnelStateWrapper,
};
use tunnel_state_machine::net::{
    Ipv4Address, SocketAddress, TransportProtocol, TunnelEndpoint, TunnelMetadata, TunnelOptions,
};

fn endpoint(port: u16) -> TunnelEndpoint {
    TunnelEndpoint {
        address: SocketAddress {
            ip: Ipv4Address { o0: 10, o1: 0, o2: 0, o3: 1 },
            port,
        },
        protocol: TransportProtocol::Udp,
    }
}

fn params(port: u16) -> TunnelParameters {
    TunnelParameters {
        endpoint: endpoint(port),
        options: TunnelOptions { enable_ipv6: false, mtu: None },
        log_dir: None,
        resource_dir: String::from("/var/lib/tunnel"),
        account_token: String::from("1234567890"),
    }
}

fn metadata() -> TunnelMetadata {
    TunnelMetadata {
        address: Ipv4Address { o0: 10, o1: 64, o2: 0, o3: 2 },
        gateway: Ipv4Address { o0: 10, o1: 64, o2: 0, o3: 1 },
    }
}

#[test]
fn starts_disconnected_and_idle() {
    let mut machine = TunnelStateMachine::new();
    assert_eq!(machine.poll(), MachinePoll::Pending);
    assert_eq!(machine.poll(), MachinePoll::Pending);
}

#[test]
fn ignored_command_emits_no_transition() {
    let mut machine = TunnelStateMachine::new();
    assert!(machine.send_command(TunnelCommand::Disconnect).is_ok());
    assert_eq!(machine.poll(), MachinePoll::Pending);
}

#[test]
fn connect_success_scenario() {
    let mut machine = TunnelStateMachine::new();
    assert!(machine.send_command(TunnelCommand::Connect(params(51820))).is_ok());
    assert_eq!(
        machine.poll(),
        MachinePoll::Transition(TunnelStateTransition::Connecting(endpoint(51820))),
    );
    machine.notify_tunnel_event(TunnelEvent::Up(metadata()));
    assert_eq!(
        machine.poll(),
        MachinePoll::Transition(TunnelStateTransition::Connected(endpoint(51820), metadata())),
    );
    assert!(machine.send_command(TunnelCommand::Disconnect).is_ok());
    assert_eq!(
        machine.poll(),
        MachinePoll::Transition(TunnelStateTransition::Disconnecting),
    );
    machine.notify_tunnel_event(TunnelEvent::Down);
    assert_eq!(
        machine.poll(),
        MachinePoll::Transition(TunnelStateTransition::Disconnected),
    );
    assert_eq!(machine.poll(), MachinePoll::Pending);
}

#[test]
fn connect_failure_falls_back_to_disconnected() {
    let mut machine = TunnelStateMachine::new();
    assert!(machine.send_command(TunnelCommand::Connect(params(51820))).is_ok());
    assert_eq!(
        machine.poll(),
        MachinePoll::Transition(TunnelStateTransition::Connecting(endpoint(51820))),
    );
    machine.notify_tunnel_event(TunnelEvent::Down);
    assert_eq!(
        machine.poll(),
        MachinePoll::Transition(TunnelStateTransition::Disconnected),
    );
    assert_eq!(machine.poll(), MachinePoll::Pending);
}

#[test]
fn connect_then_disconnect_never_stuck_connecting() {
    let mut machine = TunnelStateMachine::new();
    assert!(machine.send_command(TunnelCommand::Connect(params(51820))).is_ok());
    assert!(machine.send_command(TunnelCommand::Disconnect).is_ok());
    assert_eq!(
        machine.poll(),
        MachinePoll::Transition(TunnelStateTransition::Connecting(endpoint(51820))),
    );
    assert_eq!(
        machine.poll(),
        MachinePoll::Transition(TunnelStateTransition::Disconnecting),
    );
    machine.notify_tunnel_event(TunnelEvent::Down);
    assert_eq!(
        machine.poll(),
        MachinePoll::Transition(TunnelStateTransition::Disconnected),
    );
}

#[test]
fn invalid_parameters_enter_falls_back() {
    let mut machine = TunnelStateMachine::new();
    assert!(machine.send_command(TunnelCommand::Connect(params(0))).is_ok());
    assert_eq!(
        machine.poll(),
        MachinePoll::Transition(TunnelStateTransition::Disconnected),
    );
    assert_eq!(machine.poll(), MachinePoll::Pending);
}

#[test]
fn reconnect_while_connecting_uses_new_parameters() {
    let mut machine = TunnelStateMachine::new();
    assert!(machine.send_command(TunnelCommand::Connect(params(1194))).is_ok());
    assert_eq!(
        machine.poll(),
        MachinePoll::Transition(TunnelStateTransition::Connecting(endpoint(1194))),
    );
    assert!(machine.send_command(TunnelCommand::Connect(params(51820))).is_ok());
    assert_eq!(
        machine.poll(),
        MachinePoll::Transition(TunnelStateTransition::Disconnecting),
    );
    machine.notify_tunnel_event(TunnelEvent::Down);
    assert_eq!(
        machine.poll(),
        MachinePoll::Transition(TunnelStateTransition::Connecting(endpoint(51820))),
    );
}

#[test]
fn lost_tunnel_reconnects_through_disconnecting() {
    let mut machine = TunnelStateMachine::new();
    assert!(machine.send_command(TunnelCommand::Connect(params(51820))).is_ok());
    assert_eq!(
        machine.poll(),
        MachinePoll::Transition(TunnelStateTransition::Connecting(endpoint(51820))),
    );
    machine.notify_tunnel_event(TunnelEvent::Up(metadata()));
    assert_eq!(
        machine.poll(),
        MachinePoll::Transition(TunnelStateTransition::Connected(endpoint(51820), metadata())),
    );
    machine.notify_tunnel_event(TunnelEvent::Down);
    assert_eq!(
        machine.poll(),
        MachinePoll::Transition(TunnelStateTransition::Disconnecting),
    );
    machine.notify_tunnel_event(TunnelEvent::Down);
    assert_eq!(
        machine.poll(),
        MachinePoll::Transition(TunnelStateTransition::Connecting(endpoint(51820))),
    );
}

#[test]
fn closed_channel_is_permanent_idle_not_halt() {
    let mut machine = TunnelStateMachine::new();
    machine.close_commands();
    assert_eq!(machine.poll(), MachinePoll::Pending);
    let rejected = machine.send_command(TunnelCommand::Disconnect);
    assert_eq!(rejected, Err(TunnelCommand::Disconnect));
    assert_eq!(machine.poll(), MachinePoll::Pending);
}

#[test]
fn failed_entry_reports_error_and_fallback() {
    let mut shared = SharedTunnelStateValues::new();
    let entered = ConnectingState::enter(&mut shared, params(0));
    assert_eq!(
        entered,
        Err((
            Error::InvalidParameters,
            TunnelStateWrapper::Disconnected(DisconnectedState),
        )),
    );
    let entered = ConnectingState::enter(&mut shared, params(51820));
    match entered {
        Ok(TunnelStateWrapper::Connecting(state)) => assert_eq!(state.params, params(51820)),
        other => panic!("expected the connecting state, got {:?}", other),
    }
}

#[test]
fn or_else_runs_handler_only_without_event() {
    let state = TunnelStateWrapper::Disconnected(DisconnectedState);
    let chained = EventConsequence::NoEvents(state).or_else(|s| EventConsequence::SameState(s));
    assert_eq!(
        chained,
        EventConsequence::SameState(TunnelStateWrapper::Disconnected(DisconnectedState)),
    );

    let handled = EventConsequence::SameState(TunnelStateWrapper::Disconnecting(
        DisconnectingState { after_disconnect: AfterDisconnect::Nothing },
    ));
    let kept = handled.or_else(|s| EventConsequence::NoEvents(s));
    assert_eq!(
        kept,
        EventConsequence::SameState(TunnelStateWrapper::Disconnecting(DisconnectingState {
            after_disconnect: AfterDisconnect::Nothing,
        })),
    );
}
