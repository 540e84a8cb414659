//! Core of a VPN client daemon: the tunnel state machine engine.
//!
//! The engine owns the single active tunnel state (Disconnected, Connecting,
//! Connected, Disconnecting), a FIFO command channel and a shared context,
//! and advances the state machine one delivered command or tunnel event at a
//! time.  Every externally visible phase change is reported as a
//! [`machine::TunnelStateTransition`].
//!
//! Beside the engine stand the persisted API connection mode with its cache
//! encoding ([`proxy`]) and the combination of key-exchange shared secrets
//! into a pre-shared key ([`psk`]).

pub mod machine;
pub mod net;
pub mod proxy;
pub mod psk;

pub use machine::{TunnelCommand, TunnelParameters, TunnelStateMachine, TunnelStateTransition};
pub use proxy::{ApiConnection, ApiConnectionMode, ProxyConfig};
