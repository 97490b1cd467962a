//! A typed access layer over a host-provided MIDI subsystem.
//!
//! The host runtime owns the real devices: it prompts the user for
//! permission, enumerates the ports it can see, performs connection
//! transitions and delivers messages. This library holds the typed model
//! of that world — sessions, ports, their metadata and lifecycle — and
//! the decisions the access layer makes: whether a session reports
//! system-exclusive support, how a host answer becomes a port snapshot,
//! how a host verdict moves a port between connection states, and when a
//! payload may be handed to the host at all. Every host-reported failure
//! surfaces as a typed error; no path aborts.
//!
//! The embedding layer talks to the host and hands the answers in as
//! plain values; everything here is verified.

pub mod access;
pub mod error;
pub mod laws;
pub mod port;
