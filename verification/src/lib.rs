//! Reachability probing of one network port over TCP and UDP.
//!
//! The crate holds the decisions of the probe: when a listener keeps
//! waiting, echoes, or stops; what a client attempt amounts to; and in which
//! order a run starts its listeners, probes them and collects the results.
//! Sockets, clocks and tasks are left to the caller, who reports what
//! happened as events and carries out the actions it is handed back.
//!
//! Each part is a state machine with one `step` function, specified by a
//! function of the same shape over mathematical views:
//!
//! - `listener`: the TCP and UDP probe listeners (`listener_step`);
//! - `client`: the per-protocol client attempt (`client_step`);
//! - `orchestrator`: the order of a whole run (`orchestrator_step`).
//!
//! `sentinel` defines the shutdown message that client and listeners share,
//! `status` the states and outcomes they report, `config` the target and
//! the time limits. `listener_laws` and `orchestrator_laws` prove what
//! holds of the machines over every run of events.

pub mod client;
pub mod config;
pub mod listener;
pub mod listener_laws;
pub mod orchestrator;
pub mod orchestrator_laws;
pub mod sentinel;
pub mod status;
