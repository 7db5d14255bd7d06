//! Supervision core of a hot-reload watcher: it launches a development child
//! process, relays the child's output to a viewer over a forward TCP channel,
//! and relaunches the child (optionally in a UI-only mode) whenever it exits
//! uncleanly, driven by a single control byte read from a back channel.
//!
//! The library holds the decisions; the binary under `app/` performs the
//! process, socket and thread work and feeds the outcomes back in.

mod channel;
mod handshake;
mod launch;
mod ports;
mod supervisor;
mod templates;

pub use channel::{
    await_output_byte, event_of_read, read_event, take_output_byte, ChannelRead,
};
pub use handshake::{
    connect_step, handshake_result, logs_failure, lemma_connects_on_first_reachable_attempt,
    lemma_gives_up_after_budget, peer_outcomes, ConnectStep, ConnectorRetry, LOG_FROM_ATTEMPT,
    MAX_CONNECT_ATTEMPTS,
};
pub use launch::{child_env, decimal, decimal_string, LaunchPlan, CHILD_PROGRAM};
pub use ports::{
    back_draw_step, on_back_draw, pick_two_free_ports, BackDraw, PortPair, BACK_PORT_DRAWS,
};
pub use supervisor::{
    action_of, after_exit, after_unclean_exit, classify, flag_after_control, initial_state,
    lemma_clean_exit_is_final, lemma_control_byte_decides_mode, lemma_failed_write_stops_relaying,
    lemma_faulty_exit_restarts, lemma_only_clean_exit_finishes, lemma_relay_preserves_order,
    phase_after_output, relay_events, run, step, Action, Event, ExitClassification, Phase, Supervisor,
    SupervisorState, RESUME_NORMAL,
};
pub use templates::{FileTemplate, StandardTemplateFiles, Template, Templates};
