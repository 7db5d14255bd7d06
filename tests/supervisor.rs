use hotreload_watcher::{
    Action, Event, ExitClassification, Phase, PortPair, Supervisor, RESUME_NORMAL,
};

fn pair(forward: u16, back: u16) -> PortPair {
    PortPair::new(forward, back).unwrap()
}

/// Drives a fresh watcher through picking ports and launching, returning it
/// ready to relay.
fn launched(sup: &mut Supervisor, ports: PortPair, ui_only: bool) {
    assert_eq!(sup.next_action(), Action::PickPorts);
    assert_eq!(sup.handle(Event::PortsPicked(ports)), Action::Launch { ports, ui_only });
    assert_eq!(sup.handle(Event::Launched), Action::DrainChannel);
}

/// Relays `bytes` with every write succeeding and returns the bytes the
/// watcher asked to forward.
fn relay_all(sup: &mut Supervisor, bytes: &[u8]) -> Vec<u8> {
    let mut written = Vec::new();
    for &b in bytes {
        match sup.handle(Event::ByteAvailable(b)) {
            Action::Forward(x) => written.push(x),
            other => panic!("expected a forward, got {:?}", other),
        }
        assert_eq!(sup.handle(Event::Forwarded), Action::DrainChannel);
    }
    written
}

fn unclean_exit(sup: &mut Supervisor, control: Option<u8>) {
    assert_eq!(sup.handle(Event::ChannelEmpty), Action::PollChild);
    assert_eq!(
        sup.handle(Event::ExitStatus(ExitClassification::FaultyExit)),
        Action::AwaitOutput
    );
    assert!(sup.degraded());
    assert_eq!(sup.exit(), ExitClassification::FaultyExit);
    assert_eq!(sup.handle(Event::ChannelClosed), Action::ReadControlByte);
    assert_eq!(sup.handle(Event::ControlByte(control)), Action::PickPorts);
    assert_eq!(sup.exit(), ExitClassification::Running);
}

#[test]
fn new_watcher_starts_by_picking_ports_in_full_mode() {
    let sup = Supervisor::new();
    assert_eq!(sup.phase(), Phase::PickingPorts);
    assert!(!sup.degraded());
    assert_eq!(sup.next_action(), Action::PickPorts);
}

#[test]
fn unusable_port_pair_is_refused() {
    let mut sup = Supervisor::new();
    let same = PortPair { forward: 4000, back: 4000 };
    assert_eq!(sup.handle(Event::PortsPicked(same)), Action::PickPorts);
    let zero = PortPair { forward: 0, back: 4000 };
    assert_eq!(sup.handle(Event::PortsPicked(zero)), Action::PickPorts);
    assert_eq!(sup.phase(), Phase::PickingPorts);
}

#[test]
fn immediate_clean_exit_terminates() {
    let mut sup = Supervisor::new();
    launched(&mut sup, pair(4000, 4001), false);
    assert_eq!(sup.handle(Event::ChannelEmpty), Action::PollChild);
    assert_eq!(
        sup.handle(Event::ExitStatus(ExitClassification::CleanExit)),
        Action::AwaitOutput
    );
    assert_eq!(sup.handle(Event::ChannelClosed), Action::Exit);
    assert_eq!(sup.phase(), Phase::Finished);
    // Nothing afterwards starts another cycle.
    assert_eq!(sup.handle(Event::PortsPicked(pair(5000, 5001))), Action::Exit);
    assert_eq!(sup.handle(Event::ControlByte(Some(RESUME_NORMAL))), Action::Exit);
    assert_eq!(sup.handle(Event::ByteAvailable(7)), Action::Exit);
    assert_eq!(sup.phase(), Phase::Finished);
}

#[test]
fn running_child_keeps_relaying() {
    let mut sup = Supervisor::new();
    launched(&mut sup, pair(4000, 4001), false);
    assert_eq!(sup.handle(Event::ChannelEmpty), Action::PollChild);
    assert_eq!(sup.handle(Event::ExitStatus(ExitClassification::Running)), Action::DrainChannel);
    assert_eq!(relay_all(&mut sup, b"ok"), b"ok".to_vec());
}

#[test]
fn output_then_unclean_exit_is_relayed_in_order_and_restarted() {
    let mut sup = Supervisor::new();
    launched(&mut sup, pair(4000, 4001), false);
    let written = relay_all(&mut sup, b"building...\n");
    assert_eq!(written, b"building...\n".to_vec());
    unclean_exit(&mut sup, None);
    assert!(sup.degraded());
    launched(&mut sup, pair(6000, 6001), true);
}

#[test]
fn relayed_bytes_keep_their_order() {
    let mut sup = Supervisor::new();
    launched(&mut sup, pair(4000, 4001), false);
    let bytes: Vec<u8> = (0u8..=255).rev().collect();
    assert_eq!(relay_all(&mut sup, &bytes), bytes);
}

#[test]
fn failed_write_ends_the_drain_and_polls_the_child() {
    let mut sup = Supervisor::new();
    launched(&mut sup, pair(4000, 4001), false);
    assert_eq!(relay_all(&mut sup, b"ab"), b"ab".to_vec());
    assert_eq!(sup.handle(Event::ByteAvailable(b'c')), Action::Forward(b'c'));
    assert_eq!(sup.handle(Event::ForwardFailed), Action::PollChild);
    assert_eq!(sup.handle(Event::ExitStatus(ExitClassification::Running)), Action::DrainChannel);
    assert_eq!(relay_all(&mut sup, b"d"), b"d".to_vec());
}

#[test]
fn two_unclean_exits_without_control_byte_stay_ui_only() {
    let mut sup = Supervisor::new();
    launched(&mut sup, pair(4000, 4001), false);
    unclean_exit(&mut sup, None);
    launched(&mut sup, pair(4100, 4101), true);
    unclean_exit(&mut sup, None);
    launched(&mut sup, pair(4200, 4201), true);
    assert!(sup.degraded());
}

#[test]
fn resume_normal_byte_clears_ui_only_mode() {
    let mut sup = Supervisor::new();
    launched(&mut sup, pair(4000, 4001), false);
    unclean_exit(&mut sup, Some(RESUME_NORMAL));
    assert!(!sup.degraded());
    launched(&mut sup, pair(4100, 4101), false);
}

#[test]
fn other_control_byte_keeps_ui_only_mode() {
    let mut sup = Supervisor::new();
    launched(&mut sup, pair(4000, 4001), false);
    unclean_exit(&mut sup, Some(0));
    launched(&mut sup, pair(4100, 4101), true);
    unclean_exit(&mut sup, Some(2));
    launched(&mut sup, pair(4200, 4201), true);
    unclean_exit(&mut sup, Some(1));
    launched(&mut sup, pair(4300, 4301), false);
}

#[test]
fn unclean_exit_restarts_from_either_mode() {
    let mut sup = Supervisor::new();
    launched(&mut sup, pair(4000, 4001), false);
    unclean_exit(&mut sup, Some(RESUME_NORMAL));
    launched(&mut sup, pair(4100, 4101), false);
    unclean_exit(&mut sup, None);
    launched(&mut sup, pair(4200, 4201), true);
    unclean_exit(&mut sup, Some(RESUME_NORMAL));
    assert_eq!(sup.phase(), Phase::PickingPorts);
}

#[test]
fn events_out_of_phase_are_ignored() {
    let mut sup = Supervisor::new();
    assert_eq!(sup.handle(Event::Launched), Action::PickPorts);
    assert_eq!(sup.handle(Event::ControlByte(Some(RESUME_NORMAL))), Action::PickPorts);
    launched(&mut sup, pair(4000, 4001), false);
    assert_eq!(sup.handle(Event::ExitStatus(ExitClassification::CleanExit)), Action::DrainChannel);
    assert_eq!(sup.handle(Event::Forwarded), Action::DrainChannel);
}

#[test]
fn exit_classification_of_polls() {
    assert_eq!(ExitClassification::from_poll(None), ExitClassification::Running);
    assert_eq!(ExitClassification::from_poll(Some(Some(0))), ExitClassification::CleanExit);
    assert_eq!(ExitClassification::from_poll(Some(Some(1))), ExitClassification::FaultyExit);
    assert_eq!(ExitClassification::from_poll(Some(Some(-1))), ExitClassification::FaultyExit);
    assert_eq!(ExitClassification::from_poll(Some(None)), ExitClassification::FaultyExit);
}


#[test]
fn output_arriving_after_the_exit_is_still_relayed() {
    let mut sup = Supervisor::new();
    launched(&mut sup, pair(4000, 4001), false);
    assert_eq!(relay_all(&mut sup, b"build"), b"build".to_vec());
    assert_eq!(sup.handle(Event::ChannelEmpty), Action::PollChild);
    assert_eq!(
        sup.handle(Event::ExitStatus(ExitClassification::FaultyExit)),
        Action::AwaitOutput
    );
    // Still waiting for the rest: an empty channel does not end the cycle.
    assert_eq!(sup.handle(Event::ChannelEmpty), Action::AwaitOutput);
    for &b in b"ing...\n" {
        assert_eq!(sup.handle(Event::ByteAvailable(b)), Action::Forward(b));
        assert_eq!(sup.handle(Event::Forwarded), Action::AwaitOutput);
    }
    assert_eq!(sup.handle(Event::ChannelClosed), Action::ReadControlByte);
}

#[test]
fn clean_exit_waits_for_the_output_to_end() {
    let mut sup = Supervisor::new();
    launched(&mut sup, pair(4000, 4001), false);
    assert_eq!(sup.handle(Event::ChannelEmpty), Action::PollChild);
    assert_eq!(
        sup.handle(Event::ExitStatus(ExitClassification::CleanExit)),
        Action::AwaitOutput
    );
    assert_eq!(sup.handle(Event::ByteAvailable(b'!')), Action::Forward(b'!'));
    assert_eq!(sup.handle(Event::Forwarded), Action::AwaitOutput);
    assert_eq!(sup.handle(Event::ChannelClosed), Action::Exit);
}

#[test]
fn failed_write_after_the_exit_concludes_it() {
    let mut sup = Supervisor::new();
    launched(&mut sup, pair(4000, 4001), false);
    assert_eq!(sup.handle(Event::ChannelEmpty), Action::PollChild);
    assert_eq!(
        sup.handle(Event::ExitStatus(ExitClassification::FaultyExit)),
        Action::AwaitOutput
    );
    assert_eq!(sup.handle(Event::ByteAvailable(b'x')), Action::Forward(b'x'));
    assert_eq!(sup.handle(Event::ForwardFailed), Action::ReadControlByte);
}

#[test]
fn closed_channel_while_running_polls_the_child() {
    let mut sup = Supervisor::new();
    launched(&mut sup, pair(4000, 4001), false);
    assert_eq!(sup.handle(Event::ChannelClosed), Action::PollChild);
    assert_eq!(sup.handle(Event::ExitStatus(ExitClassification::Running)), Action::DrainChannel);
}
