//! The decisions of the watcher, as a state machine over supervision cycles.
//!
//! Each cycle picks two ports, launches the child, relays its output byte by
//! byte, polls it for exit, and after an unclean exit reads one control byte
//! before the next cycle. The machine decides; the caller performs each
//! [`Action`] and reports what happened as an [`Event`].
use crate::ports::PortPair;
use vstd::prelude::*;

verus! {

/// The control byte by which the viewer asks for the next child to run in full mode.
pub const RESUME_NORMAL: u8 = 1;

/// How a poll of the child turned out.
#[derive(Clone, Copy, Debug, PartialEq, Eq, Structural)]
pub enum ExitClassification {
    Running,
    CleanExit,
    FaultyExit,
}

/// The classification of a poll that saw the child still running (`None`) or
/// exited with an exit code (`Some(None)` when it ended without one, as on a
/// signal): only the code `0` is a clean exit.
pub open spec fn classify(poll: Option<Option<i32>>) -> ExitClassification {
    match poll {
        None => ExitClassification::Running,
        Some(Some(code)) => if code == 0 {
            ExitClassification::CleanExit
        } else {
            ExitClassification::FaultyExit
        },
        Some(None) => ExitClassification::FaultyExit,
    }
}

impl ExitClassification {
    /// Classifies the result of a non-blocking poll of the child.
    pub fn from_poll(poll: Option<Option<i32>>) -> (r: ExitClassification)
        ensures
            r == classify(poll),
    {
        match poll {
            None => ExitClassification::Running,
            Some(Some(code)) => if code == 0 {
                ExitClassification::CleanExit
            } else {
                ExitClassification::FaultyExit
            },
            Some(None) => ExitClassification::FaultyExit,
        }
    }
}

/// Where the watcher stands.
#[derive(Clone, Copy, Debug, PartialEq, Eq, Structural)]
pub enum Phase {
    /// A cycle starts: two fresh ports are needed.
    PickingPorts,
    /// The child is to be launched on these ports and both connections made.
    Launching(PortPair),
    /// Bytes are taken from the child's output channel: while the child runs,
    /// as long as any are waiting; once it has exited, until the channel closes.
    Relaying,
    /// This byte, taken from the channel, is to be written to the forward connection.
    Forwarding(u8),
    /// The child is to be polled for exit.
    CheckingExit,
    /// The child exited uncleanly and all its output is relayed: one control
    /// byte is to be read.
    AwaitingControlSignal,
    /// The child exited cleanly and all its output is relayed: the watcher ends.
    Finished,
}

/// What happened, as the caller reports it.
#[derive(Clone, Copy, Debug, PartialEq, Eq, Structural)]
pub enum Event {
    PortsPicked(PortPair),
    Launched,
    ByteAvailable(u8),
    /// No byte is waiting, but the child's streams may still bring more.
    ChannelEmpty,
    /// Both of the child's streams have ended and every byte has been taken.
    ChannelClosed,
    Forwarded,
    ForwardFailed,
    ExitStatus(ExitClassification),
    /// The control byte read from the back channel, `None` when the read failed.
    ControlByte(Option<u8>),
}

/// What the caller is to do next.
#[derive(Clone, Copy, Debug, PartialEq, Eq, Structural)]
pub enum Action {
    PickPorts,
    /// Start the child on `ports`, in UI-only mode when `ui_only` holds, then
    /// accept the forward connection and connect the back channel.
    Launch { ports: PortPair, ui_only: bool },
    /// Take one byte from the output channel without blocking.
    DrainChannel,
    /// Block until a byte arrives on the output channel or it closes.
    AwaitOutput,
    Forward(u8),
    /// Poll the child for exit without blocking.
    PollChild,
    /// Block on one byte from the back channel.
    ReadControlByte,
    Exit,
}

/// The watcher as the contracts see it: its phase, the degraded-mode flag
/// that decides whether the next child runs UI-only, every byte written to a
/// forward connection so far, how many cycles have launched a child, and
/// how the current child exited (`Running` until its exit is seen).
pub struct SupervisorState {
    pub phase: Phase,
    pub degraded: bool,
    pub exit: ExitClassification,
    pub forwarded: Seq<u8>,
    pub cycles: nat,
}

/// The watcher before its first cycle.
pub open spec fn initial_state() -> SupervisorState {
    SupervisorState {
        phase: Phase::PickingPorts,
        degraded: false,
        exit: ExitClassification::Running,
        forwarded: seq![],
        cycles: 0,
    }
}

/// The phase once the child's output has stopped coming: while the child
/// runs, poll it; after a clean exit, end; after an unclean exit, await the
/// control byte.
pub open spec fn phase_after_output(exit: ExitClassification) -> Phase {
    match exit {
        ExitClassification::Running => Phase::CheckingExit,
        ExitClassification::CleanExit => Phase::Finished,
        ExitClassification::FaultyExit => Phase::AwaitingControlSignal,
    }
}

/// The watcher after `e`. An event that does not belong to the phase is ignored.
pub open spec fn step(s: SupervisorState, e: Event) -> SupervisorState {
    match (s.phase, e) {
        (Phase::PickingPorts, Event::PortsPicked(p)) => if p.usable() {
            SupervisorState { phase: Phase::Launching(p), cycles: s.cycles + 1, ..s }
        } else {
            s
        },
        (Phase::Launching(_), Event::Launched) => SupervisorState {
            phase: Phase::Relaying,
            exit: ExitClassification::Running,
            ..s
        },
        (Phase::Relaying, Event::ByteAvailable(b)) => SupervisorState {
            phase: Phase::Forwarding(b),
            ..s
        },
        (Phase::Relaying, Event::ChannelEmpty) => if s.exit == ExitClassification::Running {
            SupervisorState { phase: Phase::CheckingExit, ..s }
        } else {
            s
        },
        (Phase::Relaying, Event::ChannelClosed) => SupervisorState {
            phase: phase_after_output(s.exit),
            ..s
        },
        (Phase::Forwarding(b), Event::Forwarded) => SupervisorState {
            phase: Phase::Relaying,
            forwarded: s.forwarded.push(b),
            ..s
        },
        (Phase::Forwarding(_), Event::ForwardFailed) => SupervisorState {
            phase: phase_after_output(s.exit),
            ..s
        },
        (Phase::CheckingExit, Event::ExitStatus(c)) => SupervisorState {
            phase: Phase::Relaying,
            exit: c,
            degraded: c == ExitClassification::FaultyExit || s.degraded,
            ..s
        },
        (Phase::AwaitingControlSignal, Event::ControlByte(r)) => SupervisorState {
            phase: Phase::PickingPorts,
            exit: ExitClassification::Running,
            degraded: if r == Some(RESUME_NORMAL) {
                false
            } else {
                s.degraded
            },
            ..s
        },
        _ => s,
    }
}

/// What the watcher asks for in a phase.
pub open spec fn action_of(s: SupervisorState) -> Action {
    match s.phase {
        Phase::PickingPorts => Action::PickPorts,
        Phase::Launching(p) => Action::Launch { ports: p, ui_only: s.degraded },
        Phase::Relaying => if s.exit == ExitClassification::Running {
            Action::DrainChannel
        } else {
            Action::AwaitOutput
        },
        Phase::Forwarding(b) => Action::Forward(b),
        Phase::CheckingExit => Action::PollChild,
        Phase::AwaitingControlSignal => Action::ReadControlByte,
        Phase::Finished => Action::Exit,
    }
}

/// The watcher after the events `events`, in order.
pub open spec fn run(s: SupervisorState, events: Seq<Event>) -> SupervisorState
    decreases events.len(),
{
    if events.len() == 0 {
        s
    } else {
        run(step(s, events[0]), events.drop_first())
    }
}

/// The watcher process's decisions, across all of its supervision cycles.
pub struct Supervisor {
    phase: Phase,
    degraded: bool,
    exit: ExitClassification,
    forwarded: Ghost<Seq<u8>>,
    cycles: Ghost<nat>,
}

impl View for Supervisor {
    type V = SupervisorState;

    closed spec fn view(&self) -> SupervisorState {
        SupervisorState {
            phase: self.phase,
            degraded: self.degraded,
            exit: self.exit,
            forwarded: self.forwarded@,
            cycles: self.cycles@,
        }
    }
}

impl Supervisor {
    /// A watcher about to start its first cycle, in full mode.
    pub fn new() -> (r: Supervisor)
        ensures
            r@ == initial_state(),
    {
        Supervisor {
            phase: Phase::PickingPorts,
            degraded: false,
            exit: ExitClassification::Running,
            forwarded: Ghost(Seq::empty()),
            cycles: Ghost(0),
        }
    }

    pub fn phase(&self) -> (r: Phase)
        ensures
            r == self@.phase,
    {
        self.phase
    }

    /// Whether the next child is to run in UI-only mode.
    pub fn degraded(&self) -> (r: bool)
        ensures
            r == self@.degraded,
    {
        self.degraded
    }

    /// How the current child exited, `Running` until its exit is seen.
    pub fn exit(&self) -> (r: ExitClassification)
        ensures
            r == self@.exit,
    {
        self.exit
    }

    /// What the caller is to do now.
    pub fn next_action(&self) -> (r: Action)
        ensures
            r == action_of(self@),
    {
        match self.phase {
            Phase::PickingPorts => Action::PickPorts,
            Phase::Launching(p) => Action::Launch { ports: p, ui_only: self.degraded },
            Phase::Relaying => if self.exit == ExitClassification::Running {
                Action::DrainChannel
            } else {
                Action::AwaitOutput
            },
            Phase::Forwarding(b) => Action::Forward(b),
            Phase::CheckingExit => Action::PollChild,
            Phase::AwaitingControlSignal => Action::ReadControlByte,
            Phase::Finished => Action::Exit,
        }
    }

    fn output_ended(&mut self)
        ensures
            final(self)@ == (SupervisorState { phase: phase_after_output(old(self)@.exit), ..old(self)@ }),
    {
        self.phase = match self.exit {
            ExitClassification::Running => Phase::CheckingExit,
            ExitClassification::CleanExit => Phase::Finished,
            ExitClassification::FaultyExit => Phase::AwaitingControlSignal,
        };
    }

    /// Takes in what happened and says what to do next.
    pub fn handle(&mut self, e: Event) -> (r: Action)
        ensures
            final(self)@ == step(old(self)@, e),
            r == action_of(final(self)@),
    {
        match (self.phase, e) {
            (Phase::PickingPorts, Event::PortsPicked(p)) => {
                if p.forward != 0 && p.back != 0 && p.forward != p.back {
                    self.phase = Phase::Launching(p);
                    self.cycles = Ghost(self.cycles@ + 1);
                }
            },
            (Phase::Launching(_), Event::Launched) => {
                self.phase = Phase::Relaying;
                self.exit = ExitClassification::Running;
            },
            (Phase::Relaying, Event::ByteAvailable(b)) => {
                self.phase = Phase::Forwarding(b);
            },
            (Phase::Relaying, Event::ChannelEmpty) => {
                if self.exit == ExitClassification::Running {
                    self.phase = Phase::CheckingExit;
                }
            },
            (Phase::Relaying, Event::ChannelClosed) => {
                self.output_ended();
            },
            (Phase::Forwarding(b), Event::Forwarded) => {
                self.phase = Phase::Relaying;
                self.forwarded = Ghost(self.forwarded@.push(b));
            },
            (Phase::Forwarding(_), Event::ForwardFailed) => {
                self.output_ended();
            },
            (Phase::CheckingExit, Event::ExitStatus(c)) => {
                self.phase = Phase::Relaying;
                self.exit = c;
                if c == ExitClassification::FaultyExit {
                    self.degraded = true;
                }
            },
            (Phase::AwaitingControlSignal, Event::ControlByte(r)) => {
                self.phase = Phase::PickingPorts;
                self.exit = ExitClassification::Running;
                if let Some(byte) = r {
                    if byte == RESUME_NORMAL {
                        self.degraded = false;
                    }
                }
            },
            _ => {},
        }
        self.next_action()
    }
}

/// The events of relaying `bytes` one after another, each written successfully.
pub open spec fn relay_events(bytes: Seq<u8>) -> Seq<Event>
    decreases bytes.len(),
{
    if bytes.len() == 0 {
        seq![]
    } else {
        seq![Event::ByteAvailable(bytes[0]), Event::Forwarded] + relay_events(bytes.drop_first())
    }
}

proof fn lemma_run_append(s: SupervisorState, a: Seq<Event>, b: Seq<Event>)
    ensures
        run(s, a + b) == run(run(s, a), b),
    decreases a.len(),
{
    if a.len() == 0 {
        assert(a + b =~= b);
    } else {
        assert((a + b)[0] == a[0]);
        assert((a + b).drop_first() =~= a.drop_first() + b);
        lemma_run_append(step(s, a[0]), a.drop_first(), b);
    }
}

proof fn lemma_run_two(s: SupervisorState, e1: Event, e2: Event)
    ensures
        run(s, seq![e1, e2]) == step(step(s, e1), e2),
{
    assert(seq![e1, e2].drop_first() =~= seq![e2]);
    assert(run(s, seq![e1, e2]) == run(step(s, e1), seq![e2]));
    lemma_run_one(step(s, e1), e2);
}

proof fn lemma_run_one(s: SupervisorState, e: Event)
    ensures
        run(s, seq![e]) == step(s, e),
{
    assert(seq![e].drop_first() =~= Seq::<Event>::empty());
    assert(run(s, seq![e]) == run(step(s, e), Seq::<Event>::empty()));
}

proof fn lemma_relay_log(s: SupervisorState, bytes: Seq<u8>)
    requires
        s.phase == Phase::Relaying,
    ensures
        run(s, relay_events(bytes)) == (SupervisorState { forwarded: s.forwarded + bytes, ..s }),
    decreases bytes.len(),
{
    if bytes.len() == 0 {
        assert(s.forwarded + bytes =~= s.forwarded);
    } else {
        let first = seq![Event::ByteAvailable(bytes[0]), Event::Forwarded];
        lemma_run_append(s, first, relay_events(bytes.drop_first()));
        lemma_run_two(s, Event::ByteAvailable(bytes[0]), Event::Forwarded);
        let t = SupervisorState { forwarded: s.forwarded.push(bytes[0]), ..s };
        lemma_relay_log(t, bytes.drop_first());
        assert(s.forwarded.push(bytes[0]) + bytes.drop_first() =~= s.forwarded + bytes);
    }
}

/// Relaying keeps the order of the child's output: bytes taken from the
/// channel and written without a failure are appended to what was forwarded
/// in the order they were taken, each is announced by a `Forward` action for
/// that very byte, and relaying goes on.
pub proof fn lemma_relay_preserves_order(s: SupervisorState, bytes: Seq<u8>)
    requires
        s.phase == Phase::Relaying,
    ensures
        run(s, relay_events(bytes)) == (SupervisorState { forwarded: s.forwarded + bytes, ..s }),
        forall|i: int|
            0 <= i < bytes.len() ==> action_of(
                #[trigger] run(s, relay_events(bytes.take(i)).push(Event::ByteAvailable(bytes[i]))),
            ) == Action::Forward(bytes[i]),
{
    lemma_relay_log(s, bytes);
    assert forall|i: int| 0 <= i < bytes.len() implies action_of(
        #[trigger] run(s, relay_events(bytes.take(i)).push(Event::ByteAvailable(bytes[i]))),
    ) == Action::Forward(bytes[i]) by {
        let before = relay_events(bytes.take(i));
        assert(before.push(Event::ByteAvailable(bytes[i])) =~= before + seq![Event::ByteAvailable(bytes[i])]);
        lemma_run_append(s, before, seq![Event::ByteAvailable(bytes[i])]);
        lemma_relay_log(s, bytes.take(i));
        lemma_run_one(run(s, before), Event::ByteAvailable(bytes[i]));
    }
}

/// A failed write ends the relaying of this pass: the bytes forwarded before
/// it stay as they were and in order, the byte that failed is not counted as
/// forwarded, and the watcher goes on as if the output had stopped (it polls
/// a running child, or concludes the exit it has seen).
pub proof fn lemma_failed_write_stops_relaying(s: SupervisorState, bytes: Seq<u8>, b: u8)
    requires
        s.phase == Phase::Relaying,
    ensures
        run(s, relay_events(bytes) + seq![Event::ByteAvailable(b), Event::ForwardFailed]) == (
        SupervisorState {
            phase: phase_after_output(s.exit),
            forwarded: s.forwarded + bytes,
            ..s
        }),
{
    lemma_relay_log(s, bytes);
    lemma_run_append(s, relay_events(bytes), seq![Event::ByteAvailable(b), Event::ForwardFailed]);
    lemma_run_two(run(s, relay_events(bytes)), Event::ByteAvailable(b), Event::ForwardFailed);
}

proof fn lemma_finished_absorbs(s: SupervisorState, events: Seq<Event>)
    requires
        s.phase == Phase::Finished,
    ensures
        run(s, events) == s,
    decreases events.len(),
{
    if events.len() > 0 {
        lemma_finished_absorbs(step(s, events[0]), events.drop_first());
    }
}

/// The watcher after its child is seen to exit with `exit`, the rest of the
/// child's output `bytes` is relayed, and the output channel closes.
pub open spec fn after_exit(s: SupervisorState, exit: ExitClassification, bytes: Seq<u8>) -> SupervisorState {
    run(s, seq![Event::ExitStatus(exit)] + relay_events(bytes) + seq![Event::ChannelClosed])
}

proof fn lemma_after_exit(s: SupervisorState, exit: ExitClassification, bytes: Seq<u8>)
    requires
        s.phase == Phase::CheckingExit,
        exit != ExitClassification::Running,
    ensures
        after_exit(s, exit, bytes) == (SupervisorState {
            phase: phase_after_output(exit),
            exit,
            degraded: exit == ExitClassification::FaultyExit || s.degraded,
            forwarded: s.forwarded + bytes,
            ..s
        }),
{
    let first = seq![Event::ExitStatus(exit)];
    let last = seq![Event::ChannelClosed];
    lemma_run_append(s, first + relay_events(bytes), last);
    lemma_run_append(s, first, relay_events(bytes));
    lemma_run_one(s, Event::ExitStatus(exit));
    lemma_relay_log(step(s, Event::ExitStatus(exit)), bytes);
    lemma_run_one(run(s, first + relay_events(bytes)), Event::ChannelClosed);
}

/// A clean exit of the child ends the watcher for good, once the rest of the
/// child's output has been relayed in order: it then asks only to exit, and
/// no later event starts another cycle, forwards a byte or changes anything
/// else.
pub proof fn lemma_clean_exit_is_final(s: SupervisorState, bytes: Seq<u8>, events: Seq<Event>)
    requires
        s.phase == Phase::CheckingExit,
    ensures
        after_exit(s, ExitClassification::CleanExit, bytes) == (SupervisorState {
            phase: Phase::Finished,
            exit: ExitClassification::CleanExit,
            forwarded: s.forwarded + bytes,
            ..s
        }),
        action_of(after_exit(s, ExitClassification::CleanExit, bytes)) == Action::Exit,
        run(after_exit(s, ExitClassification::CleanExit, bytes), events) == after_exit(
            s,
            ExitClassification::CleanExit,
            bytes,
        ),
{
    lemma_after_exit(s, ExitClassification::CleanExit, bytes);
    lemma_finished_absorbs(after_exit(s, ExitClassification::CleanExit, bytes), events);
}

/// A clean exit of the child is the one way the watcher finishes: it
/// finishes only after a clean exit was seen, and a clean exit is seen only
/// when a poll of the child reports one.
pub proof fn lemma_only_clean_exit_finishes(s: SupervisorState, e: Event)
    ensures
        s.phase != Phase::Finished && step(s, e).phase == Phase::Finished ==> s.exit
            == ExitClassification::CleanExit,
        s.exit != ExitClassification::CleanExit && step(s, e).exit == ExitClassification::CleanExit
            ==> s.phase == Phase::CheckingExit && e == Event::ExitStatus(
            ExitClassification::CleanExit,
        ),
{
}

/// The watcher after an unclean exit of its child, the relaying of the rest
/// of its output `bytes`, and the control read that follows.
pub open spec fn after_unclean_exit(s: SupervisorState, bytes: Seq<u8>, control: Option<u8>) -> SupervisorState {
    step(after_exit(s, ExitClassification::FaultyExit, bytes), Event::ControlByte(control))
}

/// After an unclean exit the watcher always starts a new cycle, whatever the
/// degraded-mode flag was and whatever came over the back channel: the rest
/// of the child's output is relayed in order first, then it asks for two
/// fresh ports, launches the next child on the pair it is given, and that
/// child runs UI-only unless the viewer sent `RESUME_NORMAL`.
pub proof fn lemma_faulty_exit_restarts(
    s: SupervisorState,
    bytes: Seq<u8>,
    control: Option<u8>,
    p: PortPair,
)
    requires
        s.phase == Phase::CheckingExit,
        p.usable(),
    ensures
        after_unclean_exit(s, bytes, control).phase == Phase::PickingPorts,
        action_of(after_unclean_exit(s, bytes, control)) == Action::PickPorts,
        after_unclean_exit(s, bytes, control).cycles == s.cycles,
        after_unclean_exit(s, bytes, control).forwarded == s.forwarded + bytes,
        after_unclean_exit(s, bytes, control).degraded == (control != Some(RESUME_NORMAL)),
        step(after_unclean_exit(s, bytes, control), Event::PortsPicked(p)).phase == Phase::Launching(p),
        step(after_unclean_exit(s, bytes, control), Event::PortsPicked(p)).cycles == s.cycles + 1,
        action_of(step(after_unclean_exit(s, bytes, control), Event::PortsPicked(p))) == (
        Action::Launch { ports: p, ui_only: control != Some(RESUME_NORMAL) }),
{
    lemma_after_exit(s, ExitClassification::FaultyExit, bytes);
}

/// The degraded-mode flag after the control read: `RESUME_NORMAL` clears it,
/// any other byte or a failed read leaves it as it was.
pub open spec fn flag_after_control(degraded: bool, control: Option<u8>) -> bool {
    if control == Some(RESUME_NORMAL) {
        false
    } else {
        degraded
    }
}

/// The control byte read after an unclean exit decides the mode of the next
/// launch: `RESUME_NORMAL` clears the degraded-mode flag, any other byte or a
/// failed read leaves it as it was.
pub proof fn lemma_control_byte_decides_mode(s: SupervisorState, control: Option<u8>, p: PortPair)
    requires
        s.phase == Phase::AwaitingControlSignal,
        p.usable(),
    ensures
        step(s, Event::ControlByte(control)).degraded == flag_after_control(s.degraded, control),
        action_of(step(step(s, Event::ControlByte(control)), Event::PortsPicked(p))) == (
        Action::Launch { ports: p, ui_only: flag_after_control(s.degraded, control) }),
{
}

} // verus!
