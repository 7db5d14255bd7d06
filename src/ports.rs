//! Choosing the two loopback ports of one supervision cycle.
use vstd::prelude::*;

verus! {

/// How many times a second port is drawn when the draws keep colliding with the first.
pub const BACK_PORT_DRAWS: u32 = 16;

/// The two ports of one supervision cycle, as the watcher names them: the
/// forward port carries the child's output towards the viewer, the back port
/// carries the control byte from the viewer.
#[derive(Clone, Copy, Debug, PartialEq, Eq, Structural)]
pub struct PortPair {
    pub forward: u16,
    pub back: u16,
}

impl PortPair {
    /// Two distinct ports, neither of them the wildcard port `0`.
    pub open spec fn usable(self) -> bool {
        &&& self.forward != 0
        &&& self.back != 0
        &&& self.forward != self.back
    }

    /// Pairs two picked ports, refusing a pair that is not usable.
    pub fn new(forward: u16, back: u16) -> (r: Option<PortPair>)
        ensures
            r matches Some(p) ==> p.forward == forward && p.back == back,
            r is Some <==> (PortPair { forward, back }).usable(),
    {
        if forward != 0 && back != 0 && forward != back {
            Some(PortPair { forward, back })
        } else {
            None
        }
    }
}

/// Relies on portpicker::pick_unused_port: it probes the machine for a port
/// that is free at this moment and returns it, or `None` when it gives up.
/// Which port comes back depends on the machine, so nothing is promised of it.
#[verifier::external_body]
fn pick_unused_port() -> (r: Option<u16>) {
    portpicker::pick_unused_port()
}

/// What the broker does after drawing a candidate back port.
#[derive(Clone, Copy, Debug, PartialEq, Eq, Structural)]
pub enum BackDraw {
    /// The draw completes a usable pair.
    Pair(PortPair),
    /// The draw gave no port or collided with the forward port: draw again.
    DrawAgain,
    /// The draws are spent without a usable pair.
    GiveUp,
}

/// The decision after the back-port draw that follows `draws` earlier ones,
/// given the forward port and what the draw gave.
pub open spec fn back_draw_step(forward: u16, back: Option<u16>, draws: nat) -> BackDraw {
    if back is Some && (PortPair { forward, back: back->0 }).usable() {
        BackDraw::Pair(PortPair { forward, back: back->0 })
    } else if draws + 1 >= BACK_PORT_DRAWS {
        BackDraw::GiveUp
    } else {
        BackDraw::DrawAgain
    }
}

/// Decides on one back-port draw.
pub fn on_back_draw(forward: u16, back: Option<u16>, draws: u32) -> (r: BackDraw)
    requires
        draws < BACK_PORT_DRAWS,
    ensures
        r == back_draw_step(forward, back, draws as nat),
{
    if let Some(b) = back {
        if let Some(pair) = PortPair::new(forward, b) {
            return BackDraw::Pair(pair);
        }
    }
    if draws + 1 >= BACK_PORT_DRAWS {
        BackDraw::GiveUp
    } else {
        BackDraw::DrawAgain
    }
}

/// Picks a fresh usable pair of free ports, or `None` when the machine offers
/// none. The back port is drawn again while a draw gives no port or collides
/// with the forward one, at most `BACK_PORT_DRAWS` times (see `on_back_draw`).
pub fn pick_two_free_ports() -> (r: Option<PortPair>)
    ensures
        r matches Some(p) ==> p.usable(),
{
    let forward = match pick_unused_port() {
        Some(p) => p,
        None => return None,
    };
    let mut draws: u32 = 0;
    while draws < BACK_PORT_DRAWS
        decreases BACK_PORT_DRAWS - draws,
    {
        match on_back_draw(forward, pick_unused_port(), draws) {
            BackDraw::Pair(pair) => return Some(pair),
            BackDraw::GiveUp => return None,
            BackDraw::DrawAgain => {},
        }
        draws = draws + 1;
    }
    None
}

} // verus!
