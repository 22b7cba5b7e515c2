//! Circular 16-bit phase arithmetic and the bounded correction toward a peer.
use vstd::prelude::*;

verus! {

/// Phase advance applied on every display tick.
pub const SPEED: u16 = 25;

/// The angular distance to a peer is divided by this before clamping.
pub const ADJUSTMENT_DIVISOR: u16 = 16;

/// Largest change that a single peer sample may cause.
pub const MAX_ACCELERATION: u16 = 128;

/// Half of the circle: distances up to this mean the peer is ahead.
pub const HALF_CIRCLE: u16 = 32767;

/// Number of distinct phase values.
pub open spec fn circle() -> int {
    0x10000
}

/// Forward (clockwise) distance from `own` to `peer` on the circle.
pub open spec fn forward_distance_spec(own: u16, peer: u16) -> int {
    (peer as int - own as int) % circle()
}

pub open spec fn min_int(a: int, b: int) -> int {
    if a <= b { a } else { b }
}

/// Signed correction that one peer sample causes: positive speeds up,
/// negative slows down.
pub open spec fn correction_spec(own: u16, peer: u16) -> int {
    let d = forward_distance_spec(own, peer);
    if d <= HALF_CIRCLE as int {
        min_int(d / ADJUSTMENT_DIVISOR as int, MAX_ACCELERATION as int)
    } else {
        -min_int((u16::MAX as int - d) / ADJUSTMENT_DIVISOR as int, MAX_ACCELERATION as int)
    }
}

/// `p` moved by `delta` around the circle.
pub open spec fn rotate(p: u16, delta: int) -> u16 {
    ((p as int + delta) % circle()) as u16
}

/// Forward distance from `own` to `peer`, in `0 .. 2^16`.
pub fn forward_distance(own: u16, peer: u16) -> (r: u16)
    ensures
        r as int == forward_distance_spec(own, peer),
{
    let r = peer.wrapping_sub(own);
    assert(r as int == forward_distance_spec(own, peer)) by {
        if peer >= own {
            assert(forward_distance_spec(own, peer) == peer - own);
        } else {
            assert(forward_distance_spec(own, peer) == peer - own + 0x10000);
        }
    }
    r
}

/// Signed correction toward `peer` for an oscillator at `own`.
pub fn correction(own: u16, peer: u16) -> (r: i32)
    ensures
        r as int == correction_spec(own, peer),
        -(MAX_ACCELERATION as int) <= r <= MAX_ACCELERATION as int,
{
    let d = forward_distance(own, peer);
    if d <= HALF_CIRCLE {
        let speedup = d / ADJUSTMENT_DIVISOR;
        let speedup = if speedup < MAX_ACCELERATION { speedup } else { MAX_ACCELERATION };
        speedup as i32
    } else {
        let slowdown = (u16::MAX - d) / ADJUSTMENT_DIVISOR;
        let slowdown = if slowdown < MAX_ACCELERATION { slowdown } else { MAX_ACCELERATION };
        -(slowdown as i32)
    }
}

/// A single correction never moves the phase by more than `MAX_ACCELERATION`
/// in either direction, whatever the two phases are.
pub proof fn lemma_correction_bounded(own: u16, peer: u16)
    ensures
        -(MAX_ACCELERATION as int) <= correction_spec(own, peer) <= MAX_ACCELERATION as int,
{
}

/// The correction follows the shorter arc: a peer ahead by half a circle or
/// less (and by at least one divisor step) speeds the oscillator up, a peer
/// behind slows it down, and a peer at the same phase changes nothing.
pub proof fn lemma_correction_direction(own: u16, peer: u16)
    ensures
        own == peer ==> correction_spec(own, peer) == 0,
        ADJUSTMENT_DIVISOR as int <= forward_distance_spec(own, peer) <= HALF_CIRCLE as int
            ==> correction_spec(own, peer) > 0,
        forward_distance_spec(own, peer) > HALF_CIRCLE as int
            && u16::MAX as int - forward_distance_spec(own, peer) >= ADJUSTMENT_DIVISOR as int
            ==> correction_spec(own, peer) < 0,
{
}

/// The local oscillator: one wrapping 16-bit phase.
pub struct PhaseOscillator {
    pub phase: u16,
}

impl PhaseOscillator {
    /// A fresh oscillator at phase zero.
    pub fn new() -> (r: Self)
        ensures
            r.phase == 0,
    {
        PhaseOscillator { phase: 0 }
    }

    /// The current phase.
    pub fn phase(&self) -> (r: u16)
        ensures
            r == self.phase,
    {
        self.phase
    }

    /// Advances the phase by the steady-state speed.
    pub fn tick(&mut self)
        ensures
            final(self).phase == rotate(old(self).phase, SPEED as int),
    {
        self.phase = self.phase.wrapping_add(SPEED);
    }

    /// Applies the bounded correction toward `peer`; returns the signed change.
    pub fn correct_toward(&mut self, peer: u16) -> (r: i32)
        ensures
            r as int == correction_spec(old(self).phase, peer),
            final(self).phase == rotate(old(self).phase, r as int),
    {
        let c = correction(self.phase, peer);
        if c >= 0 {
            self.phase = self.phase.wrapping_add(c as u16);
        } else {
            self.phase = self.phase.wrapping_sub((-c) as u16);
        }
        c
    }
}

} // verus!
