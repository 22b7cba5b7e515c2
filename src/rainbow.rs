//! The phase synchroniser: on each event it renders and advances the phase,
//! reports it to local consumers, or corrects it toward a peer's sample.
//!
//! The caller owns the timers and the waiting: it turns whichever of the
//! display tick, the report tick or a peer sample comes first into a
//! `SyncEvent` and performs the `SyncAction` that comes back.
use vstd::prelude::*;
use crate::mailbox::{publish_outcome, recv_outcome, send_outcome, LatestCell, Mailbox};
use crate::phase::{correction_spec, rotate, PhaseOscillator, SPEED};

verus! {

/// Period of the display tick in milliseconds (25 frames a second).
pub const DISPLAY_INTERVAL_MS: u64 = 40;

/// Period of the report tick in milliseconds.
pub const UPDATE_INTERVAL_MS: u64 = 1000;

/// What woke the synchroniser.
#[derive(Debug, Clone, Copy, PartialEq, Eq, Structural)]
pub enum SyncEvent {
    DisplayTick,
    ReportTick,
    PeerSample(u16),
}

/// What the synchroniser did, and what the caller has to carry out.
#[derive(Debug, Clone, Copy, PartialEq, Eq, Structural)]
pub enum SyncAction {
    /// Show this hue on the LED.
    Display(u16),
    /// This phase was published to the reporter.
    Reported(u16),
    /// The phase was moved by this signed amount.
    Corrected(i32),
}

/// Hands peer samples to the synchroniser; backpressured, one pending sample.
pub struct HueAdjuster {
    inbox: Mailbox<u16>,
}

impl View for HueAdjuster {
    type V = Option<u16>;

    closed spec fn view(&self) -> Option<u16> {
        self.inbox@
    }
}

impl HueAdjuster {
    /// An adjuster with no pending sample.
    pub fn new() -> (r: Self)
        ensures
            r@ is None,
    {
        HueAdjuster { inbox: Mailbox::new() }
    }

    /// Offers a peer's hue; while one is still pending it is handed back and
    /// the caller waits.
    pub fn adjust(&mut self, other_hue: u16) -> (r: Result<(), u16>)
        ensures
            (final(self)@, r) == send_outcome(old(self)@, other_hue),
    {
        self.inbox.try_send(other_hue)
    }

    /// Takes the pending sample for the synchroniser.
    pub fn take(&mut self) -> (r: Option<u16>)
        ensures
            (final(self)@, r) == recv_outcome(old(self)@),
    {
        self.inbox.try_recv()
    }
}

/// Carries the current hue to local consumers; latest wins, never blocks.
pub struct HueReporter {
    cell: LatestCell<u16>,
}

impl View for HueReporter {
    type V = Option<u16>;

    closed spec fn view(&self) -> Option<u16> {
        self.cell@
    }
}

impl HueReporter {
    /// A reporter with nothing to read.
    pub fn new() -> (r: Self)
        ensures
            r@ is None,
    {
        HueReporter { cell: LatestCell::new() }
    }

    /// Publishes `hue`, replacing a report not yet read.
    pub fn report(&mut self, hue: u16)
        ensures
            final(self)@ == publish_outcome(old(self)@, hue),
    {
        self.cell.publish(hue)
    }

    /// Reads the latest report, if one came since the last read.
    pub fn recv(&mut self) -> (r: Option<u16>)
        ensures
            (final(self)@, r) == recv_outcome(old(self)@),
    {
        self.cell.take()
    }
}

/// Phase after `event` on an oscillator at `phase`.
pub open spec fn next_phase(phase: u16, event: SyncEvent) -> u16 {
    match event {
        SyncEvent::DisplayTick => rotate(phase, SPEED as int),
        SyncEvent::ReportTick => phase,
        SyncEvent::PeerSample(peer) => rotate(phase, correction_spec(phase, peer)),
    }
}

/// The synchroniser's state: the local oscillator.
pub struct PhaseSynchronizer {
    pub oscillator: PhaseOscillator,
}

impl PhaseSynchronizer {
    /// A synchroniser whose oscillator starts at phase zero.
    pub fn new() -> (r: Self)
        ensures
            r.oscillator.phase == 0,
    {
        PhaseSynchronizer { oscillator: PhaseOscillator::new() }
    }

    /// Handles one event. A display tick shows the current phase and then
    /// advances it; a report tick publishes it; a peer sample corrects it.
    pub fn step(&mut self, event: SyncEvent, reporter: &mut HueReporter) -> (r: SyncAction)
        ensures
            final(self).oscillator.phase == next_phase(old(self).oscillator.phase, event),
            match event {
                SyncEvent::DisplayTick => r == SyncAction::Display(old(self).oscillator.phase)
                    && final(reporter)@ == old(reporter)@,
                SyncEvent::ReportTick => r == SyncAction::Reported(old(self).oscillator.phase)
                    && final(reporter)@ == publish_outcome(old(reporter)@, old(self).oscillator.phase),
                SyncEvent::PeerSample(peer) => r is Corrected
                    && r->Corrected_0 as int == correction_spec(old(self).oscillator.phase, peer)
                    && final(reporter)@ == old(reporter)@,
            },
    {
        match event {
            SyncEvent::DisplayTick => {
                let hue = self.oscillator.phase();
                self.oscillator.tick();
                SyncAction::Display(hue)
            },
            SyncEvent::ReportTick => {
                let hue = self.oscillator.phase();
                reporter.report(hue);
                SyncAction::Reported(hue)
            },
            SyncEvent::PeerSample(peer) => {
                let c = self.oscillator.correct_toward(peer);
                SyncAction::Corrected(c)
            },
        }
    }
}

/// Sets up an animation at phase zero with an empty reporter and adjuster.
pub fn start_animation() -> (r: (HueReporter, HueAdjuster, PhaseSynchronizer))
    ensures
        r.0@ is None,
        r.1@ is None,
        r.2.oscillator.phase == 0,
{
    (HueReporter::new(), HueAdjuster::new(), PhaseSynchronizer::new())
}

} // verus!
