//! Single-slot hand-offs between one producer and one consumer.
//!
//! `Mailbox` is backpressured: a producer facing a full slot gets its item
//! back and must wait until the consumer has taken the pending one.
//! `LatestCell` never refuses: a new value replaces an unread one.
use vstd::prelude::*;

verus! {

/// Slot after offering `item` to a mailbox holding `slot`, and what the
/// producer gets back.
pub open spec fn send_outcome<T>(slot: Option<T>, item: T) -> (Option<T>, Result<(), T>) {
    match slot {
        Some(_) => (slot, Err(item)),
        None => (Some(item), Ok(())),
    }
}

/// Slot after the consumer takes from `slot`, and what it gets.
pub open spec fn recv_outcome<T>(slot: Option<T>) -> (Option<T>, Option<T>) {
    (None, slot)
}

/// Contents of a latest-wins cell after `value` is published into `slot`.
pub open spec fn publish_outcome<T>(slot: Option<T>, value: T) -> Option<T> {
    Some(value)
}

/// A backpressured mailbox of capacity one.
pub struct Mailbox<T> {
    slot: Option<T>,
}

impl<T> View for Mailbox<T> {
    type V = Option<T>;

    closed spec fn view(&self) -> Option<T> {
        self.slot
    }
}

impl<T> Mailbox<T> {
    /// An empty mailbox.
    pub fn new() -> (r: Self)
        ensures
            r@ is None,
    {
        Mailbox { slot: None }
    }

    /// Whether an item is waiting to be taken.
    pub fn is_full(&self) -> (r: bool)
        ensures
            r == self@ is Some,
    {
        self.slot.is_some()
    }

    /// Offers `item`; a full mailbox hands it back unchanged and keeps the
    /// pending item, so the producer has to wait and offer it again.
    pub fn try_send(&mut self, item: T) -> (r: Result<(), T>)
        ensures
            (final(self)@, r) == send_outcome(old(self)@, item),
    {
        if self.slot.is_some() {
            Err(item)
        } else {
            self.slot = Some(item);
            Ok(())
        }
    }

    /// Takes the pending item, if any, and frees the slot.
    pub fn try_recv(&mut self) -> (r: Option<T>)
        ensures
            (final(self)@, r) == recv_outcome(old(self)@),
    {
        self.slot.take()
    }
}

/// A latest-wins cell of capacity one: publishing never blocks.
pub struct LatestCell<T> {
    slot: Option<T>,
}

impl<T> View for LatestCell<T> {
    type V = Option<T>;

    closed spec fn view(&self) -> Option<T> {
        self.slot
    }
}

impl<T> LatestCell<T> {
    /// An empty cell.
    pub fn new() -> (r: Self)
        ensures
            r@ is None,
    {
        LatestCell { slot: None }
    }

    /// Stores `value`, replacing any value not yet taken.
    pub fn publish(&mut self, value: T)
        ensures
            final(self)@ == publish_outcome(old(self)@, value),
    {
        self.slot = Some(value);
    }

    /// Takes the latest value, if any, and empties the cell.
    pub fn take(&mut self) -> (r: Option<T>)
        ensures
            (final(self)@, r) == recv_outcome(old(self)@),
    {
        self.slot.take()
    }
}

/// Two offers in a row to an empty mailbox: the first is accepted, the second is
/// handed back and the first stays pending; once the consumer has taken the
/// first, the second is accepted.
pub proof fn lemma_backpressure<T>(first: T, second: T)
    ensures
        send_outcome(None, first) == (Some(first), Ok::<(), T>(())),
        send_outcome(Some(first), second) == (Some(first), Err::<(), T>(second)),
        recv_outcome(Some(first)) == (None::<T>, Some(first)),
        send_outcome(None, second) == (Some(second), Ok::<(), T>(())),
{
}

/// Publishing two values before the consumer reads leaves only the second,
/// whatever the cell held before.
pub proof fn lemma_latest_wins<T>(before: Option<T>, first: T, second: T)
    ensures
        publish_outcome(publish_outcome(before, first), second) == Some(second),
{
}

} // verus!
