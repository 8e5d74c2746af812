//! Debounced persistence of the light state: a state is written to flash only once no newer
//! state has arrived for the debounce delay, so a burst of changes costs one write.

use vstd::prelude::*;

verus! {

/// What the persistence loop waits for next.
#[derive(Clone, Copy, Debug, PartialEq, Eq, Structural)]
pub enum PersistenceWait {
    /// Nothing is pending: wait for a state to arrive.
    NextState,
    /// A state is pending: wait for a newer state or for the debounce delay to pass.
    NextStateOrDelay,
}

/// What woke the persistence loop.
#[derive(Clone, Copy, Debug)]
pub enum PersistenceEvent<T> {
    /// A new state arrived.
    Received(T),
    /// The debounce delay passed without a newer state.
    DelayElapsed,
}

/// The state of the debouncer: the state waiting to be written, if any.
#[derive(Clone, Copy, Debug)]
pub struct PersistenceDebouncer<T> {
    pub pending: Option<T>,
}

impl<T: Copy> PersistenceDebouncer<T> {
    /// A debouncer with nothing pending.
    pub fn new() -> (d: Self)
        ensures
            d.pending is None,
    {
        PersistenceDebouncer { pending: None }
    }

    /// What to wait for: only a new state while nothing is pending, otherwise a new state or
    /// the end of the debounce delay.
    pub fn waiting_for(&self) -> (w: PersistenceWait)
        ensures
            w == if self.pending is None {
                PersistenceWait::NextState
            } else {
                PersistenceWait::NextStateOrDelay
            },
    {
        match self.pending {
            None => PersistenceWait::NextState,
            Some(_) => PersistenceWait::NextStateOrDelay,
        }
    }

    /// Take an event: a new state replaces the pending one and restarts the delay; the end of
    /// the delay hands back the pending state to be written and clears it.
    pub fn on_event(&mut self, event: PersistenceEvent<T>) -> (save: Option<T>)
        ensures
            match event {
                PersistenceEvent::Received(s) => final(self).pending == Some(s) && save is None,
                PersistenceEvent::DelayElapsed => final(self).pending is None && save
                    == old(self).pending,
            },
    {
        match event {
            PersistenceEvent::Received(s) => {
                self.pending = Some(s);
                None
            },
            PersistenceEvent::DelayElapsed => {
                let save = self.pending;
                self.pending = None;
                save
            },
        }
    }
}

} // verus!
