//! The event bridge: one ordered queue of toolkit events, and a version
//! counter that tells waiters that something, whatever it was, has happened.
//!
//! The pump is the only producer. Each time the toolkit has been given a
//! chance to run, the pump hands over what it produced; the version moves and
//! everybody who waits is woken. Consumers race for the events: taking one
//! removes it, so each event reaches at most one of them.
use crate::event::{Event, EventStream};
use std::collections::VecDeque;
use vstd::prelude::*;

verus! {

/// The version a fresh event loop starts with.
pub const INITIAL_VERSION: u32 = 1;

/// The state of an event loop as plain values.
pub struct EventLoopModel<P, W> {
    /// Whoever waits for an event or for a change, in order of arrival.
    pub waiters: Seq<W>,
    /// The events that were produced and not yet consumed, oldest first.
    pub events: Seq<Event<P>>,
    /// Counts the runs of the pump; wraps around.
    pub version: u32,
}

impl<P, W> EventLoopModel<P, W> {
    /// A fresh event loop: no events, nobody waiting.
    pub open spec fn fresh() -> EventLoopModel<P, W> {
        EventLoopModel { waiters: Seq::empty(), events: Seq::empty(), version: INITIAL_VERSION }
    }

    /// The state after one run of the pump that produced `produced`: the new
    /// events queue up behind the old ones, the version moves, and nobody
    /// waits any more, since all were woken.
    pub open spec fn pumped(self, produced: Seq<Event<P>>) -> EventLoopModel<P, W> {
        EventLoopModel {
            waiters: Seq::empty(),
            events: self.events + produced,
            version: self.version.wrapping_add(1),
        }
    }

    /// Whether somebody who saw version `seen` has something new to look at.
    pub open spec fn has_changed(self, seen: u32) -> bool {
        self.version != seen
    }

    /// The state after `runs` runs of the pump that produced nothing.
    pub open spec fn pumped_times(self, runs: nat) -> EventLoopModel<P, W>
        decreases runs,
    {
        if runs == 0 {
            self
        } else {
            self.pumped_times((runs - 1) as nat).pumped(Seq::empty())
        }
    }

    /// Events come out in the order in which they went in: what two runs of
    /// the pump produce queues up as the first batch followed by the second,
    /// behind what was pending before.
    pub proof fn lemma_fifo(self, first: Seq<Event<P>>, second: Seq<Event<P>>)
        ensures
            self.pumped(first).pumped(second).events == self.events + first + second,
            self.events.len() > 0 ==> self.pumped(first).events[0] == self.events[0],
    {
        assert(self.events + first + second =~= (self.events + first) + second);
    }

    /// A change is seen as soon as the pump has run once, and any number of
    /// runs between two looks is seen as one change: after `runs` runs the
    /// version differs from the one seen before, unless the counter has
    /// gone all the way round.
    pub proof fn lemma_changes_coalesce(self, runs: nat)
        ensures
            self.pumped_times(runs).version as int == (self.version + runs) % 0x1_0000_0000,
            0 < runs < 0x1_0000_0000 ==> self.pumped_times(runs).has_changed(self.version),
            !self.pumped_times(0).has_changed(self.version),
        decreases runs,
    {
        if runs > 0 {
            self.lemma_changes_coalesce((runs - 1) as nat);
        }
    }
}

/// The state that an event loop shares with its pump.
pub struct XEventLoopData<P, W> {
    waiters: Vec<W>,
    events: VecDeque<Event<P>>,
    version: u32,
}

impl<P, W> View for XEventLoopData<P, W> {
    type V = EventLoopModel<P, W>;

    closed spec fn view(&self) -> EventLoopModel<P, W> {
        EventLoopModel { waiters: self.waiters@, events: self.events@, version: self.version }
    }
}

impl<P, W> XEventLoopData<P, W> {
    /// A fresh event loop.
    pub fn new() -> (data: XEventLoopData<P, W>)
        ensures
            data@ == EventLoopModel::<P, W>::fresh(),
    {
        XEventLoopData { waiters: Vec::new(), events: VecDeque::new(), version: INITIAL_VERSION }
    }

    /// Takes over what one run of the pump produced.
    ///
    /// The events queue up in the order given, the version moves, and
    /// everybody who waits is returned to be woken, once.
    pub fn pump(&mut self, produced: Vec<Event<P>>) -> (wake: Vec<W>)
        ensures
            wake@ == old(self)@.waiters,
            final(self)@ == old(self)@.pumped(produced@),
    {
        let ghost all = produced@;
        let ghost before = self.events@;
        assert(all.take(0) =~= Seq::<Event<P>>::empty());
        assert(before + all.take(0) =~= before);
        for event in it: produced
            invariant
                it.seq() == all,
                self.events@ == before + all.take(it.index() as int),
                self.waiters == old(self).waiters,
                self.version == old(self).version,
        {
            proof {
                assert(all.take(it.index() as int + 1) =~= all.take(it.index() as int).push(event));
                assert((before + all.take(it.index() as int)).push(event) =~= before + all.take(
                    it.index() as int + 1,
                ));
            }
            self.events.push_back(event);
        }
        assert(all.take(all.len() as int) =~= all);
        self.version = self.version.wrapping_add(1);
        let mut wake: Vec<W> = Vec::new();
        std::mem::swap(&mut wake, &mut self.waiters);
        wake
    }

    /// One poll of somebody who waits for the next event.
    ///
    /// Returns the oldest pending event and removes it from the queue. If
    /// nothing is pending, `waiter` joins those to be woken by the pump.
    pub fn poll_event(&mut self, waiter: W) -> (event: Option<Event<P>>)
        ensures
            ({
                let before = old(self)@;
                if before.events.len() > 0 {
                    event == Some(before.events[0]) && final(self)@ == (EventLoopModel {
                        events: before.events.skip(1),
                        ..before
                    })
                } else {
                    event.is_none() && final(self)@ == (EventLoopModel {
                        waiters: before.waiters.push(waiter),
                        ..before
                    })
                }
            }),
    {
        match self.events.pop_front() {
            Some(event) => {
                assert(self.events@ =~= old(self).events@.skip(1));
                Some(event)
            },
            None => {
                self.waiters.push(waiter);
                None
            },
        }
    }

    /// Returns the current version, to be shown again when waiting for the
    /// next change.
    pub fn version(&self) -> (version: u32)
        ensures
            version == self@.version,
    {
        self.version
    }

    /// One poll of somebody who waits for a change and last saw version
    /// `seen`.
    ///
    /// Returns `true` if the pump has run since. Otherwise `waiter` joins
    /// those to be woken by the pump.
    pub fn poll_changed(&mut self, seen: u32, waiter: W) -> (ready: bool)
        ensures
            ready == old(self)@.has_changed(seen),
            final(self)@ == if ready {
                old(self)@
            } else {
                EventLoopModel { waiters: old(self)@.waiters.push(waiter), ..old(self)@ }
            },
    {
        if self.version != seen {
            true
        } else {
            self.waiters.push(waiter);
            false
        }
    }
}

impl<P, W> EventStream<P> for XEventLoopData<P, W> {
    open spec fn pending(&self) -> Seq<Event<P>> {
        self@.events
    }

    fn event(&mut self) -> (event: Option<Event<P>>)
        ensures
            final(self)@.waiters == old(self)@.waiters,
            final(self)@.version == old(self)@.version,
    {
        match self.events.pop_front() {
            Some(event) => {
                assert(self.events@ =~= old(self).events@.skip(1));
                Some(event)
            },
            None => None,
        }
    }

    /// An event loop never runs dry for good: the pump may always produce
    /// more.
    fn has_more(&self) -> (more: bool)
        ensures
            more,
    {
        true
    }
}

} // verus!
