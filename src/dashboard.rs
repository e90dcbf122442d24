use vstd::prelude::*;
use crate::candle::Candle;
use crate::window::{WindowStore, appended};

verus! {

/// Which instrument is shown; the index cycles through `count` instruments.
#[derive(Clone, Copy, Debug, PartialEq, Eq, Structural)]
pub struct SelectionState {
    pub selected: usize,
    pub count: usize,
}

impl SelectionState {
    pub open spec fn wf(&self) -> bool {
        self.selected < self.count
    }

    /// The first of `count` instruments selected.
    pub fn new(count: usize) -> (s: SelectionState)
        requires
            count > 0,
        ensures
            s.wf(),
            s.selected == 0,
            s.count == count,
    {
        SelectionState { selected: 0, count }
    }

    /// Moves to the next instrument, from the last back to the first.
    pub fn select_next(&mut self)
        requires
            old(self).wf(),
        ensures
            final(self).wf(),
            final(self).count == old(self).count,
            final(self).selected == (old(self).selected + 1) % (old(self).count as int),
    {
        self.selected = if self.selected + 1 == self.count { 0 } else { self.selected + 1 };
        proof {
            let n = old(self).count as int;
            let k = old(self).selected as int + 1;
            if k == n {
                vstd::arithmetic::div_mod::lemma_mod_self_0(n);
            } else {
                vstd::arithmetic::div_mod::lemma_small_mod(k as nat, n as nat);
            }
        }
    }

    /// Moves to the previous instrument, from the first back to the last.
    pub fn select_previous(&mut self)
        requires
            old(self).wf(),
        ensures
            final(self).wf(),
            final(self).count == old(self).count,
            final(self).selected == (if old(self).selected == 0 {
                old(self).count - 1
            } else {
                old(self).selected - 1
            }),
    {
        self.selected = if self.selected == 0 { self.count - 1 } else { self.selected - 1 };
    }
}

/// A key event as the dashboard sees it.
#[derive(Clone, Copy, Debug, PartialEq, Eq, Structural)]
pub enum Key {
    Up,
    Down,
    Tab,
    Quit,
    Other,
}

/// What the producer hands to the dashboard.
#[derive(Clone, Copy, Debug, PartialEq, Eq, Structural)]
pub enum Message {
    Tick(usize, Candle),
    Shutdown,
}

#[derive(Clone, Copy, Debug, PartialEq, Eq, Structural)]
pub enum Phase {
    Running,
    Shutdown,
}

/// What the loop around the dashboard must do after a key.
#[derive(Clone, Copy, Debug, PartialEq, Eq, Structural)]
pub enum Action {
    /// Render and poll again.
    Continue,
    /// Tell the producer to stop, and leave the loop.
    StopProducer,
}

/// The consumer side: the windows, the selection and the loop's phase.
pub struct Dashboard {
    pub store: WindowStore,
    pub selection: SelectionState,
    pub phase: Phase,
}

impl Dashboard {
    pub open spec fn wf(&self) -> bool {
        &&& self.store.wf()
        &&& self.selection.wf()
        &&& self.selection.count == self.store.windows@.len()
    }

    /// A running dashboard over `count` empty windows, the first selected.
    pub fn new(count: usize) -> (d: Dashboard)
        requires
            count > 0,
        ensures
            d.wf(),
            d.phase == Phase::Running,
            d.selection.selected == 0,
            d.store.windows@.len() == count,
            forall|i: int| 0 <= i < count ==> (#[trigger] d.store.windows@[i]).view().len() == 0,
    {
        Dashboard { store: WindowStore::new(count), selection: SelectionState::new(count), phase: Phase::Running }
    }

    /// Whether the loop is still running.
    pub fn is_running(&self) -> (r: bool)
        ensures
            r == (self.phase == Phase::Running),
    {
        self.phase == Phase::Running
    }

    /// Applies one message from the producer. A tick is ingested only while
    /// running; a shutdown message ends the loop.
    pub fn receive(&mut self, msg: Message)
        requires
            old(self).wf(),
            msg matches Message::Tick(_, c) ==> c.wf(),
        ensures
            final(self).wf(),
            final(self).selection == old(self).selection,
            old(self).phase == Phase::Shutdown ==> final(self).phase == Phase::Shutdown
                && final(self).store.windows@ == old(self).store.windows@,
            old(self).phase == Phase::Running ==> match msg {
                Message::Shutdown => final(self).phase == Phase::Shutdown
                    && final(self).store.windows@ == old(self).store.windows@,
                Message::Tick(id, c) => final(self).phase == Phase::Running
                    && final(self).store.windows@.len() == old(self).store.windows@.len()
                    && (id < old(self).store.windows@.len() ==> {
                        let before = old(self).store.windows@[id as int];
                        let after = final(self).store.windows@[id as int];
                        &&& after.view() == appended(before.view(), c)
                        &&& after.last_price == Some(c.close)
                        &&& after.last_delta == (if before.view().len() == 0 {
                            before.last_delta as int
                        } else {
                            c.close - before.view().last().close
                        })
                    })
                    && (forall|j: int| 0 <= j < old(self).store.windows@.len() && j != id ==>
                        #[trigger] final(self).store.windows@[j] == old(self).store.windows@[j])
                    && (id >= old(self).store.windows@.len() ==>
                        final(self).store.windows@ == old(self).store.windows@),
            },
    {
        if self.phase == Phase::Running {
            match msg {
                Message::Tick(id, c) => self.store.ingest(id, c),
                Message::Shutdown => self.phase = Phase::Shutdown,
            }
        }
    }

    /// Reacts to a key: Down and Up cycle the selection, Quit ends the loop
    /// and asks for the producer to be stopped; other keys, and any key once
    /// shut down, change nothing.
    pub fn press(&mut self, key: Key) -> (a: Action)
        requires
            old(self).wf(),
        ensures
            final(self).wf(),
            final(self).store.windows@ == old(self).store.windows@,
            old(self).phase == Phase::Shutdown ==> *final(self) == *old(self) && a == Action::Continue,
            old(self).phase == Phase::Running ==> match key {
                Key::Quit => final(self).phase == Phase::Shutdown && a == Action::StopProducer
                    && final(self).selection == old(self).selection,
                Key::Down => final(self).phase == Phase::Running && a == Action::Continue
                    && final(self).selection.selected
                        == (old(self).selection.selected + 1) % (old(self).selection.count as int),
                Key::Up => final(self).phase == Phase::Running && a == Action::Continue
                    && final(self).selection.selected == (if old(self).selection.selected == 0 {
                        old(self).selection.count - 1
                    } else {
                        old(self).selection.selected - 1
                    }),
                _ => final(self).phase == Phase::Running && a == Action::Continue
                    && final(self).selection == old(self).selection,
            },
    {
        if self.phase == Phase::Shutdown {
            return Action::Continue;
        }
        match key {
            Key::Quit => {
                self.phase = Phase::Shutdown;
                Action::StopProducer
            },
            Key::Down => {
                self.selection.select_next();
                Action::Continue
            },
            Key::Up => {
                self.selection.select_previous();
                Action::Continue
            },
            _ => Action::Continue,
        }
    }
}

} // verus!
