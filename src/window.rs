use vstd::prelude::*;
use crate::candle::Candle;

verus! {

/// How many candles a window keeps.
pub const CAPACITY: usize = 30;

/// `s` with `c` appended and, past the capacity, its oldest candle dropped.
pub open spec fn appended(s: Seq<Candle>, c: Candle) -> Seq<Candle> {
    if s.len() + 1 > CAPACITY {
        s.push(c).drop_first()
    } else {
        s.push(c)
    }
}

/// The window that ingesting `cs` in order into an empty window leaves.
pub open spec fn after_all(cs: Seq<Candle>) -> Seq<Candle>
    decreases cs.len(),
{
    if cs.len() == 0 {
        Seq::empty()
    } else {
        appended(after_all(cs.drop_last()), cs.last())
    }
}

/// The last `min(len, CAPACITY)` candles of `cs`.
pub open spec fn latest(cs: Seq<Candle>) -> Seq<Candle> {
    if cs.len() <= CAPACITY {
        cs
    } else {
        cs.subrange(cs.len() - CAPACITY, cs.len() as int)
    }
}

/// Candles whose times never decrease.
pub open spec fn time_ordered(cs: Seq<Candle>) -> bool {
    forall|i: int, j: int| 0 <= i <= j < cs.len() ==> #[trigger] cs[i].time <= #[trigger] cs[j].time
}

/// The bounded history of one instrument.
pub struct RollingWindow {
    pub candles: Vec<Candle>,
    /// Close of the newest candle minus close of the one before it; zero
    /// until a second candle arrives.
    pub last_delta: i64,
    /// Close of the newest candle, once there is one.
    pub last_price: Option<i64>,
}

impl RollingWindow {
    pub open spec fn view(&self) -> Seq<Candle> {
        self.candles@
    }

    /// At most the capacity, every candle well formed, and the last price
    /// the newest close.
    pub open spec fn wf(&self) -> bool {
        &&& self.candles@.len() <= CAPACITY
        &&& forall|i: int| 0 <= i < self.candles@.len() ==> #[trigger] self.candles@[i].wf()
        &&& self.last_price == (if self.candles@.len() == 0 {
            None::<i64>
        } else {
            Some(self.candles@.last().close)
        })
    }

    pub fn new() -> (w: RollingWindow)
        ensures
            w.wf(),
            w.view() == Seq::<Candle>::empty(),
            w.last_delta == 0,
            w.last_price.is_none(),
    {
        RollingWindow { candles: Vec::new(), last_delta: 0, last_price: None }
    }

    pub fn len(&self) -> (r: usize)
        ensures
            r == self.view().len(),
    {
        self.candles.len()
    }

    /// Appends a candle, dropping the oldest past the capacity, and records
    /// the change in close and the new last price.
    pub fn ingest(&mut self, c: Candle)
        requires
            old(self).wf(),
            c.wf(),
        ensures
            final(self).wf(),
            final(self).view() == appended(old(self).view(), c),
            final(self).last_delta == (if old(self).view().len() == 0 {
                old(self).last_delta as int
            } else {
                c.close - old(self).view().last().close
            }),
            final(self).last_price == Some(c.close),
    {
        let n = self.candles.len();
        if n > 0 {
            let prev = self.candles[n - 1].close;
            assert(self.candles@[n - 1].wf());
            self.last_delta = c.close - prev;
        }
        self.candles.push(c);
        if self.candles.len() > CAPACITY {
            self.candles.remove(0);
        }
        self.last_price = Some(c.close);
        proof {
            let s = old(self).view();
            assert(self.candles@ =~= appended(s, c));
            assert forall|i: int| 0 <= i < self.candles@.len() implies #[trigger] self.candles@[i].wf() by {
                if s.len() + 1 > CAPACITY {
                    assert(self.candles@[i] == s.push(c)[i + 1]);
                } else {
                    assert(self.candles@[i] == s.push(c)[i]);
                }
            }
        }
    }
}

/// Ingesting into an empty window keeps exactly the newest candles, at most
/// the capacity of them, oldest first.
pub proof fn lemma_window_keeps_latest(cs: Seq<Candle>)
    ensures
        after_all(cs) == latest(cs),
        after_all(cs).len() == if cs.len() <= CAPACITY { cs.len() } else { CAPACITY as nat },
    decreases cs.len(),
{
    if cs.len() > 0 {
        let init = cs.drop_last();
        lemma_window_keeps_latest(init);
        assert(after_all(cs) =~= latest(cs));
    }
}

/// With candles arriving in time order, the oldest retained candle's time
/// never decreases from one ingestion to the next.
pub proof fn lemma_oldest_time_advances(cs: Seq<Candle>, k: nat)
    requires
        time_ordered(cs),
        0 < k < cs.len(),
    ensures
        after_all(cs.take(k as int))[0].time <= after_all(cs.take((k + 1) as int))[0].time,
        time_ordered(after_all(cs.take(k as int))),
{
    lemma_window_keeps_latest(cs.take(k as int));
    lemma_window_keeps_latest(cs.take((k + 1) as int));
    let a = cs.take(k as int);
    let b = cs.take((k + 1) as int);
    let ia: int = if a.len() <= CAPACITY { 0 } else { a.len() - CAPACITY };
    let ib: int = if b.len() <= CAPACITY { 0 } else { b.len() - CAPACITY };
    assert(after_all(a)[0] == cs[ia]);
    assert(after_all(b)[0] == cs[ib]);
    assert forall|i: int, j: int| 0 <= i <= j < after_all(a).len() implies #[trigger] after_all(a)[i].time <= #[trigger] after_all(a)[j].time by {
        assert(after_all(a)[i] == cs[ia + i]);
        assert(after_all(a)[j] == cs[ia + j]);
    }
}

} // verus!

verus! {

/// One rolling window per instrument, indexed by instrument id.
pub struct WindowStore {
    pub windows: Vec<RollingWindow>,
}

impl WindowStore {
    pub open spec fn wf(&self) -> bool {
        forall|i: int| 0 <= i < self.windows@.len() ==> #[trigger] self.windows@[i].wf()
    }

    /// A store with an empty window for each of `count` instruments.
    pub fn new(count: usize) -> (st: WindowStore)
        ensures
            st.wf(),
            st.windows@.len() == count,
            forall|i: int| 0 <= i < count ==> (#[trigger] st.windows@[i]).view().len() == 0
                && st.windows@[i].last_delta == 0,
    {
        let mut windows: Vec<RollingWindow> = Vec::new();
        let mut k: usize = 0;
        while k < count
            invariant
                k <= count,
                windows@.len() == k,
                forall|i: int| 0 <= i < k ==> (#[trigger] windows@[i]).wf()
                    && windows@[i].view().len() == 0 && windows@[i].last_delta == 0,
            decreases count - k,
        {
            windows.push(RollingWindow::new());
            k = k + 1;
        }
        WindowStore { windows }
    }

    /// Ingests a candle into the window of instrument `id`; an id with no
    /// window leaves the store unchanged.
    pub fn ingest(&mut self, id: usize, c: Candle)
        requires
            old(self).wf(),
            c.wf(),
        ensures
            final(self).wf(),
            final(self).windows@.len() == old(self).windows@.len(),
            id >= old(self).windows@.len() ==> final(self).windows@ == old(self).windows@,
            id < old(self).windows@.len() ==> {
                let before = old(self).windows@[id as int];
                let after = final(self).windows@[id as int];
                &&& after.view() == appended(before.view(), c)
                &&& after.last_price == Some(c.close)
                &&& after.last_delta == (if before.view().len() == 0 {
                    before.last_delta as int
                } else {
                    c.close - before.view().last().close
                })
            },
            forall|j: int| 0 <= j < old(self).windows@.len() && j != id ==>
                #[trigger] final(self).windows@[j] == old(self).windows@[j],
    {
        if id < self.windows.len() {
            let mut w = self.windows.remove(id);
            assert(w.wf()) by {
                assert(w == old(self).windows@[id as int]);
            }
            w.ingest(c);
            self.windows.insert(id, w);
            proof {
                assert forall|j: int| 0 <= j < self.windows@.len() implies #[trigger] self.windows@[j].wf() by {
                    if j != id {
                        assert(self.windows@[j] == old(self).windows@[j]);
                    }
                }
            }
        }
    }
}

} // verus!
