//! The hand-off between the background polling task and the render loop,
//! and the state hub that owns the list currently shown.
//!
//! The hand-off is a single slot with a latest-wins policy: publishing
//! drops any undelivered previous result, and draining is non-blocking.
//! The hub replaces its held list atomically when a fresh one is drained
//! and keeps it unchanged otherwise, so a failed or absent fetch leaves
//! the board stale but intact.
use vstd::prelude::*;

use crate::classify::{spec_classify, classify, Classified, ClassifiedView};
use crate::record::{FetchError, Train, TrainView};

verus! {

/// The single-slot hand-off channel from the polling task to the render
/// loop. It never holds more than one undelivered record list.
pub struct HandOff {
    pub slot: Option<Vec<Train>>,
}

impl View for HandOff {
    type V = Option<Seq<TrainView>>;

    open spec fn view(&self) -> Option<Seq<TrainView>> {
        match self.slot {
            Some(l) => Some(l.deep_view()),
            None => None,
        }
    }
}

/// The slot after a publish: exactly the fresh list, whatever was
/// pending before — the latest-wins policy in one line.
pub open spec fn slot_after_publish(
    slot: Option<Seq<TrainView>>,
    fresh: Seq<TrainView>,
) -> Option<Seq<TrainView>> {
    Some(fresh)
}

/// The slot after a drain: empty.
pub open spec fn slot_after_drain(slot: Option<Seq<TrainView>>) -> Option<Seq<TrainView>> {
    None
}

/// What a drain observes: the pending list, if any.
pub open spec fn drained_value(slot: Option<Seq<TrainView>>) -> Option<Seq<TrainView>> {
    slot
}

impl HandOff {
    /// A fresh hand-off with nothing pending.
    pub fn new() -> (h: HandOff)
        ensures
            h@ is None,
    {
        HandOff { slot: None }
    }

    /// Publish a freshly fetched list. Latest-wins: an undelivered
    /// previous list is dropped, never queued behind the new one.
    pub fn publish(&mut self, fresh: Vec<Train>)
        ensures
            final(self)@ == slot_after_publish(old(self)@, fresh.deep_view()),
    {
        self.slot = Some(fresh);
    }

    /// Non-blocking drain: take the pending list if one is there,
    /// leaving the slot empty either way.
    pub fn drain(&mut self) -> (r: Option<Vec<Train>>)
        ensures
            final(self)@ == slot_after_drain(old(self)@),
            r.deep_view() == drained_value(old(self)@),
    {
        self.slot.take()
    }

    /// One fetch cycle's effect on the hand-off: a successful fetch
    /// publishes the full replacement list; a failed one — transport or
    /// decode, treated alike — is skipped and leaves the slot untouched.
    pub fn apply_fetch(&mut self, outcome: Result<Vec<Train>, FetchError>)
        ensures
            outcome matches Ok(fresh) ==> final(self)@ == slot_after_publish(
                old(self)@,
                fresh.deep_view(),
            ),
            outcome is Err ==> *final(self) == *old(self),
    {
        match outcome {
            Ok(fresh) => self.publish(fresh),
            Err(_) => (),
        }
    }
}

/// The list the hub holds after one render tick that drained `slot`:
/// a fresh list replaces the held one; an empty slot keeps it.
pub open spec fn hub_trains_after_tick(
    held: Seq<TrainView>,
    slot: Option<Seq<TrainView>>,
) -> Seq<TrainView> {
    match slot {
        Some(fresh) => fresh,
        None => held,
    }
}

/// The classified display state of every record of a list, in order.
pub open spec fn spec_render(trains: Seq<TrainView>) -> Seq<ClassifiedView> {
    trains.map(|i: int, t: TrainView| spec_classify(t))
}

/// The state hub: owner of the latest known record list. All mutation
/// happens on the render loop's own thread of control; the hub never
/// blocks waiting for fresh data.
pub struct StateHub {
    pub trains: Vec<Train>,
}

impl StateHub {
    /// A hub holding the empty list, the state before any fetch landed.
    pub fn new() -> (h: StateHub)
        ensures
            h.trains.deep_view() == Seq::<TrainView>::empty(),
    {
        StateHub { trains: Vec::new() }
    }

    /// One render tick's state update: drain the hand-off without
    /// blocking; a fresh list replaces the held one atomically, and an
    /// empty slot leaves the hub exactly as it was.
    pub fn tick(&mut self, hand: &mut HandOff)
        ensures
            final(hand)@ is None,
            final(self).trains.deep_view() == hub_trains_after_tick(
                old(self).trains.deep_view(),
                old(hand)@,
            ),
            old(hand)@ is None ==> *final(self) == *old(self),
    {
        match hand.drain() {
            Some(fresh) => {
                self.trains = fresh;
            },
            None => (),
        }
    }

    /// Classify every held record, in order: the computation the render
    /// adapter consumes on each tick. An empty list renders nothing.
    pub fn render_states(&self) -> (out: Vec<Classified>)
        ensures
            out.deep_view() == spec_render(self.trains.deep_view()),
    {
        let mut out: Vec<Classified> = Vec::new();
        let n = self.trains.len();
        let mut i: usize = 0;
        while i < n
            invariant
                n == self.trains.len(),
                0 <= i <= n,
                out.len() == i,
                forall|k: int| 0 <= k < i ==> out.deep_view()[k] == spec_classify(
                    #[trigger] self.trains.deep_view()[k],
                ),
            decreases n - i,
        {
            let c = classify(&self.trains[i]);
            out.push(c);
            i = i + 1;
        }
        proof {
            assert(out.deep_view() =~= spec_render(self.trains.deep_view()));
        }
        out
    }

    /// Everything one render tick computes: drain the hand-off, keep or
    /// replace the held list, and classify every record now held.
    pub fn render_tick(&mut self, hand: &mut HandOff) -> (out: Vec<Classified>)
        ensures
            final(hand)@ is None,
            final(self).trains.deep_view() == hub_trains_after_tick(
                old(self).trains.deep_view(),
                old(hand)@,
            ),
            old(hand)@ is None ==> *final(self) == *old(self),
            out.deep_view() == spec_render(final(self).trains.deep_view()),
    {
        self.tick(hand);
        self.render_states()
    }
}

/// Law (latest-wins): when two results are published before the render
/// loop drains, a drain observes exactly the later one; the earlier one
/// is never observed, and a second drain observes nothing at all.
pub proof fn lemma_latest_wins(
    slot0: Option<Seq<TrainView>>,
    first: Seq<TrainView>,
    second: Seq<TrainView>,
)
    ensures
        drained_value(slot_after_publish(slot_after_publish(slot0, first), second)) == Some(
            second,
        ),
        first != second ==> drained_value(
            slot_after_publish(slot_after_publish(slot0, first), second),
        ) != Some(first),
        drained_value(
            slot_after_drain(slot_after_publish(slot_after_publish(slot0, first), second)),
        ) is None,
{
}

/// Law (graceful degradation): a failed fetch publishes nothing, so when
/// the fetch fails twice in a row with nothing pending, the held list is
/// unchanged across both render ticks and the rendered output of the two
/// ticks is identical.
pub proof fn lemma_two_failed_cycles(held: Seq<TrainView>)
    ensures
        hub_trains_after_tick(held, None) == held,
        hub_trains_after_tick(hub_trains_after_tick(held, None), None) == held,
        spec_render(hub_trains_after_tick(held, None)) == spec_render(
            hub_trains_after_tick(hub_trains_after_tick(held, None), None),
        ),
{
}

} // verus!
