//! The scene timeline and the snapshot handoff between the animation side and
//! the renderer.
use vstd::prelude::*;

use crate::dom::all_updated;
use crate::dom::distinct_ids;
use crate::dom::Dom;
use crate::element::ElementView;

verus! {

/// A copy of every element of a scene as it stood after one tick.
#[derive(Clone, Debug)]
pub struct Snapshot {
    time: u64,
    dom: Dom,
}

/// The mathematical value of a [`Snapshot`].
pub struct SnapshotView {
    /// The time of the tick, in microseconds since the start of the animation.
    pub time: u64,
    pub elements: Seq<ElementView>,
}

impl View for Snapshot {
    type V = SnapshotView;

    closed spec fn view(&self) -> SnapshotView {
        SnapshotView { time: self.time, elements: self.dom@ }
    }
}

impl Snapshot {
    /// The snapshot of an empty scene at time zero.
    pub fn empty() -> (r: Snapshot)
        ensures
            r@.time == 0,
            r@.elements == Seq::<ElementView>::empty(),
    {
        Snapshot { time: 0, dom: Dom::new() }
    }

    pub fn time(&self) -> (r: u64)
        ensures
            r == self@.time,
    {
        self.time
    }

    /// The elements, keyed by id.
    pub fn dom(&self) -> (r: &Dom)
        ensures
            r@ == self@.elements,
    {
        &self.dom
    }
}

/// The buffer shared by the animation side (sole writer) and the renderer (sole
/// reader): it holds the last snapshot committed, whole, and counts commits.
#[derive(Debug)]
pub struct SharedDom {
    latest: Snapshot,
    sequence: u64,
}

/// The mathematical value of a [`SharedDom`].
pub struct SharedDomView {
    pub latest: SnapshotView,
    /// The number of commits so far, held at `u64::MAX` once it gets there.
    pub sequence: u64,
}

impl View for SharedDom {
    type V = SharedDomView;

    closed spec fn view(&self) -> SharedDomView {
        SharedDomView { latest: self.latest@, sequence: self.sequence }
    }
}

impl SharedDom {
    /// A buffer holding the empty snapshot, with no commit yet.
    pub fn new() -> (r: SharedDom)
        ensures
            r@.latest.time == 0,
            r@.latest.elements == Seq::<ElementView>::empty(),
            r@.sequence == 0,
    {
        SharedDom { latest: Snapshot::empty(), sequence: 0 }
    }

    /// Replaces the whole contents with `snapshot`.
    pub fn commit(&mut self, snapshot: Snapshot)
        ensures
            final(self)@.latest == snapshot@,
            final(self)@.sequence == if old(self)@.sequence < u64::MAX {
                old(self)@.sequence + 1
            } else {
                old(self)@.sequence as int
            },
    {
        self.latest = snapshot;
        if self.sequence < u64::MAX {
            self.sequence = self.sequence + 1;
        }
    }

    /// The last snapshot committed.
    pub fn read(&self) -> (r: &Snapshot)
        ensures
            r@ == self@.latest,
    {
        &self.latest
    }

    /// The number of commits so far.
    pub fn sequence(&self) -> (r: u64)
        ensures
            r == self@.sequence,
    {
        self.sequence
    }
}

/// The two states of a scene's timeline.
#[derive(Clone, Copy, Debug, PartialEq, Eq, Structural)]
pub enum SceneState {
    /// Constructed; no tick has run.
    Idle,
    /// Started; ticks run.
    Running,
}

/// Owns the authoritative element map and advances it tick by tick.
#[derive(Debug)]
pub struct Scene {
    dom_copy: Dom,
    state: SceneState,
}

/// The mathematical value of a [`Scene`].
pub struct SceneView {
    pub elements: Seq<ElementView>,
    pub state: SceneState,
}

impl View for Scene {
    type V = SceneView;

    closed spec fn view(&self) -> SceneView {
        SceneView { elements: self.dom_copy@, state: self.state }
    }
}

impl Scene {
    /// The scene's invariant: each element id at most once.
    pub open spec fn wf(&self) -> bool {
        distinct_ids(self@.elements)
    }

    /// An idle scene with no elements.
    pub fn new() -> (r: Scene)
        ensures
            r@.state == SceneState::Idle,
            r@.elements == Seq::<ElementView>::empty(),
            r.wf(),
    {
        Scene { dom_copy: Dom::new(), state: SceneState::Idle }
    }

    /// Hands the elements to an idle scene and starts its timeline.
    pub fn start(&mut self, elements: Dom)
        requires
            old(self)@.state == SceneState::Idle,
            elements.wf(),
        ensures
            final(self)@.state == SceneState::Running,
            final(self)@.elements == elements@,
            final(self).wf(),
    {
        self.dom_copy = elements;
        self.state = SceneState::Running;
    }

    pub fn state(&self) -> (r: SceneState)
        ensures
            r == self@.state,
    {
        self.state
    }

    /// The elements, keyed by id.
    pub fn elements(&self) -> (r: &Dom)
        ensures
            r@ == self@.elements,
    {
        &self.dom_copy
    }

    /// One tick at `time_since_start`: every element applies its keyframes
    /// active at that time, and a copy of all of them is returned. An idle
    /// scene does nothing and returns `None`.
    pub fn tick(&mut self, time_since_start: u64) -> (r: Option<Snapshot>)
        requires
            old(self).wf(),
        ensures
            final(self).wf(),
            final(self)@.state == old(self)@.state,
            old(self)@.state == SceneState::Idle ==> r.is_none() && final(self)@ == old(self)@,
            old(self)@.state == SceneState::Running ==> {
                &&& final(self)@.elements == all_updated(
                    old(self)@.elements,
                    time_since_start as int,
                )
                &&& r matches Some(s) && s@.time == time_since_start
                    && s@.elements == final(self)@.elements
            },
    {
        match self.state {
            SceneState::Idle => None,
            SceneState::Running => {
                self.dom_copy.update_all(time_since_start);
                Some(Snapshot { time: time_since_start, dom: self.dom_copy.box_clone() })
            },
        }
    }
}

/// What a reader of the shared buffer sees after a tick's snapshot was
/// committed: every element as the tick left it, all at the same time, none
/// from an earlier tick.
pub proof fn lemma_committed_tick_is_whole(
    before: Seq<ElementView>,
    time_since_start: u64,
    snapshot: SnapshotView,
    shared: SharedDomView,
)
    requires
        snapshot.time == time_since_start,
        snapshot.elements == all_updated(before, time_since_start as int),
        shared.latest == snapshot,
    ensures
        shared.latest.elements.len() == before.len(),
        forall|i: int|
            0 <= i < before.len() ==> #[trigger] shared.latest.elements[i] == before[i].updated(
                shared.latest.time as int,
            ),
{
}

} // verus!
